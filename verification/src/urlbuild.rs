//! URL assembly for outbound requests.
//!
//! A request URL is the configured base URL with the endpoint path
//! appended — after trimming one trailing slash from the base's path
//! component, so that the separator is neither doubled nor missing — and
//! the query pairs attached in caller-supplied order.  Parsing the base
//! URL and percent-encoding query text are the `url` crate's work, behind
//! trusted wrappers; everything around them is verified.

use vstd::prelude::*;

use crate::auth::header_view;
use crate::error::Error;

verus! {

/// What `url::Url::parse` makes of a base URL: nothing when the text does
/// not parse, else the part before the path and the path itself.  The
/// split is a function of the text alone.
pub uninterp spec fn parsed_base(s: Seq<char>) -> Option<(Seq<char>, Seq<char>)>;

/// Relies on `url::Url::parse` (url 2.5): whether the text parses as a
/// URL, the slice before its path (`Position::BeforePath`) and its path
/// component depend on the text alone.  On failure the error's rendering
/// is returned, with nothing stated about it.
#[verifier::external_body]
fn split_base_url(base: &str) -> (r: Result<(String, String), String>)
    ensures
        r is Ok <==> parsed_base(base@) is Some,
        r matches Ok(p) ==> parsed_base(base@) == Some((p.0@, p.1@)),
{
    match url::Url::parse(base) {
        Ok(u) => {
            let prefix = u[..url::Position::BeforePath].to_string();
            let path = u.path().to_string();
            Ok((prefix, path))
        },
        Err(e) => Err(e.to_string()),
    }
}

/// What `application/x-www-form-urlencoded` percent-encoding makes of a
/// piece of query text: a function of the text alone.
pub uninterp spec fn form_encoded(s: Seq<char>) -> Seq<char>;

/// Relies on `url::form_urlencoded::Serializer::append_pair` (url 2.5):
/// on an empty serializer it writes the encoded name, `=`, and the
/// encoded value, where the encoding is a function of the text alone.
#[verifier::external_body]
fn encode_pair(name: &str, value: &str) -> (r: String)
    ensures
        r@ == form_encoded(name@) + "="@ + form_encoded(value@),
{
    let mut s = url::form_urlencoded::Serializer::new(String::new());
    s.append_pair(name, value);
    s.finish()
}

/// One encoded query pair, `name=value`.
pub open spec fn spec_encoded_pair(k: Seq<char>, v: Seq<char>) -> Seq<char> {
    form_encoded(k) + "="@ + form_encoded(v)
}

/// The encoded query string: the pairs in caller-supplied order, each as
/// `name=value`, joined by `&`.
pub open spec fn spec_query_string(pairs: Seq<(Seq<char>, Seq<char>)>) -> Seq<char>
    decreases pairs.len(),
{
    if pairs.len() == 0 {
        Seq::empty()
    } else if pairs.len() == 1 {
        spec_encoded_pair(pairs[0].0, pairs[0].1)
    } else {
        spec_query_string(pairs.drop_last()) + "&"@ + spec_encoded_pair(
            pairs.last().0,
            pairs.last().1,
        )
    }
}

/// Encodes query pairs into a query string, keeping the caller-supplied
/// order exactly.
pub fn encode_query(pairs: &Vec<(String, String)>) -> (r: String)
    ensures
        r@ == spec_query_string(header_view(pairs@)),
{
    let ghost all = header_view(pairs@);
    let mut r = String::new();
    let mut i: usize = 0;
    while i < pairs.len()
        invariant
            i <= pairs@.len(),
            all == header_view(pairs@),
            r@ == spec_query_string(all.subrange(0, i as int)),
        decreases pairs@.len() - i,
    {
        if i > 0 {
            r = r.concat("&");
        }
        let ep = encode_pair(pairs[i].0.as_str(), pairs[i].1.as_str());
        r = r.concat(ep.as_str());
        proof {
            let sub1 = all.subrange(0, i as int + 1);
            assert(sub1.drop_last() =~= all.subrange(0, i as int));
            assert(sub1.last() == (pairs@[i as int].0@, pairs@[i as int].1@));
            assert(r@ =~= spec_query_string(sub1));
        }
        i = i + 1;
    }
    proof {
        assert(all.subrange(0, pairs@.len() as int) =~= all);
    }
    r
}

/// Law: the encoded query string preserves the caller-supplied order —
/// encoding one more pair appends its text at the end, leaving the
/// earlier pairs' text as an unchanged prefix.
pub proof fn lemma_query_order(pairs: Seq<(Seq<char>, Seq<char>)>, p: (Seq<char>, Seq<char>))
    ensures
        spec_query_string(pairs.push(p)) == if pairs.len() == 0 {
            spec_encoded_pair(p.0, p.1)
        } else {
            spec_query_string(pairs) + "&"@ + spec_encoded_pair(p.0, p.1)
        },
{
    let e = pairs.push(p);
    assert(e.drop_last() =~= pairs);
    assert(e.last() == p);
}

/// The base's path component with the endpoint path appended, after
/// trimming one trailing slash from the base path.
pub open spec fn spec_join_path(base_path: Seq<char>, path: Seq<char>) -> Seq<char> {
    if base_path.len() > 0 && base_path.last() == '/' {
        base_path.drop_last() + path
    } else {
        base_path + path
    }
}

/// Law: appending an endpoint path is insensitive to a trailing slash on
/// the base path — a base path without one, and the same base path with
/// one appended, join to the same path.
pub proof fn lemma_join_path_trailing_slash(base_path: Seq<char>, path: Seq<char>)
    requires
        base_path.len() == 0 || base_path.last() != '/',
    ensures
        spec_join_path(base_path.push('/'), path) == spec_join_path(base_path, path),
{
    assert(base_path.push('/').last() == '/');
    assert(base_path.push('/').drop_last() =~= base_path);
}

/// Appends an endpoint path to a base path, trimming one trailing slash.
pub fn join_path(base_path: &str, path: &str) -> (r: String)
    ensures
        r@ == spec_join_path(base_path@, path@),
{
    let n = base_path.unicode_len();
    if n > 0 && base_path.get_char(n - 1) == '/' {
        let trimmed = base_path.substring_char(0, n - 1);
        proof {
            assert(base_path@.subrange(0, n - 1) =~= base_path@.drop_last());
        }
        String::from_str(trimmed).concat(path)
    } else {
        String::from_str(base_path).concat(path)
    }
}

/// The complete request URL: everything before the base's path, then the
/// joined path, then — only when there are query pairs — `?` and the
/// encoded query string, pairs in caller-supplied order.
pub open spec fn spec_url(
    prefix: Seq<char>,
    base_path: Seq<char>,
    path: Seq<char>,
    query: Seq<(Seq<char>, Seq<char>)>,
) -> Seq<char> {
    prefix + spec_join_path(base_path, path) + (if query.len() == 0 {
        Seq::<char>::empty()
    } else {
        "?"@ + spec_query_string(query)
    })
}

/// Builds the request URL from the configured base URL, the endpoint
/// path, and the query pairs.  Fails exactly when the base URL does not
/// parse, with a URL error, before anything is dispatched.
pub fn assemble_url(base: &str, path: &str, query: &Vec<(String, String)>) -> (r: Result<
    String,
    Error,
>)
    ensures
        r is Ok <==> parsed_base(base@) is Some,
        parsed_base(base@) is None ==> (r matches Err(e) && e is UrlParse),
        parsed_base(base@) matches Some(pb) ==> (r matches Ok(u) && u@ == spec_url(
            pb.0,
            pb.1,
            path@,
            header_view(query@),
        )),
{
    match split_base_url(base) {
        Err(m) => Err(Error::UrlParse(m)),
        Ok((prefix, base_path)) => {
            let joined = join_path(base_path.as_str(), path);
            let mut u = prefix.concat(joined.as_str());
            if query.len() > 0 {
                let q = encode_query(query);
                u = u.concat("?").concat(q.as_str());
            }
            proof {
                assert(u@ =~= spec_url(prefix@, base_path@, path@, header_view(query@)));
            }
            Ok(u)
        },
    }
}

} // verus!
