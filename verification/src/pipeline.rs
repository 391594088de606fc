//! The request pipeline: for a configuration and a logical request
//! descriptor, produce the complete outbound request — URL, headers,
//! body, timeout — and classify the response that comes back.
//!
//! The steps run in a fixed order: URL assembly, header assembly in fixed
//! precedence, body attachment, timeout selection.  Dispatching the
//! prepared request is the embedding application's work; the pipeline
//! itself performs no I/O.

use std::collections::HashMap;
use vstd::prelude::*;

use crate::auth::{header_view, spec_auth_headers, AuthMethod};
use crate::config::PortkeyConfig;
use crate::error::Error;
use crate::urlbuild::{assemble_url, parsed_base, spec_url};

verus! {

/// HTTP method of a request.
#[derive(Debug, Clone, Copy, PartialEq, Eq, Structural)]
pub enum HttpMethod {
    /// `GET`.
    Get,
    /// `POST`.
    Post,
    /// `PUT`.
    Put,
    /// `PATCH`.
    Patch,
    /// `DELETE`.
    Delete,
}

/// One field of a multipart form, used for binary uploads.
#[derive(Debug, Clone)]
pub enum MultipartField {
    /// A plain text field.
    Text {
        /// Field name.
        name: String,
        /// Field value.
        value: String,
    },
    /// A file part carrying raw bytes under a file name.
    File {
        /// Field name.
        name: String,
        /// File name reported for the part.
        file_name: String,
        /// The raw bytes.
        data: Vec<u8>,
    },
}

/// The specification-level view of a multipart field: its texts as
/// character sequences and its bytes as a byte sequence.
pub enum FieldView {
    /// A plain text field.
    Text {
        /// Field name.
        name: Seq<char>,
        /// Field value.
        value: Seq<char>,
    },
    /// A file part.
    File {
        /// Field name.
        name: Seq<char>,
        /// File name reported for the part.
        file_name: Seq<char>,
        /// The raw bytes.
        data: Seq<u8>,
    },
}

/// The view of one multipart field.
pub open spec fn field_view(f: MultipartField) -> FieldView {
    match f {
        MultipartField::Text { name, value } => FieldView::Text { name: name@, value: value@ },
        MultipartField::File { name, file_name, data } => FieldView::File {
            name: name@,
            file_name: file_name@,
            data: data@,
        },
    }
}

/// The view of a list of multipart fields.
pub open spec fn fields_view(v: Seq<MultipartField>) -> Seq<FieldView> {
    Seq::new(v.len(), |i: int| field_view(v[i]))
}

/// The body of a request: nothing, JSON text, or a multipart form —
/// never both a JSON and a multipart body, which this type cannot
/// express.
#[derive(Debug, Clone)]
pub enum RequestBody {
    /// No body.
    Empty,
    /// A JSON body, already encoded to text.
    Json(String),
    /// A multipart form body.
    Multipart(Vec<MultipartField>),
}

/// A logical request: what one REST call asks of the pipeline.
/// Constructed fresh per call and never reused.
#[derive(Debug, Clone)]
pub struct RequestDescriptor {
    /// HTTP method.
    pub method: HttpMethod,
    /// Endpoint path, appended to the base URL.
    pub path: String,
    /// Query pairs, attached in this order.
    pub query: Vec<(String, String)>,
    /// The request body.
    pub body: RequestBody,
    /// Per-request timeout in milliseconds, overriding the configured
    /// one when set.
    pub override_timeout_ms: Option<u64>,
}

impl RequestDescriptor {
    /// A bodiless request.
    pub fn new(method: HttpMethod, path: &str) -> (r: Self)
        ensures
            r.method == method,
            r.path@ == path@,
            r.query@.len() == 0,
            r.body is Empty,
            r.override_timeout_ms is None,
    {
        RequestDescriptor {
            method,
            path: String::from_str(path),
            query: Vec::new(),
            body: RequestBody::Empty,
            override_timeout_ms: None,
        }
    }

    /// A request with a JSON body, already encoded to text.
    pub fn json(method: HttpMethod, path: &str, body: String) -> (r: Self)
        ensures
            r.method == method,
            r.path@ == path@,
            r.query@.len() == 0,
            (r.body matches RequestBody::Json(b) && b == body),
            r.override_timeout_ms is None,
    {
        RequestDescriptor {
            method,
            path: String::from_str(path),
            query: Vec::new(),
            body: RequestBody::Json(body),
            override_timeout_ms: None,
        }
    }

    /// A request with a multipart form body.
    pub fn multipart(method: HttpMethod, path: &str, fields: Vec<MultipartField>) -> (r: Self)
        ensures
            r.method == method,
            r.path@ == path@,
            r.query@.len() == 0,
            (r.body matches RequestBody::Multipart(f) && f == fields),
            r.override_timeout_ms is None,
    {
        RequestDescriptor {
            method,
            path: String::from_str(path),
            query: Vec::new(),
            body: RequestBody::Multipart(fields),
            override_timeout_ms: None,
        }
    }

    /// The same request with the given query pairs.
    pub fn with_query(self, query: Vec<(String, String)>) -> (r: Self)
        ensures
            r.method == self.method,
            r.path == self.path,
            r.query == query,
            r.body == self.body,
            r.override_timeout_ms == self.override_timeout_ms,
    {
        RequestDescriptor { query, ..self }
    }
}

/// Relies on `serde_json::to_string` (serde_json 1.0) to serialize a
/// metadata map to JSON text.  Nothing is stated of the text, nor of
/// success: the map's iteration order varies between processes, so the
/// result is not a function of the map's contents alone.
#[verifier::external_body]
fn serialize_metadata(m: &HashMap<String, serde_json::Value>) -> (r: Option<String>) {
    serde_json::to_string(m).ok()
}

/// The complete header list of a request, in fixed precedence: the
/// mandatory API-key header; the headers of the active authentication
/// method; then, each only when present, the trace ID, the serialized
/// metadata, the cache namespace, and the cache force-refresh flag as
/// `true` or `false`.
pub open spec fn spec_headers(c: PortkeyConfig, metadata_json: Option<Seq<char>>) -> Seq<
    (Seq<char>, Seq<char>),
> {
    seq![("x-portkey-api-key"@, c.spec_api_key()@)] + spec_auth_headers(c.spec_auth_method())
        + (match c.spec_trace_id() {
        Some(t) => seq![("x-portkey-trace-id"@, t@)],
        None => Seq::<(Seq<char>, Seq<char>)>::empty(),
    }) + (match metadata_json {
        Some(m) => seq![("x-portkey-metadata"@, m)],
        None => Seq::<(Seq<char>, Seq<char>)>::empty(),
    }) + (match c.spec_cache_namespace() {
        Some(n) => seq![("x-portkey-cache-namespace"@, n@)],
        None => Seq::<(Seq<char>, Seq<char>)>::empty(),
    }) + (match c.spec_cache_force_refresh() {
        Some(b) => seq![
            ("x-portkey-cache-force-refresh"@, if b {
                "true"@
            } else {
                "false"@
            }),
        ],
        None => Seq::<(Seq<char>, Seq<char>)>::empty(),
    })
}

/// Builds the header list for the given serialized metadata, exactly as
/// [`spec_headers`] lays it out.
pub fn build_headers_with(config: &PortkeyConfig, metadata_json: Option<String>) -> (r: Vec<
    (String, String),
>)
    ensures
        header_view(r@) == spec_headers(*config, match metadata_json {
            Some(m) => Some(m@),
            None => None,
        }),
{
    let ghost mj: Option<Seq<char>> = match metadata_json {
        Some(ref m) => Some(m@),
        None => None,
    };
    let mut r: Vec<(String, String)> = Vec::new();
    r.push((String::from_str("x-portkey-api-key"), String::from_str(config.api_key())));
    let mut auth = config.auth_method().auth_headers();
    r.append(&mut auth);
    if let Some(t) = config.trace_id() {
        r.push((String::from_str("x-portkey-trace-id"), t.clone()));
    }
    if let Some(m) = metadata_json {
        r.push((String::from_str("x-portkey-metadata"), m));
    }
    if let Some(n) = config.cache_namespace() {
        r.push((String::from_str("x-portkey-cache-namespace"), n.clone()));
    }
    if let Some(b) = config.cache_force_refresh() {
        let value = if b {
            String::from_str("true")
        } else {
            String::from_str("false")
        };
        r.push((String::from_str("x-portkey-cache-force-refresh"), value));
    }
    proof {
        assert(header_view(r@) =~= spec_headers(*config, mj));
    }
    r
}

/// Builds the header list of a request.  When a metadata map is present
/// it is serialized to JSON for the `x-portkey-metadata` header; if that
/// serialization fails, the header is skipped and everything else stands,
/// since missing optional telemetry must never block a request.
pub fn build_headers(config: &PortkeyConfig) -> (r: Vec<(String, String)>)
    ensures
        config.spec_metadata() is None ==> header_view(r@) == spec_headers(*config, None),
        config.spec_metadata() is Some ==> exists|mj: Option<Seq<char>>|
            header_view(r@) == spec_headers(*config, mj),
{
    let metadata_json: Option<String> = match config.metadata() {
        Some(m) => serialize_metadata(m),
        None => None,
    };
    build_headers_with(config, metadata_json)
}

/// Law: the header steps only ever add headers — no header name appears
/// twice in any list the pipeline lays out.
#[verifier::rlimit(100)]
pub proof fn lemma_headers_no_duplicates(c: PortkeyConfig, metadata_json: Option<Seq<char>>)
    ensures
        forall|i: int, j: int|
            0 <= i < j < spec_headers(c, metadata_json).len() ==> #[trigger] spec_headers(
                c,
                metadata_json,
            )[i].0 != #[trigger] spec_headers(c, metadata_json)[j].0,
{
    reveal_strlit("x-portkey-api-key");
    reveal_strlit("x-portkey-virtual-key");
    reveal_strlit("x-portkey-provider");
    reveal_strlit("Authorization");
    reveal_strlit("x-portkey-custom-host");
    reveal_strlit("x-portkey-config");
    reveal_strlit("x-portkey-trace-id");
    reveal_strlit("x-portkey-metadata");
    reveal_strlit("x-portkey-cache-namespace");
    reveal_strlit("x-portkey-cache-force-refresh");
    assert("x-portkey-api-key"@.len() == 17);
    assert("x-portkey-virtual-key"@.len() == 21);
    assert("x-portkey-provider"@.len() == 18);
    assert("Authorization"@.len() == 13);
    assert("x-portkey-custom-host"@.len() == 21);
    assert("x-portkey-config"@.len() == 16);
    assert("x-portkey-trace-id"@.len() == 18);
    assert("x-portkey-metadata"@.len() == 18);
    assert("x-portkey-cache-namespace"@.len() == 25);
    assert("x-portkey-cache-force-refresh"@.len() == 29);
    assert("x-portkey-virtual-key"@[10] == 'v');
    assert("x-portkey-custom-host"@[10] == 'c');
    assert("x-portkey-provider"@[10] == 'p');
    assert("x-portkey-trace-id"@[10] == 't');
    assert("x-portkey-metadata"@[10] == 'm');
}

/// Law: with virtual-key authentication and no optional value set, the
/// header list is exactly the mandatory API-key header followed by the
/// virtual-key header — no provider, authorization, or config header
/// appears.  The other variants' header sets are pinned the same way by
/// [`spec_auth_headers`].
pub proof fn lemma_headers_virtual_key(c: PortkeyConfig, vk: String)
    requires
        c.spec_auth_method() == (AuthMethod::VirtualKey { virtual_key: vk }),
        c.spec_trace_id() is None,
        c.spec_cache_namespace() is None,
        c.spec_cache_force_refresh() is None,
    ensures
        spec_headers(c, None) =~= seq![
            ("x-portkey-api-key"@, c.spec_api_key()@),
            ("x-portkey-virtual-key"@, vk@),
        ],
{
}

/// A fully prepared outbound request, ready for a transport to dispatch.
#[derive(Debug, Clone)]
pub struct PreparedRequest {
    /// HTTP method.
    pub method: HttpMethod,
    /// The complete request URL.
    pub url: String,
    /// The ordered header list.
    pub headers: Vec<(String, String)>,
    /// The request body.
    pub body: RequestBody,
    /// The timeout for this request, in milliseconds.
    pub timeout_ms: u64,
}

/// Turns a configuration and a request descriptor into a prepared
/// request: the URL is assembled from the base URL, path and query; the
/// headers follow the fixed precedence of [`spec_headers`]; the body is
/// attached unchanged; the timeout is the descriptor's override if given,
/// else the configured one.  Fails exactly when the base URL does not
/// parse, with a URL error, before anything is dispatched.
pub fn prepare_request(config: &PortkeyConfig, desc: RequestDescriptor) -> (r: Result<
    PreparedRequest,
    Error,
>)
    ensures
        r is Ok <==> parsed_base(config.spec_base_url()@) is Some,
        parsed_base(config.spec_base_url()@) is None ==> (r matches Err(e) && e is UrlParse),
        r matches Ok(p) ==> {
            &&& p.method == desc.method
            &&& (parsed_base(config.spec_base_url()@) matches Some(pb) && p.url@ == spec_url(
                pb.0,
                pb.1,
                desc.path@,
                header_view(desc.query@),
            ))
            &&& (config.spec_metadata() is None ==> header_view(p.headers@) == spec_headers(
                *config,
                None,
            ))
            &&& (config.spec_metadata() is Some ==> exists|mj: Option<Seq<char>>|
                header_view(p.headers@) == spec_headers(*config, mj))
            &&& p.body == desc.body
            &&& p.timeout_ms == (match desc.override_timeout_ms {
                Some(t) => t,
                None => config.spec_timeout_ms(),
            })
        },
{
    let url = match assemble_url(config.base_url(), desc.path.as_str(), &desc.query) {
        Ok(u) => u,
        Err(e) => {
            return Err(e);
        },
    };
    let headers = build_headers(config);
    let timeout_ms = match desc.override_timeout_ms {
        Some(t) => t,
        None => config.timeout(),
    };
    Ok(PreparedRequest { method: desc.method, url, headers, body: desc.body, timeout_ms })
}

/// Classifies an HTTP response before any caller sees its body: an error
/// status — 400 and above — always becomes an API error carrying the
/// status and the body as its message, and never a success value; any
/// other status hands the body back unchanged for the caller to decode.
pub fn classify_response(status: u16, body: String) -> (r: Result<String, Error>)
    ensures
        status >= 400 ==> (r matches Err(e) && e matches Error::Api { status: s, message: m }
            && s == status && m@ == body@),
        status < 400 ==> (r matches Ok(b) && b@ == body@),
{
    if status >= 400 {
        Err(Error::Api { status, message: body })
    } else {
        Ok(body)
    }
}

} // verus!
