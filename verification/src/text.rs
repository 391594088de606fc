//! Small verified text utilities: whitespace tests, string equality,
//! decimal parsing and formatting.

use vstd::prelude::*;

verus! {

/// The characters that `char::is_whitespace` recognises (the Unicode
/// `White_Space` property).
pub open spec fn spec_is_whitespace(c: char) -> bool {
    let u = c as u32;
    u == 0x20 || u == 0x09 || u == 0x0a || u == 0x0d || u == 0x0b || u == 0x0c || u == 0x85
        || u == 0xa0 || u == 0x1680 || (0x2000 <= u && u <= 0x200a) || u == 0x2028 || u == 0x2029
        || u == 0x202f || u == 0x205f || u == 0x3000
}

/// A string is blank when every character is whitespace; the empty string
/// is blank.  This is exactly the condition under which `str::trim` leaves
/// nothing.
pub open spec fn all_whitespace(s: Seq<char>) -> bool {
    forall|i: int| 0 <= i < s.len() ==> spec_is_whitespace(#[trigger] s[i])
}

fn is_whitespace_char(c: char) -> (r: bool)
    ensures
        r == spec_is_whitespace(c),
{
    let u = c as u32;
    u == 0x20 || u == 0x09 || u == 0x0a || u == 0x0d || u == 0x0b || u == 0x0c || u == 0x85
        || u == 0xa0 || u == 0x1680 || (0x2000 <= u && u <= 0x200a) || u == 0x2028 || u == 0x2029
        || u == 0x202f || u == 0x205f || u == 0x3000
}

/// Whether the string holds nothing but whitespace (in particular, whether
/// it is empty after trimming).
pub fn is_blank(s: &str) -> (r: bool)
    ensures
        r == all_whitespace(s@),
{
    let n = s.unicode_len();
    let mut i: usize = 0;
    while i < n
        invariant
            n == s@.len(),
            i <= n,
            forall|j: int| 0 <= j < i ==> spec_is_whitespace(#[trigger] s@[j]),
        decreases n - i,
    {
        let c = s.get_char(i);
        if !is_whitespace_char(c) {
            return false;
        }
        i = i + 1;
    }
    true
}

/// Character-wise string equality.
pub fn str_eq(a: &str, b: &str) -> (r: bool)
    ensures
        r == (a@ == b@),
{
    let na = a.unicode_len();
    let nb = b.unicode_len();
    if na != nb {
        return false;
    }
    let mut i: usize = 0;
    while i < na
        invariant
            na == a@.len(),
            na == b@.len(),
            i <= na,
            forall|j: int| 0 <= j < i ==> a@[j] == b@[j],
        decreases na - i,
    {
        if a.get_char(i) != b.get_char(i) {
            return false;
        }
        i = i + 1;
    }
    proof {
        assert(a@ =~= b@);
    }
    true
}

/// An ASCII decimal digit.
pub open spec fn spec_is_digit(c: char) -> bool {
    0x30 <= c as u32 && c as u32 <= 0x39
}

/// The numeric value of an ASCII decimal digit.
pub open spec fn spec_digit_val(c: char) -> int {
    c as u32 - 0x30
}

pub open spec fn all_digits(s: Seq<char>) -> bool {
    forall|i: int| 0 <= i < s.len() ==> spec_is_digit(#[trigger] s[i])
}

/// The value of a sequence of decimal digits, most significant first.
pub open spec fn spec_digits_val(s: Seq<char>) -> int
    decreases s.len(),
{
    if s.len() == 0 {
        0
    } else {
        spec_digits_val(s.drop_last()) * 10 + spec_digit_val(s.last())
    }
}

/// The digits of `str::parse::<u64>`'s input: an optional leading `+` is
/// accepted and ignored.
pub open spec fn spec_number_body(s: Seq<char>) -> Seq<char> {
    if s.len() > 0 && s[0] == '+' {
        s.subrange(1, s.len() as int)
    } else {
        s
    }
}

/// Exactly the strings that `str::parse::<u64>` accepts: an optional `+`,
/// then one or more digits, with a value that fits in `u64`.
pub open spec fn spec_parses_u64(s: Seq<char>) -> bool {
    let b = spec_number_body(s);
    b.len() > 0 && all_digits(b) && spec_digits_val(b) <= u64::MAX
}

proof fn lemma_digits_val_nonneg(s: Seq<char>)
    requires
        all_digits(s),
    ensures
        spec_digits_val(s) >= 0,
    decreases s.len(),
{
    if s.len() > 0 {
        assert(all_digits(s.drop_last())) by {
            assert(forall|i: int|
                0 <= i < s.len() - 1 ==> #[trigger] s.drop_last()[i] == s[i]);
        }
        lemma_digits_val_nonneg(s.drop_last());
    }
}

/// Extending a digit string to the right can only grow its value.
proof fn lemma_digits_val_prefix(s: Seq<char>, i: int)
    requires
        all_digits(s),
        0 <= i <= s.len(),
    ensures
        spec_digits_val(s.subrange(0, i)) <= spec_digits_val(s),
    decreases s.len() - i,
{
    if i < s.len() {
        let t = s.subrange(0, i + 1);
        assert(t.drop_last() =~= s.subrange(0, i));
        assert(all_digits(t));
        assert(all_digits(t.drop_last()));
        lemma_digits_val_nonneg(t.drop_last());
        assert(spec_digits_val(t) == spec_digits_val(s.subrange(0, i)) * 10 + spec_digit_val(
            s[i],
        ));
        assert(spec_digits_val(s.subrange(0, i)) <= spec_digits_val(t)) by {
            lemma_digits_val_nonneg(s.subrange(0, i));
        }
        lemma_digits_val_prefix(s, i + 1);
        assert(s.subrange(0, s.len() as int) =~= s);
    } else {
        assert(s.subrange(0, i) =~= s);
    }
}

/// Parse a decimal `u64`, accepting exactly what `str::parse::<u64>`
/// accepts.
pub fn parse_u64(s: &str) -> (r: Option<u64>)
    ensures
        r is Some <==> spec_parses_u64(s@),
        r matches Some(v) ==> v == spec_digits_val(spec_number_body(s@)),
{
    let n = s.unicode_len();
    let start: usize = if n > 0 && s.get_char(0) == '+' {
        1
    } else {
        0
    };
    proof {
        assert(spec_number_body(s@) =~= s@.subrange(start as int, n as int));
    }
    let ghost body = s@.subrange(start as int, n as int);
    if n == start {
        return None;
    }
    let mut val: u64 = 0;
    let mut i: usize = start;
    while i < n
        invariant
            n == s@.len(),
            start <= i <= n,
            body == s@.subrange(start as int, n as int),
            body == spec_number_body(s@),
            all_digits(s@.subrange(start as int, i as int)),
            val == spec_digits_val(s@.subrange(start as int, i as int)),
        decreases n - i,
    {
        let c = s.get_char(i);
        let u = c as u32;
        if u < 0x30 || u > 0x39 {
            proof {
                assert(!spec_is_digit(body[i - start]));
                assert(!all_digits(body));
            }
            return None;
        }
        let d: u64 = (u - 0x30) as u64;
        let ghost prefix = s@.subrange(start as int, i as int);
        let ghost prefix1 = s@.subrange(start as int, i as int + 1);
        proof {
            assert(prefix1.drop_last() =~= prefix);
            assert(prefix1.last() == s@[i as int]);
            assert(all_digits(prefix1));
            assert(spec_digits_val(prefix1) == val * 10 + d);
        }
        let next = match val.checked_mul(10) {
            Some(m) => m.checked_add(d),
            None => None,
        };
        match next {
            Some(v) => {
                val = v;
            },
            None => {
                proof {
                    assert(spec_digits_val(prefix1) > u64::MAX);
                    assert(body.subrange(0, i - start + 1) =~= prefix1);
                    if all_digits(body) {
                        lemma_digits_val_prefix(body, i - start + 1);
                    }
                }
                return None;
            },
        }
        i = i + 1;
    }
    proof {
        assert(s@.subrange(start as int, n as int) =~= body);
    }
    Some(val)
}

/// Parse a boolean, accepting exactly what `str::parse::<bool>` accepts:
/// the strings `true` and `false`.
pub fn parse_bool(s: &str) -> (r: Option<bool>)
    ensures
        r == Some(true) <==> s@ == "true"@,
        r == Some(false) <==> s@ == "false"@,
        r is None <==> (s@ != "true"@ && s@ != "false"@),
{
    proof {
        reveal_strlit("true");
        reveal_strlit("false");
        assert("true"@.len() == 4);
        assert("false"@.len() == 5);
    }
    if str_eq(s, "true") {
        Some(true)
    } else if str_eq(s, "false") {
        Some(false)
    } else {
        None
    }
}

/// The decimal rendering of a nonnegative integer, most significant digit
/// first.
pub open spec fn spec_u64_str(n: int) -> Seq<char>
    decreases n,
{
    if n < 10 {
        seq![spec_digit_char(n)]
    } else {
        spec_u64_str(n / 10) + seq![spec_digit_char(n % 10)]
    }
}

/// The decimal rendering of a signed integer.
pub open spec fn spec_i64_str(n: int) -> Seq<char> {
    if n < 0 {
        seq!['-'] + spec_u64_str(-n)
    } else {
        spec_u64_str(n)
    }
}

/// The digit character for a value in `0 ..= 9`.
pub open spec fn spec_digit_char(d: int) -> char {
    if d == 0 {
        '0'
    } else if d == 1 {
        '1'
    } else if d == 2 {
        '2'
    } else if d == 3 {
        '3'
    } else if d == 4 {
        '4'
    } else if d == 5 {
        '5'
    } else if d == 6 {
        '6'
    } else if d == 7 {
        '7'
    } else if d == 8 {
        '8'
    } else {
        '9'
    }
}

fn digit_str(d: u64) -> (r: &'static str)
    requires
        d < 10,
    ensures
        r@ =~= seq![spec_digit_char(d as int)],
{
    proof {
        reveal_strlit("0");
        reveal_strlit("1");
        reveal_strlit("2");
        reveal_strlit("3");
        reveal_strlit("4");
        reveal_strlit("5");
        reveal_strlit("6");
        reveal_strlit("7");
        reveal_strlit("8");
        reveal_strlit("9");
    }
    match d {
        0 => "0",
        1 => "1",
        2 => "2",
        3 => "3",
        4 => "4",
        5 => "5",
        6 => "6",
        7 => "7",
        8 => "8",
        _ => "9",
    }
}

/// Render a `u64` in decimal.
pub fn u64_to_string(n: u64) -> (r: String)
    ensures
        r@ == spec_u64_str(n as int),
    decreases n,
{
    if n < 10 {
        String::from_str(digit_str(n))
    } else {
        let high = u64_to_string(n / 10);
        let r = high.concat(digit_str(n % 10));
        proof {
            assert(r@ =~= spec_u64_str(n as int));
        }
        r
    }
}

/// Render an `i32` in decimal, as `i32::to_string` does.
pub fn i32_to_string(n: i32) -> (r: String)
    ensures
        r@ == spec_i64_str(n as int),
{
    if n >= 0 {
        u64_to_string(n as u64)
    } else {
        let mag: u64 = (-(n as i64)) as u64;
        let r = String::from_str("-").concat(u64_to_string(mag).as_str());
        proof {
            reveal_strlit("-");
            assert(r@ =~= spec_i64_str(n as int));
        }
        r
    }
}

} // verus!
