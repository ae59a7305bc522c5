use vstd::prelude::*;

verus! {

/// A character the transport takes in a method: a letter, a digit, or one
/// of `! * + - . ^ _ ` | ~`.
pub open spec fn is_method_char(c: char) -> bool {
    ('0' <= c && c <= '9') || ('a' <= c && c <= 'z') || ('A' <= c && c <= 'Z') || c == '!'
        || c == '*' || c == '+' || c == '-' || c == '.' || c == '^' || c == '_' || c == '`'
        || c == '|' || c == '~'
}

/// The methods the transport accepts: non-empty, of method characters only.
pub open spec fn method_ok(m: Seq<char>) -> bool {
    m.len() > 0 && forall|i: int| 0 <= i < m.len() ==> is_method_char(#[trigger] m[i])
}

/// A character the transport takes in a header name: those of a method,
/// and `" # $ % & '`.
pub open spec fn is_header_char(c: char) -> bool {
    is_method_char(c) || c == '"' || c == '#' || c == '$' || c == '%' || c == '&' || c == '\''
}

/// The lower-case form of an ASCII letter; any other character is kept.
pub open spec fn lower_char(c: char) -> char {
    if c == 'A' {
        'a'
    } else if c == 'B' {
        'b'
    } else if c == 'C' {
        'c'
    } else if c == 'D' {
        'd'
    } else if c == 'E' {
        'e'
    } else if c == 'F' {
        'f'
    } else if c == 'G' {
        'g'
    } else if c == 'H' {
        'h'
    } else if c == 'I' {
        'i'
    } else if c == 'J' {
        'j'
    } else if c == 'K' {
        'k'
    } else if c == 'L' {
        'l'
    } else if c == 'M' {
        'm'
    } else if c == 'N' {
        'n'
    } else if c == 'O' {
        'o'
    } else if c == 'P' {
        'p'
    } else if c == 'Q' {
        'q'
    } else if c == 'R' {
        'r'
    } else if c == 'S' {
        's'
    } else if c == 'T' {
        't'
    } else if c == 'U' {
        'u'
    } else if c == 'V' {
        'v'
    } else if c == 'W' {
        'w'
    } else if c == 'X' {
        'x'
    } else if c == 'Y' {
        'y'
    } else if c == 'Z' {
        'z'
    } else {
        c
    }
}

/// The header names the transport accepts: 1 to 65535 header characters.
pub open spec fn header_name_ok(s: Seq<char>) -> bool {
    0 < s.len() <= 65535 && forall|i: int| 0 <= i < s.len() ==> is_header_char(#[trigger] s[i])
}

/// The normalised (lower-case) header name that the transport makes of a
/// text, or `None` where it refuses the text.
pub open spec fn header_name_of(s: Seq<char>) -> Option<Seq<char>> {
    if header_name_ok(s) {
        Some(s.map_values(|c: char| lower_char(c)))
    } else {
        None
    }
}

/// A character a header value may hold: a tab, or anything from the space
/// upwards but DEL (non-ASCII characters only have bytes above DEL).
pub open spec fn value_char_ok(c: char) -> bool {
    c == '\t' || (c as u32 >= 32 && c as u32 != 127)
}

pub open spec fn value_ok(v: Seq<char>) -> bool {
    forall|i: int| 0 <= i < v.len() ==> value_char_ok(#[trigger] v[i])
}

/// The serialisation of the URL parsed from a text, or `None` where the text
/// is no absolute URL.
pub uninterp spec fn url_of(s: Seq<char>) -> Option<Seq<char>>;

pub open spec fn opt_view(o: Option<String>) -> Option<Seq<char>> {
    match o {
        Some(s) => Some(s@),
        None => None,
    }
}

/// Relies on `http::Method::from_str` (re-exported by reqwest): it accepts
/// exactly the non-empty texts whose bytes its `METHOD_CHARS` table maps to
/// a non-zero value.
#[verifier::external_body]
pub(crate) fn method_accepts(m: &str) -> (r: bool)
    ensures
        r == method_ok(m@),
{
    <reqwest::Method as std::str::FromStr>::from_str(m).is_ok()
}

/// Relies on `http::HeaderValue::from_str`: it refuses a text exactly when a
/// byte is a control character other than tab, or DEL.
#[verifier::external_body]
pub(crate) fn header_value_accepts(v: &str) -> (r: bool)
    ensures
        r == value_ok(v@),
{
    <reqwest::header::HeaderValue as std::str::FromStr>::from_str(v).is_ok()
}

/// Relies on `http::HeaderName::from_str`: it refuses an empty name, one
/// longer than 65535 bytes, or one with a byte that its `HEADER_CHARS`
/// table maps to zero, and otherwise maps each byte through that table,
/// which lower-cases letters and keeps the other valid characters.
#[verifier::external_body]
pub(crate) fn parse_header_name(s: &str) -> (r: Option<String>)
    ensures
        opt_view(r) == header_name_of(s@),
{
    match <reqwest::header::HeaderName as std::str::FromStr>::from_str(s) {
        Ok(n) => Some(n.as_str().to_owned()),
        Err(_) => None,
    }
}

/// Relies on `url::Url::parse` (re-exported by reqwest) and its
/// serialisation: the outcome depends on the text alone. The message of a
/// refusal is the parser's own.
#[verifier::external_body]
pub(crate) fn parse_url(s: &str) -> (r: Result<String, String>)
    ensures
        r is Ok <==> url_of(s@) is Some,
        r is Ok ==> url_of(s@) == Some(r->Ok_0@),
{
    match reqwest::Url::parse(s) {
        Ok(u) => Ok(u.as_str().to_owned()),
        Err(e) => Err(e.to_string()),
    }
}

} // verus!
