//! What this library takes for a well-formed endpoint address.

use vstd::prelude::*;

verus! {

/// A digit of ASCII.
pub open spec fn is_digit(c: char) -> bool {
    '0' <= c && c <= '9'
}

/// A letter or a digit of ASCII.
pub open spec fn is_alphanumeric(c: char) -> bool {
    ('a' <= c && c <= 'z') || ('A' <= c && c <= 'Z') || is_digit(c)
}

/// A character of a host name.
pub open spec fn is_host_char(c: char) -> bool {
    is_alphanumeric(c) || c == '-' || c == '.'
}

/// A character that stands for itself in a URL.
pub open spec fn is_unreserved(c: char) -> bool {
    is_host_char(c) || c == '_' || c == '~'
}

/// A character that delimits the parts of a URL, or opens an escape in it.
pub open spec fn is_delimiter(c: char) -> bool {
    c == ':' || c == '/' || c == '?' || c == '#' || c == '[' || c == ']' || c == '@' || c == '!'
        || c == '$' || c == '&' || c == '\'' || c == '(' || c == ')' || c == '*' || c == '+'
        || c == ',' || c == ';' || c == '=' || c == '%'
}

/// A character that may stand in a URL.
pub open spec fn is_url_char(c: char) -> bool {
    is_unreserved(c) || is_delimiter(c)
}

/// Whether `s` begins with `prefix`.
pub open spec fn starts_with(s: Seq<char>, prefix: Seq<char>) -> bool {
    prefix.len() <= s.len() && forall|i: int| 0 <= i < prefix.len() ==> s[i] == prefix[i]
}

/// The length of the scheme and its separator at the start of `url`, if
/// it starts with `https://` or `http://`.
pub open spec fn scheme_len(url: Seq<char>) -> Option<int> {
    if starts_with(url, "https://"@) {
        Some(8)
    } else if starts_with(url, "http://"@) {
        Some(7)
    } else {
        None
    }
}

/// Whether the characters of `url` from `from` up to `to` are a host name:
/// at least one, the first a letter or a digit, all of them host characters.
pub open spec fn is_host(url: Seq<char>, from: int, to: int) -> bool {
    &&& 0 <= from < to <= url.len()
    &&& is_alphanumeric(url[from])
    &&& forall|i: int| from <= i < to ==> is_host_char(#[trigger] url[i])
}

/// Whether the characters of `url` from `from` up to `to` are a port, if
/// there are any: a colon and at least one digit.
pub open spec fn is_port(url: Seq<char>, from: int, to: int) -> bool {
    from == to || {
        &&& 0 <= from && from + 1 < to <= url.len()
        &&& url[from] == ':'
        &&& forall|i: int| from < i < to ==> is_digit(#[trigger] url[i])
    }
}

/// Whether `url` ends at `from`, or goes on from there with a path, a query
/// or a fragment made of URL characters.
pub open spec fn is_tail(url: Seq<char>, from: int) -> bool {
    from == url.len() || {
        &&& 0 <= from < url.len()
        &&& (url[from] == '/' || url[from] == '?' || url[from] == '#')
        &&& forall|i: int| from <= i < url.len() ==> is_url_char(#[trigger] url[i])
    }
}

/// Whether `url` is a host from `scheme` up to `host_end`, a port up to
/// `port_end`, and a path, query or fragment from there.
pub open spec fn splits_at(url: Seq<char>, scheme: int, host_end: int, port_end: int) -> bool {
    is_host(url, scheme, host_end) && is_port(url, host_end, port_end) && is_tail(url, port_end)
}

/// Whether what follows the first `scheme` characters of `url` is a host
/// name, a port if any, and then nothing, or a path, query or fragment.
pub open spec fn has_split(url: Seq<char>, scheme: int) -> bool {
    exists|host_end: int, port_end: int| splits_at(url, scheme, host_end, port_end)
}

/// An absolute HTTP or HTTPS address: the scheme, a host name, a port if
/// any, and then nothing, or a path, query or fragment of URL characters.
/// The class is this library's own and a narrow one: it leaves out
/// addresses that a URL parser takes (a host in brackets, a user name), and
/// a parser may still refuse a member for what it holds (a port out of range).
pub open spec fn is_well_formed_url(url: Seq<char>) -> bool {
    match scheme_len(url) {
        Some(n) => has_split(url, n),
        None => false,
    }
}

} // verus!
