use vstd::prelude::*;

verus! {

/// A single HTTP header as the core composes it: a name and a value, both
/// plain strings.  The transport shell encodes them on the wire unchanged.
#[derive(Debug)]
pub struct Header {
    pub name: String,
    pub value: String,
}

/// Whether one character may appear in an HTTP header value.
///
/// The wire rule is over bytes: a byte is accepted iff it is horizontal tab,
/// or at least 32 and not 127.  Over characters that means: horizontal tab,
/// every ASCII character from space upward except DEL, and every character
/// outside ASCII (all of whose UTF-8 bytes are at least 0x80).
pub open spec fn valid_header_char(c: char) -> bool {
    (c as u32) >= 128 || c == '\t' || ((c as u32) >= 32 && (c as u32) != 127)
}

/// Whether a string may be carried as an HTTP header value.
pub open spec fn header_value_ok(s: Seq<char>) -> bool {
    forall|i: int| 0 <= i < s.len() ==> valid_header_char(s[i])
}

/// Every value in a composed header list can be carried on the wire.
pub open spec fn header_values_ok(hs: Seq<Header>) -> bool {
    forall|i: int| 0 <= i < hs.len() ==> header_value_ok(hs[i].value@)
}

/// Relies on `reqwest::header::HeaderValue::from_str` (http's `HeaderValue`):
/// it accepts a string iff every byte of it is horizontal tab, or at least 32
/// and not 127.  Over the string's characters that is `header_value_ok`: an
/// ASCII character is its own single byte, and a character outside ASCII
/// encodes to bytes that are all at least 0x80, hence always accepted.
#[verifier::external_body]
pub(crate) fn check_header_value(s: &str) -> (r: bool)
    ensures
        r == header_value_ok(s@),
{
    reqwest::header::HeaderValue::from_str(s).is_ok()
}

/// Builds one header from a literal name and an owned value.
pub(crate) fn make_header(name: &str, value: String) -> (h: Header)
    ensures
        h.name@ == name@,
        h.value@ == value@,
{
    Header { name: name.to_owned(), value }
}

} // verus!
