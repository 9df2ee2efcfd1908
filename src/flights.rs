use vstd::prelude::*;

use vstd::utf8::{decode_utf8, valid_utf8};

verus! {

/// A result payload exchanged between nodes: an opaque body of bytes.
#[derive(Clone, Debug, PartialEq, Eq)]
pub struct FlightResult {
    pub body: Vec<u8>,
}

/// The debug rendering of a byte list.
pub uninterp spec fn debug_text(bytes: Seq<u8>) -> Seq<char>;

/// Relies on std::str::from_utf8: it succeeds exactly on valid UTF-8, and then the
/// text is what the bytes encode.
#[verifier::external_body]
fn utf8_text(bytes: &[u8]) -> (r: Option<String>)
    ensures
        r is Some <==> valid_utf8(bytes@),
        r is Some ==> r->0@ == decode_utf8(bytes@),
{
    match std::str::from_utf8(bytes) {
        Ok(s) => Some(s.to_string()),
        Err(_) => None,
    }
}

/// Relies on the `Debug` formatting of a byte slice: the text depends on the bytes alone.
#[verifier::external_body]
fn debug_bytes(bytes: &[u8]) -> (r: String)
    ensures
        r@ == debug_text(bytes@),
{
    format!("{:?}", bytes)
}

/// The payload's body as text when it is valid UTF-8, else its debug rendering.
pub fn flight_result_to_str(r: &FlightResult) -> (s: String)
    ensures
        valid_utf8(r.body@) ==> s@ == decode_utf8(r.body@),
        !valid_utf8(r.body@) ==> s@ == debug_text(r.body@),
{
    match utf8_text(r.body.as_slice()) {
        Some(text) => text,
        None => debug_bytes(r.body.as_slice()),
    }
}

} // verus!
