//! Value codec: text crossing the boundary, in both directions.
//!
//! On the boundary a text value is a sequence of bytes. Inside the bridge it is
//! a `String`. The codec is the only place where one becomes the other.

use vstd::prelude::*;
use vstd::string::*;
use vstd::utf8::*;

verus! {

/// A boundary value that cannot be read as text.
#[derive(Debug, Clone, Copy, PartialEq, Eq)]
pub struct DecodeError;

/// The recipient named by the boundary value `raw`: the text it encodes, or
/// the placeholder where it encodes none.
pub open spec fn recipient_of(raw: Seq<u8>) -> Seq<char> {
    if valid_utf8(raw) {
        decode_utf8(raw)
    } else {
        "there"@
    }
}

/// `core::str::from_utf8`: the bytes are accepted exactly when they are
/// well-formed UTF-8, and the string slice handed back consists of those same
/// bytes.
#[verifier::external_body]
fn utf8_str(raw: &[u8]) -> (text: Option<&str>)
    ensures
        text is Some <==> valid_utf8(raw@),
        text matches Some(s) ==> s.spec_bytes() == raw@,
{
    match core::str::from_utf8(raw) {
        Ok(s) => Some(s),
        Err(_) => None,
    }
}

/// Encoding distributes over concatenation.
pub proof fn lemma_encode_utf8_concat(a: Seq<char>, b: Seq<char>)
    ensures
        encode_utf8(a + b) == encode_utf8(a) + encode_utf8(b),
    decreases a.len(),
{
    if a.len() == 0 {
        assert(a + b =~= b);
        assert(encode_utf8(a) + encode_utf8(b) =~= encode_utf8(b));
    } else {
        lemma_encode_utf8_concat(a.drop_first(), b);
        assert((a + b).drop_first() =~= a.drop_first() + b);
        assert((a + b)[0] == a[0]);
        assert(encode_utf8(a + b) =~= encode_utf8(a) + encode_utf8(b));
    }
}

/// Reads a boundary value as text, strictly: malformed input is an error.
pub fn decode_text_strict(raw: &[u8]) -> (text: Result<String, DecodeError>)
    ensures
        match text {
            Ok(s) => valid_utf8(raw@) && s@ == decode_utf8(raw@),
            Err(_) => !valid_utf8(raw@),
        },
{
    match utf8_str(raw) {
        Some(s) => {
            proof {
                encode_utf8_decode_utf8(s@);
            }
            Ok(s.to_owned())
        },
        None => Err(DecodeError),
    }
}

/// Reads a boundary value as the recipient of a greeting: malformed input is
/// replaced by the placeholder rather than refused.
pub fn decode_text(raw: &[u8]) -> (text: String)
    ensures
        text@ == recipient_of(raw@),
{
    match utf8_str(raw) {
        Some(s) => {
            proof {
                encode_utf8_decode_utf8(s@);
            }
            s.to_owned()
        },
        None => "there".to_owned(),
    }
}

/// Turns text into a boundary value. The text is consumed: the buffer that
/// comes back is the only owner of its bytes.
pub fn encode_text(text: String) -> (raw: Vec<u8>)
    ensures
        raw@ == encode_utf8(text@),
        valid_utf8(raw@),
        decode_utf8(raw@) == text@,
{
    proof {
        encode_utf8_valid_utf8(text@);
        encode_utf8_decode_utf8(text@);
    }
    text.as_str().as_bytes_vec()
}

} // verus!
