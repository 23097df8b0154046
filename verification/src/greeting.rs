//! The greeting: a pure echo of text, with no backend behind it.

use crate::text::{decode_text, encode_text, lemma_encode_utf8_concat, recipient_of};
use vstd::prelude::*;
use vstd::string::*;
use vstd::utf8::*;

verus! {

/// The greeting addressed to `recipient`.
pub open spec fn greeting_for(recipient: Seq<char>) -> Seq<char> {
    "Hello "@ + recipient + " (from Rust!)"@
}

/// True when no byte of `bytes` is zero, so that the bytes can stand before
/// the terminator of a C string.
pub open spec fn nul_free(bytes: Seq<u8>) -> bool {
    forall|i: int| 0 <= i < bytes.len() ==> bytes[i] != 0u8
}

/// The greeting, as bytes, for a recipient handed over without a zero byte
/// holds no zero byte either.
pub proof fn lemma_greeting_nul_free(to: Seq<u8>)
    requires
        nul_free(to),
    ensures
        nul_free(encode_utf8(greeting_for(recipient_of(to)))),
{
    let head = "Hello "@;
    let tail = " (from Rust!)"@;
    let placeholder = "there"@;
    reveal_strlit("Hello ");
    reveal_strlit(" (from Rust!)");
    reveal_strlit("there");
    let name = recipient_of(to);
    lemma_encode_utf8_concat(head + name, tail);
    lemma_encode_utf8_concat(head, name);
    is_ascii_chars_encode_utf8(head);
    is_ascii_chars_encode_utf8(tail);
    is_ascii_chars_encode_utf8(placeholder);
    if valid_utf8(to) {
        decode_utf8_encode_utf8(to);
    }
}

/// Greets the recipient named by the C string content `to`. The bytes that
/// come back are the greeting's text, ready to be handed out as a C string.
pub fn rust_greeting(to: &[u8]) -> (greeting: Vec<u8>)
    ensures
        greeting@ == encode_utf8(greeting_for(recipient_of(to@))),
        valid_utf8(greeting@),
        decode_utf8(greeting@) == greeting_for(recipient_of(to@)),
        nul_free(to@) ==> nul_free(greeting@),
{
    let recipient = decode_text(to);
    let mut text = "Hello ".to_owned();
    text.append(recipient.as_str());
    text.append(" (from Rust!)");
    proof {
        if nul_free(to@) {
            lemma_greeting_nul_free(to@);
        }
    }
    encode_text(text)
}

} // verus!
