//! Error envelope: the one shape in which a failure is reported to the host.
//!
//! A failure travels through the same channel as a success value, as the text
//! of a JSON object with the single field `error`. The quoting of the message
//! is left to `serde_json`; the object around it is written here.

use vstd::prelude::*;
use vstd::string::*;

verus! {

/// The JSON string literal that `serde_json` prints for the text `s`: `s`
/// between double quotes, with the escapes that JSON asks for.
pub uninterp spec fn json_string_text(s: Seq<char>) -> Seq<char>;

/// `serde_json::Value::String(text).to_string()`: the compact JSON form of a
/// string value. What is printed depends on the text alone.
#[verifier::external_body]
fn json_string(text: String) -> (quoted: String)
    ensures
        quoted@ == json_string_text(text@),
{
    serde_json::Value::String(text).to_string()
}

/// The envelope that carries `message`: an object whose only field, `error`,
/// holds the message.
pub open spec fn error_envelope(message: Seq<char>) -> Seq<char> {
    "{\"error\":"@ + json_string_text(message) + "}"@
}

/// Wraps a failure message into its envelope.
pub fn create_error_object(msg: String) -> (envelope: String)
    ensures
        envelope@ == error_envelope(msg@),
{
    let quoted = json_string(msg);
    let mut envelope = "{\"error\":".to_owned();
    envelope.append(quoted.as_str());
    envelope.append("}");
    envelope
}

} // verus!
