//! What the bus-facing commands compute: the text shown for a payload that
//! was received, the payload sent for a value that was given, when a run of
//! publications is over, and the schema shown for a type name. Talking to
//! the bus and to the console is the caller's part.

use crate::error::{fault_message, Fault, RegistryError};
use crate::message_registry::{
    decode_outcome, encode_outcome, schema_outcome, MessageFactory, MessageRegistry,
};
use vstd::prelude::*;
use vstd::string::{StrSliceExecFns, StringExecFns, StringSliceAdditionalSpecFns};
use vstd::utf8::{decode_utf8, valid_utf8};

verus! {

/// The text that `String::from_utf8_lossy` makes of a byte buffer.
pub uninterp spec fn utf8_lossy(bytes: Seq<u8>) -> Seq<char>;

/// `String::from_utf8_lossy`: the bytes as text, each invalid sequence
/// replaced by U+FFFD. Valid UTF-8 comes back as the text it encodes.
#[verifier::external_body]
fn lossy_text(bytes: &[u8]) -> (text: String)
    ensures
        text@ == utf8_lossy(bytes@),
        valid_utf8(bytes@) ==> text@ == decode_utf8(bytes@),
{
    String::from_utf8_lossy(bytes).into_owned()
}

/// What introduces the complaint shown in place of a payload that could not
/// be decoded.
pub open spec fn complaint_prefix() -> Seq<char> {
    "Error decoding message: "@
}

/// The text shown for the answer to decoding a payload: the decoded text,
/// or a complaint that ends in the failure's message.
pub open spec fn shown(answer: Result<String, RegistryError>) -> Seq<char> {
    match answer {
        Ok(text) => text@,
        Err(e) => complaint_prefix() + fault_message(e@),
    }
}

/// The text shown for the answer to decoding a payload.
pub fn show_decoded(answer: Result<String, RegistryError>) -> (text: String)
    ensures
        text@ == shown(answer),
{
    match answer {
        Ok(text) => text,
        Err(e) => {
            let message = e.message();
            String::from_str("Error decoding message: ").concat(message.as_str())
        },
    }
}

/// The text shown for a payload that arrived. With a declared type it is
/// decoded by that name, and a failure is shown as a complaint. Without one
/// the payload is shown as the text its bytes spell, as far as they do.
pub fn echo_text<F: MessageFactory>(
    registry: &MessageRegistry<F>,
    msg_type: Option<&str>,
    payload: &[u8],
) -> (text: String)
    ensures
        match msg_type {
            Some(name) => exists|answer: Result<String, RegistryError>| #[trigger]
                decode_outcome(registry@, name@, payload, answer) && text@ == shown(answer),
            None => text@ == utf8_lossy(payload@) && (valid_utf8(payload@) ==> text@
                == decode_utf8(payload@)),
        },
{
    match msg_type {
        Some(name) => {
            let answer = registry.decode(name, payload);
            assert(decode_outcome(registry@, name@, payload, answer));
            show_decoded(answer)
        },
        None => lossy_text(payload),
    }
}

/// The payload sent for a value. With a declared type the value is encoded
/// by that name, and a failure ends the command. Without one the payload is
/// the value's own bytes.
pub fn pub_payload<F: MessageFactory>(
    registry: &MessageRegistry<F>,
    msg_type: Option<&str>,
    value: &str,
) -> (r: Result<Vec<u8>, RegistryError>)
    ensures
        match msg_type {
            Some(name) => encode_outcome(registry@, name@, value, r),
            None => r matches Ok(bytes) && bytes@ == value.spec_bytes(),
        },
{
    match msg_type {
        Some(name) => registry.encode(name, value),
        None => Ok(value.as_bytes_vec()),
    }
}

/// One more publication has gone out after `sent` of them: the new count,
/// and whether the run is over. A run of `repeat` publications is over with
/// the last of them; a run with `repeat` 0 is never over.
pub fn after_publish(repeat: u64, sent: u64) -> (r: (u64, bool))
    requires
        sent < u64::MAX,
    ensures
        r.0 == sent + 1,
        r.1 <==> repeat > 0 && sent + 1 >= repeat,
{
    let count: u64 = sent + 1;
    (count, repeat > 0 && count >= repeat)
}

/// The schema shown for a type name: the description that the codec bound
/// to `name` gives, or the failure for an unbound name.
pub fn type_schema<F: MessageFactory>(registry: &MessageRegistry<F>, name: &str) -> (r: Result<
    String,
    RegistryError,
>)
    ensures
        match r {
            Ok(text) => schema_outcome(registry@, name@, Some(text)),
            Err(e) => !registry@.contains_key(name@) && e@ == Fault::UnknownType(name@),
        },
{
    match registry.get_schema(name) {
        Some(schema) => Ok(schema),
        None => Err(RegistryError::unknown_type(name)),
    }
}

} // verus!
