//! What holds of every registry, whatever codecs it holds.

use crate::error::{DecodeError, EncodeError, RegistryError};
use crate::message_registry::{
    decode_outcome, decode_reply, decodes, encode_outcome, encode_reply, encodes,
    is_unknown_type, register_all, schema_outcome, Bindings, MessageFactory,
};
use vstd::prelude::*;

verus! {

/// `name` is the name of one of `entries`.
pub open spec fn names_entry<F>(entries: Seq<(String, F)>, name: Seq<char>) -> bool {
    exists|i: int| 0 <= i < entries.len() && (#[trigger] entries[i]).0@ == name
}

/// Registering entries binds their names and no others: a name is bound
/// afterwards exactly if it was bound before or is the name of an entry.
pub proof fn law_registered_names<F: MessageFactory>(
    bindings: Bindings<F>,
    entries: Seq<(String, F)>,
    name: Seq<char>,
)
    ensures
        register_all(bindings, entries).contains_key(name) <==> bindings.contains_key(name)
            || names_entry(entries, name),
    decreases entries.len(),
{
    if entries.len() > 0 {
        let front = entries.drop_last();
        law_registered_names(bindings, front, name);
        if names_entry(front, name) {
            let i = choose|i: int| 0 <= i < front.len() && (#[trigger] front[i]).0@ == name;
            assert(entries[i].0@ == name);
        }
        if names_entry(entries, name) && entries.last().0@ != name {
            let i = choose|i: int| 0 <= i < entries.len() && (#[trigger] entries[i]).0@ == name;
            assert(front[i].0@ == name);
        }
        if entries.last().0@ == name {
            assert(entries[entries.len() - 1].0@ == name);
        }
    }
}

/// A name that was never registered is an unknown type: in a registry
/// filled from nothing, decoding and encoding by a name that no entry
/// carries both fail with that name, whatever the bytes and the text.
pub proof fn law_unregistered_is_unknown<F: MessageFactory>(
    entries: Seq<(String, F)>,
    name: Seq<char>,
    bytes: &[u8],
    json: &str,
    decoded: Result<String, RegistryError>,
    encoded: Result<Vec<u8>, RegistryError>,
)
    requires
        !names_entry(entries, name),
        decode_outcome(register_all(Map::empty(), entries), name, bytes, decoded),
        encode_outcome(register_all(Map::empty(), entries), name, json, encoded),
    ensures
        is_unknown_type(decoded, name),
        is_unknown_type(encoded, name),
{
    law_registered_names(Map::<Seq<char>, F>::empty(), entries, name);
}

/// The last registration wins: registering `first` and then `second` under
/// one name leaves the bindings that registering `second` alone leaves, and
/// decoding and encoding by that name are answered by `second`.
pub proof fn law_last_registration_wins<F: MessageFactory>(
    bindings: Bindings<F>,
    name: Seq<char>,
    first: F,
    second: F,
    bytes: &[u8],
    json: &str,
    decoded: Result<String, RegistryError>,
    encoded: Result<Vec<u8>, RegistryError>,
)
    ensures
        bindings.insert(name, first).insert(name, second) == bindings.insert(name, second),
        decode_outcome(bindings.insert(name, first).insert(name, second), name, bytes, decoded)
            <==> exists|outcome: Result<String, DecodeError>| #[trigger]
            decodes(&second, bytes, outcome) && decoded == decode_reply(outcome),
        encode_outcome(bindings.insert(name, first).insert(name, second), name, json, encoded)
            <==> exists|outcome: Result<Vec<u8>, EncodeError>| #[trigger]
            encodes(&second, json, outcome) && encoded == encode_reply(outcome),
{
    let twice = bindings.insert(name, first).insert(name, second);
    assert(twice =~= bindings.insert(name, second));
    assert(twice.contains_key(name) && twice[name] == second);
}

/// Registering under one name changes nothing under another: what decoding
/// and encoding by `other` may answer is the same before and after.
pub proof fn law_other_names_untouched<F: MessageFactory>(
    bindings: Bindings<F>,
    name: Seq<char>,
    factory: F,
    other: Seq<char>,
    bytes: &[u8],
    json: &str,
    decoded: Result<String, RegistryError>,
    encoded: Result<Vec<u8>, RegistryError>,
    schema: Option<String>,
)
    requires
        other != name,
    ensures
        decode_outcome(bindings.insert(name, factory), other, bytes, decoded) <==> decode_outcome(
            bindings,
            other,
            bytes,
            decoded,
        ),
        encode_outcome(bindings.insert(name, factory), other, json, encoded) <==> encode_outcome(
            bindings,
            other,
            json,
            encoded,
        ),
        schema_outcome(bindings.insert(name, factory), other, schema) <==> schema_outcome(
            bindings,
            other,
            schema,
        ),
{
    let after = bindings.insert(name, factory);
    assert(after.contains_key(other) <==> bindings.contains_key(other));
    assert(bindings.contains_key(other) ==> after[other] == bindings[other]);
}

/// The names listed are the names registered: a list that holds the bound
/// names of a registry filled from nothing holds the name of every entry
/// and no other name.
pub proof fn law_listed_are_registered<F: MessageFactory>(
    entries: Seq<(String, F)>,
    listed: Seq<Seq<char>>,
    name: Seq<char>,
)
    requires
        listed.to_set() == register_all(Map::empty(), entries).dom(),
    ensures
        listed.contains(name) <==> names_entry(entries, name),
{
    law_registered_names(Map::<Seq<char>, F>::empty(), entries, name);
    assert(listed.to_set().contains(name) <==> listed.contains(name));
}

/// A schema description is absent exactly for an unknown name.
pub proof fn law_schema_absent_iff_unknown<F: MessageFactory>(
    bindings: Bindings<F>,
    name: Seq<char>,
    schema: Option<String>,
)
    requires
        schema_outcome(bindings, name, schema),
    ensures
        schema is None <==> !bindings.contains_key(name),
{
}

/// The registry adds nothing to a round trip: where encoding a text by name
/// gives bytes and decoding those bytes by the same name gives a text, the
/// codec bound to the name gave those bytes for the first text and that
/// text for the bytes.
pub proof fn law_round_trip_is_the_codecs<F: MessageFactory>(
    bindings: Bindings<F>,
    name: Seq<char>,
    json: &str,
    wire: Vec<u8>,
    bytes: &[u8],
    text: String,
)
    requires
        encode_outcome(bindings, name, json, Ok(wire)),
        decode_outcome(bindings, name, bytes, Ok(text)),
    ensures
        bindings.contains_key(name),
        encodes(&bindings[name], json, Ok(wire)),
        decodes(&bindings[name], bytes, Ok(text)),
{
    let outcome = choose|outcome: Result<Vec<u8>, EncodeError>| #[trigger]
        encodes(&bindings[name], json, outcome) && Ok::<Vec<u8>, RegistryError>(wire)
            == encode_reply(outcome);
    assert(outcome == Ok::<Vec<u8>, EncodeError>(wire));
    let outcome = choose|outcome: Result<String, DecodeError>| #[trigger]
        decodes(&bindings[name], bytes, outcome) && Ok::<String, RegistryError>(text)
            == decode_reply(outcome);
    assert(outcome == Ok::<String, DecodeError>(text));
}

} // verus!
