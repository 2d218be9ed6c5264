//! The codec capability and the name-keyed registry of codecs.

use crate::error::{DecodeError, EncodeError, RegistryError};
use vstd::hash_map::StringHashMap;
use vstd::prelude::*;

verus! {

/// The codec of exactly one message schema: bytes to text, text to bytes,
/// and a description of the schema's layout.
///
/// What an implementation answers is its own affair. The registry promises
/// which codec it asks, what it hands to it, and how it passes the answer on.
pub trait MessageFactory: Send + Sync {
    /// The canonical text of the value that `bytes` encodes.
    fn decode(&self, bytes: &[u8]) -> (r: Result<String, DecodeError>);

    /// The wire bytes of the value that `json` describes.
    fn encode(&self, json: &str) -> (r: Result<Vec<u8>, EncodeError>);

    /// A description of the schema's field layout.
    fn get_schema(&self) -> (r: String);
}

/// `outcome` is an answer of `factory` to decoding `bytes`.
pub open spec fn decodes<F: MessageFactory + ?Sized>(
    factory: &F,
    bytes: &[u8],
    outcome: Result<String, DecodeError>,
) -> bool {
    call_ensures(F::decode, (factory, bytes), outcome)
}

/// `outcome` is an answer of `factory` to encoding `json`.
pub open spec fn encodes<F: MessageFactory + ?Sized>(
    factory: &F,
    json: &str,
    outcome: Result<Vec<u8>, EncodeError>,
) -> bool {
    call_ensures(F::encode, (factory, json), outcome)
}

/// `text` is an answer of `factory` when asked for its schema.
pub open spec fn describes<F: MessageFactory + ?Sized>(factory: &F, text: String) -> bool {
    call_ensures(F::get_schema, (factory,), text)
}

/// A boxed codec answers as the codec it holds. With it a registry can hold
/// codecs of different schemas behind one type, `Box<dyn MessageFactory>`.
impl<T: MessageFactory + ?Sized> MessageFactory for Box<T> {
    fn decode(&self, bytes: &[u8]) -> (r: Result<String, DecodeError>)
        ensures
            decodes::<T>(&**self, bytes, r),
    {
        (**self).decode(bytes)
    }

    fn encode(&self, json: &str) -> (r: Result<Vec<u8>, EncodeError>)
        ensures
            encodes::<T>(&**self, json, r),
    {
        (**self).encode(json)
    }

    fn get_schema(&self) -> (r: String)
        ensures
            describes::<T>(&**self, r),
    {
        (**self).get_schema()
    }
}

/// Model of a registry: each bound type name with the codec bound to it.
pub type Bindings<F> = Map<Seq<char>, F>;

/// How the registry passes on a codec's answer to decoding: text unchanged,
/// a failure unchanged as the registry's decode failure.
pub open spec fn decode_reply(outcome: Result<String, DecodeError>) -> Result<String, RegistryError> {
    match outcome {
        Ok(text) => Ok(text),
        Err(e) => Err(RegistryError::Decode(e)),
    }
}

/// How the registry passes on a codec's answer to encoding: bytes unchanged,
/// a failure unchanged as the registry's encode failure.
pub open spec fn encode_reply(outcome: Result<Vec<u8>, EncodeError>) -> Result<
    Vec<u8>,
    RegistryError,
> {
    match outcome {
        Ok(bytes) => Ok(bytes),
        Err(e) => Err(RegistryError::Encode(e)),
    }
}

/// `r` is the failure for the unbound name `name`.
pub open spec fn is_unknown_type<T>(r: Result<T, RegistryError>, name: Seq<char>) -> bool {
    r matches Err(RegistryError::UnknownType(n)) && n@ == name
}

/// Decoding by name. An unbound name is an unknown type, whatever the bytes.
/// A bound name is answered by the codec bound to it, asked with `bytes`,
/// and by no other.
pub open spec fn decode_outcome<F: MessageFactory>(
    bindings: Bindings<F>,
    name: Seq<char>,
    bytes: &[u8],
    r: Result<String, RegistryError>,
) -> bool {
    if bindings.contains_key(name) {
        exists|outcome: Result<String, DecodeError>| #[trigger]
            decodes(&bindings[name], bytes, outcome) && r == decode_reply(outcome)
    } else {
        is_unknown_type(r, name)
    }
}

/// Encoding by name. An unbound name is an unknown type, whatever the text.
/// A bound name is answered by the codec bound to it, asked with `json`,
/// and by no other.
pub open spec fn encode_outcome<F: MessageFactory>(
    bindings: Bindings<F>,
    name: Seq<char>,
    json: &str,
    r: Result<Vec<u8>, RegistryError>,
) -> bool {
    if bindings.contains_key(name) {
        exists|outcome: Result<Vec<u8>, EncodeError>| #[trigger]
            encodes(&bindings[name], json, outcome) && r == encode_reply(outcome)
    } else {
        is_unknown_type(r, name)
    }
}

/// Describing by name: absent exactly for an unbound name, else the answer of
/// the codec bound to it.
pub open spec fn schema_outcome<F: MessageFactory>(
    bindings: Bindings<F>,
    name: Seq<char>,
    r: Option<String>,
) -> bool {
    match r {
        Some(text) => bindings.contains_key(name) && describes(&bindings[name], text),
        None => !bindings.contains_key(name),
    }
}

/// Passes on what a codec's `decode` returned.
pub fn relay_decoded(outcome: Result<String, DecodeError>) -> (r: Result<String, RegistryError>)
    ensures
        r == decode_reply(outcome),
{
    match outcome {
        Ok(text) => Ok(text),
        Err(e) => Err(RegistryError::Decode(e)),
    }
}

/// Passes on what a codec's `encode` returned.
pub fn relay_encoded(outcome: Result<Vec<u8>, EncodeError>) -> (r: Result<Vec<u8>, RegistryError>)
    ensures
        r == encode_reply(outcome),
{
    match outcome {
        Ok(bytes) => Ok(bytes),
        Err(e) => Err(RegistryError::Encode(e)),
    }
}

/// A name that is not yet listed can be appended: the list stays free of
/// repetitions and gains exactly that name.
proof fn lemma_push_fresh(names: Seq<Seq<char>>, name: Seq<char>)
    requires
        names.no_duplicates(),
        !names.to_set().contains(name),
    ensures
        names.push(name).no_duplicates(),
        names.push(name).to_set() == names.to_set().insert(name),
{
    names.lemma_push_to_set_commute(name);
    assert forall|i: int| 0 <= i < names.len() implies names[i] != name by {
        assert(names.to_set().contains(names[i]));
    }
}

/// A collection of codecs keyed by type name. Names are case-sensitive and
/// unordered; at most one codec is bound to a name.
///
/// `F` is the type of the codecs held. The default, `Box<dyn MessageFactory>`,
/// holds codecs of any schemas side by side.
#[verifier::reject_recursive_types(F)]
pub struct MessageRegistry<F: MessageFactory = Box<dyn MessageFactory>> {
    factories: StringHashMap<F>,
    names: Vec<String>,
}

impl<F: MessageFactory> View for MessageRegistry<F> {
    type V = Bindings<F>;

    closed spec fn view(&self) -> Bindings<F> {
        self.factories@
    }
}

impl<F: MessageFactory> MessageRegistry<F> {
    /// The list of names holds each bound name once and nothing else.
    pub closed spec fn wf(&self) -> bool {
        &&& self.names.deep_view().no_duplicates()
        &&& self.names.deep_view().to_set() == self.factories@.dom()
    }

    /// The empty registry.
    pub fn new() -> (registry: Self)
        ensures
            registry.wf(),
            registry@ == Map::<Seq<char>, F>::empty(),
    {
        let registry = MessageRegistry { factories: StringHashMap::new(), names: Vec::new() };
        assert(registry.names.deep_view() =~= Seq::<Seq<char>>::empty());
        assert(registry.names.deep_view().to_set() =~= registry.factories@.dom());
        registry
    }

    /// Binds `factory` to `name`. A codec bound to `name` before is replaced;
    /// every other binding stays.
    pub fn register(&mut self, name: &str, factory: F)
        requires
            old(self).wf(),
        ensures
            final(self).wf(),
            final(self)@ == old(self)@.insert(name@, factory),
    {
        if !self.factories.contains_key(name) {
            let ghost before = self.names.deep_view();
            self.names.push(name.to_owned());
            proof {
                assert(self.names.deep_view() =~= before.push(name@));
                lemma_push_fresh(before, name@);
            }
        } else {
            assert(self.factories@.dom().insert(name@) =~= self.factories@.dom());
        }
        self.factories.insert(name.to_owned(), factory);
    }

    /// The codec bound to `msg_type`, if any.
    pub fn lookup(&self, msg_type: &str) -> (r: Option<&F>)
        ensures
            match r {
                Some(factory) => self@.contains_key(msg_type@) && *factory == self@[msg_type@],
                None => !self@.contains_key(msg_type@),
            },
    {
        self.factories.get(msg_type)
    }

    /// Decodes `bytes` with the codec bound to `msg_type`.
    pub fn decode(&self, msg_type: &str, bytes: &[u8]) -> (r: Result<String, RegistryError>)
        ensures
            decode_outcome(self@, msg_type@, bytes, r),
    {
        match self.lookup(msg_type) {
            Some(factory) => {
                let outcome = factory.decode(bytes);
                assert(decodes(&self@[msg_type@], bytes, outcome));
                relay_decoded(outcome)
            },
            None => Err(RegistryError::unknown_type(msg_type)),
        }
    }

    /// Encodes `json` with the codec bound to `msg_type`.
    pub fn encode(&self, msg_type: &str, json: &str) -> (r: Result<Vec<u8>, RegistryError>)
        ensures
            encode_outcome(self@, msg_type@, json, r),
    {
        match self.lookup(msg_type) {
            Some(factory) => {
                let outcome = factory.encode(json);
                assert(encodes(&self@[msg_type@], json, outcome));
                relay_encoded(outcome)
            },
            None => Err(RegistryError::unknown_type(msg_type)),
        }
    }

    /// Every bound name, each once, in no particular order.
    pub fn list_types(&self) -> (names: Vec<String>)
        requires
            self.wf(),
        ensures
            names.deep_view().no_duplicates(),
            names.deep_view().to_set() == self@.dom(),
    {
        let mut names: Vec<String> = Vec::new();
        let mut i: usize = 0;
        while i < self.names.len()
            invariant
                i <= self.names.len(),
                names.len() == i,
                forall|j: int| 0 <= j < i ==> names@[j]@ == self.names@[j]@,
            decreases self.names.len() - i,
        {
            names.push(self.names[i].clone());
            i += 1;
        }
        assert(names.deep_view() =~= self.names.deep_view());
        names
    }

    /// The schema description of the codec bound to `msg_type`, if any.
    pub fn get_schema(&self, msg_type: &str) -> (r: Option<String>)
        ensures
            schema_outcome(self@, msg_type@, r),
    {
        match self.lookup(msg_type) {
            Some(factory) => Some(factory.get_schema()),
            None => None,
        }
    }
}

/// The bindings after registering `entries` in order, starting from
/// `bindings`: each entry binds its name, a later entry replacing an earlier
/// one of the same name.
pub open spec fn register_all<F: MessageFactory>(
    bindings: Bindings<F>,
    entries: Seq<(String, F)>,
) -> Bindings<F>
    decreases entries.len(),
{
    if entries.len() == 0 {
        bindings
    } else {
        register_all(bindings, entries.drop_last()).insert(entries.last().0@, entries.last().1)
    }
}

/// The registration step: a registry that holds one codec for each of the
/// known schemas, bound to the schema's canonical name.
pub fn create_message_registry<F: MessageFactory>(schemas: Vec<(String, F)>) -> (registry:
    MessageRegistry<F>)
    ensures
        registry.wf(),
        registry@ == register_all(Map::empty(), schemas@),
{
    let mut registry = MessageRegistry::new();
    for entry in it: schemas.into_iter()
        invariant
            it.seq() == schemas@,
            registry.wf(),
            registry@ == register_all(Map::empty(), schemas@.take(it.index() as int)),
    {
        let ghost done = it.index() as int;
        assert(entry == schemas@[done]);
        let (name, factory) = entry;
        registry.register(name.as_str(), factory);
        proof {
            let next = schemas@.take(done + 1);
            assert(next.drop_last() =~= schemas@.take(done));
            assert(next.last() == schemas@[done]);
        }
    }
    assert(schemas@.take(schemas@.len() as int) =~= schemas@);
    registry
}

} // verus!
