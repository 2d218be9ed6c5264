//! Failure kinds of the codec registry.
//!
//! Every operation of the registry is a single attempt that either succeeds
//! or reports one of three recoverable failures: the type name is not bound,
//! the bytes are not a valid encoding of the schema, or the text does not
//! describe a value of the schema.

use vstd::prelude::*;
use vstd::string::StringExecFns;

verus! {

/// Bytes that are not a valid wire encoding of the schema they were declared
/// to belong to. `reason` is the human-readable cause.
#[derive(Debug, PartialEq, Eq)]
pub struct DecodeError {
    pub reason: String,
}

/// Text that is not the canonical textual form of a value of the schema it
/// was declared to belong to. `reason` is the human-readable cause.
#[derive(Debug, PartialEq, Eq)]
pub struct EncodeError {
    pub reason: String,
}

/// Failure of a name-driven registry operation.
#[derive(Debug, PartialEq, Eq)]
pub enum RegistryError {
    /// No codec is bound to the given type name.
    UnknownType(String),
    /// The bound codec rejected the bytes.
    Decode(DecodeError),
    /// The bound codec rejected the text.
    Encode(EncodeError),
}

/// Mathematical model of a [`RegistryError`]: the failure kind together
/// with the type name or the cause it carries.
pub enum Fault {
    UnknownType(Seq<char>),
    Decode(Seq<char>),
    Encode(Seq<char>),
}

impl View for DecodeError {
    type V = Seq<char>;

    open spec fn view(&self) -> Seq<char> {
        self.reason@
    }
}

impl View for EncodeError {
    type V = Seq<char>;

    open spec fn view(&self) -> Seq<char> {
        self.reason@
    }
}

impl View for RegistryError {
    type V = Fault;

    open spec fn view(&self) -> Fault {
        match self {
            RegistryError::UnknownType(name) => Fault::UnknownType(name@),
            RegistryError::Decode(e) => Fault::Decode(e@),
            RegistryError::Encode(e) => Fault::Encode(e@),
        }
    }
}

/// Prefix of the message reported for an unbound type name.
pub open spec fn unknown_type_prefix() -> Seq<char> {
    "Unknown message type: "@
}

/// The message a failure is reported with: unbound names are spelled out
/// after a fixed prefix, codec failures report their cause unchanged.
pub open spec fn fault_message(fault: Fault) -> Seq<char> {
    match fault {
        Fault::UnknownType(name) => unknown_type_prefix() + name,
        Fault::Decode(reason) => reason,
        Fault::Encode(reason) => reason,
    }
}

impl DecodeError {
    pub fn new(reason: String) -> (e: DecodeError)
        ensures
            e@ == reason@,
    {
        DecodeError { reason }
    }

    /// The cause, as text.
    pub fn message(&self) -> (text: String)
        ensures
            text@ == self@,
    {
        self.reason.clone()
    }
}

impl EncodeError {
    pub fn new(reason: String) -> (e: EncodeError)
        ensures
            e@ == reason@,
    {
        EncodeError { reason }
    }

    /// The cause, as text.
    pub fn message(&self) -> (text: String)
        ensures
            text@ == self@,
    {
        self.reason.clone()
    }
}

impl RegistryError {
    /// The failure for a name that no codec is bound to.
    pub fn unknown_type(name: &str) -> (e: RegistryError)
        ensures
            e@ == Fault::UnknownType(name@),
    {
        RegistryError::UnknownType(name.to_owned())
    }

    /// The message this failure is reported with.
    pub fn message(&self) -> (text: String)
        ensures
            text@ == fault_message(self@),
    {
        match self {
            RegistryError::UnknownType(name) => {
                String::from_str("Unknown message type: ").concat(name.as_str())
            },
            RegistryError::Decode(e) => e.message(),
            RegistryError::Encode(e) => e.message(),
        }
    }
}

} // verus!
