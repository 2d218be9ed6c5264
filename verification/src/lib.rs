//! A typed codec registry: message schemas are registered once under their
//! dotted type names and then decoded and encoded generically by name.

pub mod codec;
pub mod commands;
pub mod error;
pub mod laws;
pub mod message_registry;

pub use error::{DecodeError, EncodeError, Fault, RegistryError};
pub use message_registry::{create_message_registry, MessageFactory, MessageRegistry};
