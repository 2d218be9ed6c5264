use zspy::message_registry::{create_message_registry, relay_decoded, relay_encoded};
use zspy::{DecodeError, EncodeError, MessageFactory, MessageRegistry, RegistryError};

/// A codec of text lines: the wire form of a line is its bytes behind a
/// marker byte.
struct Tagged {
    marker: u8,
    schema: &'static str,
}

impl MessageFactory for Tagged {
    fn decode(&self, bytes: &[u8]) -> Result<String, DecodeError> {
        match bytes.split_first() {
            Some((first, rest)) if *first == self.marker => match std::str::from_utf8(rest) {
                Ok(text) => Ok(text.to_string()),
                Err(_) => Err(DecodeError::new("not text".to_string())),
            },
            Some(_) => Err(DecodeError::new("wrong marker".to_string())),
            None => Err(DecodeError::new("truncated".to_string())),
        }
    }

    fn encode(&self, json: &str) -> Result<Vec<u8>, EncodeError> {
        if json.contains('\n') {
            return Err(EncodeError::new("more than one line".to_string()));
        }
        let mut bytes = vec![self.marker];
        bytes.extend_from_slice(json.as_bytes());
        Ok(bytes)
    }

    fn get_schema(&self) -> String {
        self.schema.to_string()
    }
}

fn tagged(marker: u8, schema: &'static str) -> Box<dyn MessageFactory> {
    Box::new(Tagged { marker, schema })
}

fn sorted(mut names: Vec<String>) -> Vec<String> {
    names.sort();
    names
}

#[test]
fn new_registry_is_empty() {
    let registry: MessageRegistry = MessageRegistry::new();
    assert_eq!(registry.list_types(), Vec::<String>::new());
    assert_eq!(registry.get_schema("a.A"), None);
    assert!(registry.lookup("a.A").is_none());
}

#[test]
fn unregistered_name_is_unknown_type() {
    let mut registry: MessageRegistry = MessageRegistry::new();
    registry.register("a.A", tagged(1, "A"));
    for name in ["a.B", "a.a", "a.A ", "", "A"] {
        assert_eq!(
            registry.decode(name, &[1, 104, 105]),
            Err(RegistryError::UnknownType(name.to_string()))
        );
        assert_eq!(
            registry.encode(name, "hi"),
            Err(RegistryError::UnknownType(name.to_string()))
        );
        assert_eq!(registry.get_schema(name), None);
    }
}

#[test]
fn unknown_type_regardless_of_bytes() {
    let registry: MessageRegistry = MessageRegistry::new();
    assert_eq!(
        registry.decode("unknown.Type", &[1, 2, 3]),
        Err(RegistryError::UnknownType("unknown.Type".to_string()))
    );
    assert_eq!(
        registry.decode("unknown.Type", &[]),
        Err(RegistryError::UnknownType("unknown.Type".to_string()))
    );
}

#[test]
fn registered_codec_answers() {
    let mut registry: MessageRegistry = MessageRegistry::new();
    registry.register("a.A", tagged(7, "A"));
    assert_eq!(registry.encode("a.A", "hi"), Ok(vec![7, 104, 105]));
    assert_eq!(registry.decode("a.A", &[7, 104, 105]), Ok("hi".to_string()));
    assert_eq!(registry.get_schema("a.A"), Some("A".to_string()));
    assert_eq!(registry.lookup("a.A").unwrap().get_schema(), "A");
}

#[test]
fn codec_failures_pass_unchanged() {
    let mut registry: MessageRegistry = MessageRegistry::new();
    registry.register("a.A", tagged(7, "A"));
    assert_eq!(
        registry.decode("a.A", &[8, 104]),
        Err(RegistryError::Decode(DecodeError::new("wrong marker".to_string())))
    );
    assert_eq!(
        registry.decode("a.A", &[]),
        Err(RegistryError::Decode(DecodeError::new("truncated".to_string())))
    );
    assert_eq!(
        registry.encode("a.A", "a\nb"),
        Err(RegistryError::Encode(EncodeError::new("more than one line".to_string())))
    );
}

#[test]
fn last_registration_wins() {
    let mut registry: MessageRegistry = MessageRegistry::new();
    registry.register("a.A", tagged(1, "first"));
    registry.register("a.B", tagged(9, "other"));
    registry.register("a.A", tagged(2, "second"));
    assert_eq!(registry.encode("a.A", "x"), Ok(vec![2, 120]));
    assert_eq!(registry.decode("a.A", &[2, 120]), Ok("x".to_string()));
    assert_eq!(
        registry.decode("a.A", &[1, 120]),
        Err(RegistryError::Decode(DecodeError::new("wrong marker".to_string())))
    );
    assert_eq!(registry.get_schema("a.A"), Some("second".to_string()));
    assert_eq!(registry.encode("a.B", "x"), Ok(vec![9, 120]));
    assert_eq!(
        sorted(registry.list_types()),
        vec!["a.A".to_string(), "a.B".to_string()]
    );
}

#[test]
fn listed_names_are_the_registered_names() {
    let mut registry: MessageRegistry = MessageRegistry::new();
    registry.register("pkg.C", tagged(3, "C"));
    registry.register("pkg.A", tagged(1, "A"));
    registry.register("pkg.B", tagged(2, "B"));
    let names = registry.list_types();
    assert_eq!(names.len(), 3);
    assert_eq!(
        sorted(names),
        vec!["pkg.A".to_string(), "pkg.B".to_string(), "pkg.C".to_string()]
    );
}

#[test]
fn schema_is_present_exactly_for_known_names() {
    let mut registry: MessageRegistry = MessageRegistry::new();
    registry.register("pkg.A", tagged(1, ""));
    registry.register("pkg.B", tagged(2, "B"));
    assert_eq!(registry.get_schema("pkg.A"), Some(String::new()));
    assert_eq!(registry.get_schema("pkg.B"), Some("B".to_string()));
    assert_eq!(registry.get_schema("pkg.C"), None);
}

#[test]
fn registration_step_registers_in_order() {
    let schemas = vec![
        ("pkg.A".to_string(), tagged(1, "first")),
        ("pkg.B".to_string(), tagged(2, "B")),
        ("pkg.A".to_string(), tagged(3, "last")),
    ];
    let registry = create_message_registry(schemas);
    assert_eq!(
        sorted(registry.list_types()),
        vec!["pkg.A".to_string(), "pkg.B".to_string()]
    );
    assert_eq!(registry.get_schema("pkg.A"), Some("last".to_string()));
    assert_eq!(registry.encode("pkg.A", "x"), Ok(vec![3, 120]));
}

#[test]
fn registration_step_of_nothing_is_the_empty_registry() {
    let registry = create_message_registry(Vec::<(String, Box<dyn MessageFactory>)>::new());
    assert_eq!(registry.list_types(), Vec::<String>::new());
}

#[test]
fn registry_of_one_codec_type() {
    let mut registry: MessageRegistry<Tagged> = MessageRegistry::new();
    registry.register("a.A", Tagged { marker: 5, schema: "A" });
    assert_eq!(registry.encode("a.A", "x"), Ok(vec![5, 120]));
    assert_eq!(
        registry.decode("a.B", &[5, 120]),
        Err(RegistryError::UnknownType("a.B".to_string()))
    );
}

#[test]
fn boxed_codec_answers_as_the_codec() {
    let boxed = tagged(4, "S");
    assert_eq!(MessageFactory::decode(&boxed, &[4, 97]), Ok("a".to_string()));
    assert_eq!(MessageFactory::encode(&boxed, "a"), Ok(vec![4, 97]));
    assert_eq!(MessageFactory::get_schema(&boxed), "S");
}

#[test]
fn relays_keep_what_the_codec_answered() {
    assert_eq!(relay_decoded(Ok("t".to_string())), Ok("t".to_string()));
    assert_eq!(
        relay_decoded(Err(DecodeError::new("why".to_string()))),
        Err(RegistryError::Decode(DecodeError::new("why".to_string())))
    );
    assert_eq!(relay_encoded(Ok(vec![1, 2])), Ok(vec![1, 2]));
    assert_eq!(
        relay_encoded(Err(EncodeError::new("why".to_string()))),
        Err(RegistryError::Encode(EncodeError::new("why".to_string())))
    );
}

#[test]
fn failures_report_their_message() {
    assert_eq!(
        RegistryError::unknown_type("unknown.Type"),
        RegistryError::UnknownType("unknown.Type".to_string())
    );
    assert_eq!(
        RegistryError::unknown_type("unknown.Type").message(),
        "Unknown message type: unknown.Type"
    );
    assert_eq!(
        RegistryError::Decode(DecodeError::new("bad bytes".to_string())).message(),
        "bad bytes"
    );
    assert_eq!(
        RegistryError::Encode(EncodeError::new("bad text".to_string())).message(),
        "bad text"
    );
    assert_eq!(DecodeError::new("d".to_string()).message(), "d");
    assert_eq!(EncodeError::new("e".to_string()).message(), "e");
}
