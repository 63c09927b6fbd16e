use std::collections::BTreeMap;

use value_de::de::{Deserializer, Visit};
use value_de::error::Error;
use value_de::key::sanitize_key;
use value_de::value::Value;

#[derive(Debug, PartialEq)]
enum Decoded {
    Unit,
    Int(i32),
    Float(f64),
    Bool(bool),
    Str(String),
    List(Vec<Decoded>),
    Object(BTreeMap<String, Decoded>),
}

fn decode(de: &mut Deserializer) -> Result<Decoded, Error> {
    match de.deserialize_any()? {
        Visit::Str(s) => Ok(Decoded::Str(s)),
        Visit::I32(i) => Ok(Decoded::Int(i)),
        Visit::F64(bits) => Ok(Decoded::Float(f64::from_bits(bits))),
        Visit::Bool(b) => Ok(Decoded::Bool(b)),
        Visit::Unit => Ok(Decoded::Unit),
        Visit::Sequence(mut seq) => {
            let mut items = Vec::new();
            while seq.next_element(de) {
                items.push(decode(de)?);
            }
            Ok(Decoded::List(items))
        }
        Visit::Mapping(mut map) => {
            let mut entries = BTreeMap::new();
            while map.next_key(de)? {
                let key = match decode(de)? {
                    Decoded::Str(k) => k,
                    other => panic!("key decoded as {:?}", other),
                };
                map.next_value(de);
                entries.insert(key, decode(de)?);
            }
            Ok(Decoded::Object(entries))
        }
    }
}

fn deserialize_value(v: Value) -> Decoded {
    let mut de = Deserializer::from(v);
    decode(&mut de).unwrap()
}

fn object(props: Vec<(&str, Value)>) -> Value {
    Value::Object(props.into_iter().map(|(k, v)| (k.to_string(), v)).collect())
}

#[test]
fn test_null() {
    let actual = deserialize_value(Value::Null);
    assert_eq!(Decoded::Unit, actual);
}

#[test]
fn test_undefined() {
    let actual = deserialize_value(Value::Undefined);
    assert_eq!(Decoded::Unit, actual);
}

#[test]
fn test_nan() {
    let actual = deserialize_value(Value::Float(f64::NAN.to_bits()));
    match actual {
        Decoded::Float(f) => assert!(f.is_nan()),
        other => panic!("expected a float, got {:?}", other),
    }
}

#[test]
fn test_infinity() {
    let actual = deserialize_value(Value::Float(f64::INFINITY.to_bits()));
    match actual {
        Decoded::Float(f) => assert!(f.is_infinite() && f.is_sign_positive()),
        other => panic!("expected a float, got {:?}", other),
    }
}

#[test]
fn test_negative_infinity() {
    let actual = deserialize_value(Value::Float(f64::NEG_INFINITY.to_bits()));
    match actual {
        Decoded::Float(f) => assert!(f.is_infinite() && f.is_sign_negative()),
        other => panic!("expected a float, got {:?}", other),
    }
}

#[test]
fn test_map_always_converts_keys_to_string() {
    // The runtime stores `{1337: 42}` under the property name "1337".
    let val = object(vec![("1337", Value::Int(42))]);
    let actual = deserialize_value(val);
    match actual {
        Decoded::Object(map) => assert_eq!(Some(&Decoded::Int(42)), map.get("1337")),
        other => panic!("expected a mapping, got {:?}", other),
    }
}

#[test]
fn test_map_keys_are_converted_to_snake_case() {
    let val = object(vec![
        ("hello_wold", Value::Int(1)),
        ("toto", Value::Int(2)),
        ("fooBar", Value::Int(3)),
        ("Joyeux Noël", Value::Int(4)),
        ("kebab-case", Value::Int(5)),
    ]);
    let actual = match deserialize_value(val) {
        Decoded::Object(map) => map,
        other => panic!("expected a mapping, got {:?}", other),
    };
    assert_eq!(Some(&Decoded::Int(1)), actual.get("hello_wold"));
    assert_eq!(Some(&Decoded::Int(2)), actual.get("toto"));
    assert_eq!(Some(&Decoded::Int(3)), actual.get("foo_bar"));
    assert_eq!(Some(&Decoded::Int(4)), actual.get("joyeux_noël"));
    assert_eq!(Some(&Decoded::Int(5)), actual.get("kebab_case"));
}

#[test]
fn map_key_is_presented_as_string_not_number() {
    let mut de = Deserializer::from(object(vec![("1337", Value::Int(42))]));
    let mut map = match de.deserialize_any() {
        Ok(Visit::Mapping(m)) => m,
        _ => panic!("expected a mapping"),
    };
    assert!(map.next_key(&mut de).unwrap());
    assert!(de.holds_key());
    assert!(matches!(de.deserialize_any(), Ok(Visit::Str(ref k)) if k == "1337"));
    assert!(map.has_pending_key());
    map.next_value(&mut de);
    assert!(!map.has_pending_key());
    assert!(matches!(de.deserialize_any(), Ok(Visit::I32(42))));
    assert!(!map.next_key(&mut de).unwrap());
}

#[test]
fn null_and_undefined_are_absent_options() {
    assert!(!Deserializer::from(Value::Null).deserialize_option());
    assert!(!Deserializer::from(Value::Undefined).deserialize_option());
    assert!(Deserializer::from(Value::Int(0)).deserialize_option());
    assert!(Deserializer::from(Value::Str(String::new())).deserialize_option());
}

#[test]
fn integers_booleans_and_strings_decode() {
    assert_eq!(Decoded::Int(-7), deserialize_value(Value::Int(-7)));
    assert_eq!(Decoded::Int(i32::MAX), deserialize_value(Value::Int(i32::MAX)));
    assert_eq!(Decoded::Bool(true), deserialize_value(Value::Bool(true)));
    assert_eq!(
        Decoded::Str("héllo".to_string()),
        deserialize_value(Value::Str("héllo".to_string()))
    );
    assert_eq!(Decoded::Float(1.5), deserialize_value(Value::Float(1.5f64.to_bits())));
}

#[test]
fn array_of_three_decodes_in_index_order() {
    let val = Value::Array(vec![Value::Int(10), Value::Str("b".to_string()), Value::Bool(false)]);
    assert_eq!(
        Decoded::List(vec![
            Decoded::Int(10),
            Decoded::Str("b".to_string()),
            Decoded::Bool(false)
        ]),
        deserialize_value(val)
    );
}

#[test]
fn empty_array_is_exhausted_at_once() {
    let mut de = Deserializer::from(Value::Array(Vec::new()));
    let mut seq = match de.deserialize_any() {
        Ok(Visit::Sequence(s)) => s,
        _ => panic!("expected a sequence"),
    };
    assert!(!seq.next_element(&mut de));
    assert!(!seq.next_element(&mut de));
    // The slot still holds the array itself.
    assert!(matches!(de.deserialize_any(), Ok(Visit::Sequence(_))));
}

#[test]
fn nested_containers_decode() {
    let val = object(vec![(
        "items",
        Value::Array(vec![object(vec![("innerKey", Value::Null)]), Value::Array(vec![])]),
    )]);
    let mut inner = BTreeMap::new();
    inner.insert("inner_key".to_string(), Decoded::Unit);
    let mut outer = BTreeMap::new();
    outer.insert(
        "items".to_string(),
        Decoded::List(vec![Decoded::Object(inner), Decoded::List(vec![])]),
    );
    assert_eq!(Decoded::Object(outer), deserialize_value(val));
}

#[test]
fn function_value_is_rejected() {
    let de = Deserializer::from(Value::Function);
    assert!(matches!(de.deserialize_any(), Err(Error::Undecodable(Value::Function))));
}

#[test]
fn symbol_value_is_rejected() {
    let de = Deserializer::from(Value::Symbol);
    assert!(matches!(de.deserialize_any(), Err(Error::Undecodable(Value::Symbol))));
}

#[test]
fn function_inside_array_fails_the_decode() {
    let mut de = Deserializer::from(Value::Array(vec![Value::Int(1), Value::Function]));
    assert!(matches!(decode(&mut de), Err(Error::Undecodable(Value::Function))));
}

#[test]
fn enum_decoding_is_unsupported() {
    let de = Deserializer::from(Value::Str("Variant".to_string()));
    assert!(matches!(de.deserialize_enum(), Error::EnumUnsupported));
}

#[test]
fn decoder_is_not_human_readable() {
    assert!(!Deserializer::new(Value::Null).is_human_readable());
}

#[test]
fn normalizing_snake_case_key_keeps_it() {
    for key in ["hello_wold", "toto", "foo_bar", "joyeux_noël", "kebab_case", "1337"] {
        assert_eq!(key, sanitize_key(key).unwrap());
    }
}

#[test]
fn normalizing_rewrites_other_cases() {
    assert_eq!("foo_bar", sanitize_key("fooBar").unwrap());
    assert_eq!("kebab_case", sanitize_key("kebab-case").unwrap());
    assert_eq!("joyeux_noël", sanitize_key("Joyeux Noël").unwrap());
}

#[test]
fn key_with_nothing_left_is_an_error() {
    assert!(matches!(sanitize_key(""), Err(Error::InvalidKey(ref k)) if k.is_empty()));
    let mut de = Deserializer::from(object(vec![("", Value::Int(1))]));
    assert!(matches!(decode(&mut de), Err(Error::InvalidKey(_))));
}

#[test]
fn accept_key_takes_nonempty_normalized_name() {
    assert!(matches!(value_de::key::accept_key("A B", "a_b".to_string()), Ok(ref k) if k == "a_b"));
    assert!(matches!(
        value_de::key::accept_key("--", String::new()),
        Err(Error::InvalidKey(ref k)) if k == "--"
    ));
}
