use runtime_ops::transl8::{magic_deserialize, magic_field, magic_name, magic_serialize};

#[derive(Debug, PartialEq)]
struct Buffer(Vec<u8>);

#[test]
fn reserved_names() {
    assert_eq!(magic_name("Buffer"), "$__v8_magic_Buffer");
    assert_eq!(magic_field(), "$__v8_magic_field");
}

#[test]
fn value_round_trips() {
    let rec = magic_serialize(Buffer(vec![1, 2, 3]), "Buffer");
    assert_eq!(rec.name, "$__v8_magic_Buffer");
    assert_eq!(rec.field, "$__v8_magic_field");
    assert_eq!(magic_deserialize(rec, "Buffer").unwrap(), Buffer(vec![1, 2, 3]));
}

#[test]
fn wrong_discriminator_names_expected_type() {
    let rec = magic_serialize(7u32, "Global");
    let err = magic_deserialize(rec, "Value").unwrap_err();
    assert_eq!(err.expected, "a Value");
}

#[test]
fn wrong_field_is_rejected() {
    let mut rec = magic_serialize(7u32, "Global");
    rec.field = "value".to_string();
    assert_eq!(magic_deserialize(rec, "Global").unwrap_err().expected, "a Global");
}
