use cornucopia::wire::{
    decode_composite, encode_composite, DecodeError, EncodeError, FieldValue, RuntimeField, RuntimeType,
    StaticComposite, StaticField,
};

fn rf(name: &str, oid: u32, ty: &str) -> RuntimeField {
    RuntimeField { name: name.to_string(), oid, ty_name: ty.to_string() }
}

fn fv(name: &str, payload: Option<Vec<u8>>) -> FieldValue {
    FieldValue { name: name.to_string(), payload }
}

fn sf(name: &str, ty: &str) -> StaticField {
    StaticField { name: name.to_string(), ty_name: ty.to_string() }
}

#[derive(Debug, PartialEq, Clone, Copy)]
enum SpongebobCharacter {
    Bob,
    Patrick,
    Squidward,
}

fn character_label(c: SpongebobCharacter) -> &'static str {
    match c {
        SpongebobCharacter::Bob => "Bob",
        SpongebobCharacter::Patrick => "Patrick",
        SpongebobCharacter::Squidward => "Squidward",
    }
}

fn character_of(label: &[u8]) -> SpongebobCharacter {
    match label {
        b"Bob" => SpongebobCharacter::Bob,
        b"Patrick" => SpongebobCharacter::Patrick,
        b"Squidward" => SpongebobCharacter::Squidward,
        _ => panic!("unknown label"),
    }
}

fn custom_composite_runtime() -> Vec<RuntimeField> {
    vec![rf("such_cool", 23, "int4"), rf("wow", 25, "text"), rf("nice", 16400, "spongebob_character")]
}

#[test]
fn custom_composite_round_trip() {
    let value: (i32, String, SpongebobCharacter) = (42, "hi".to_string(), SpongebobCharacter::Patrick);
    let values = vec![
        fv("such_cool", Some(value.0.to_be_bytes().to_vec())),
        fv("wow", Some(value.1.as_bytes().to_vec())),
        fv("nice", Some(character_label(value.2).as_bytes().to_vec())),
    ];
    let bytes = encode_composite(&custom_composite_runtime(), &values).unwrap();
    let mut expected: Vec<u8> = vec![0, 0, 0, 3];
    expected.extend_from_slice(&23u32.to_be_bytes());
    expected.extend_from_slice(&4i32.to_be_bytes());
    expected.extend_from_slice(&42i32.to_be_bytes());
    expected.extend_from_slice(&25u32.to_be_bytes());
    expected.extend_from_slice(&2i32.to_be_bytes());
    expected.extend_from_slice(b"hi");
    expected.extend_from_slice(&16400u32.to_be_bytes());
    expected.extend_from_slice(&7i32.to_be_bytes());
    expected.extend_from_slice(b"Patrick");
    assert_eq!(bytes, expected);

    let decoded = decode_composite(&bytes, 3).unwrap();
    let p0 = decoded[0].clone().unwrap();
    let back = (
        i32::from_be_bytes([p0[0], p0[1], p0[2], p0[3]]),
        String::from_utf8(decoded[1].clone().unwrap()).unwrap(),
        character_of(&decoded[2].clone().unwrap()),
    );
    assert_eq!(back, (42, "hi".to_string(), SpongebobCharacter::Patrick));
}

#[test]
fn runtime_order_decides_encoding_order() {
    let rt = vec![rf("wow", 25, "text"), rf("such_cool", 23, "int4")];
    let values = vec![fv("such_cool", Some(vec![0, 0, 0, 7])), fv("wow", Some(b"yo".to_vec()))];
    let bytes = encode_composite(&rt, &values).unwrap();
    let decoded = decode_composite(&bytes, 2).unwrap();
    assert_eq!(decoded, vec![Some(b"yo".to_vec()), Some(vec![0, 0, 0, 7])]);
}

#[test]
fn null_field_is_minus_one_without_payload() {
    let rt = vec![rf("wow", 25, "text")];
    let values = vec![fv("wow", None)];
    let bytes = encode_composite(&rt, &values).unwrap();
    let mut expected: Vec<u8> = vec![0, 0, 0, 1, 0, 0, 0, 25];
    expected.extend_from_slice(&(-1i32).to_be_bytes());
    assert_eq!(bytes, expected);
    assert_eq!(bytes.len(), 12);
    assert_eq!(decode_composite(&bytes, 1).unwrap(), vec![None]);
}

#[test]
fn empty_payload_is_not_null() {
    let rt = vec![rf("wow", 25, "text")];
    let bytes = encode_composite(&rt, &vec![fv("wow", Some(vec![]))]).unwrap();
    assert_eq!(bytes, vec![0, 0, 0, 1, 0, 0, 0, 25, 0, 0, 0, 0]);
    assert_eq!(decode_composite(&bytes, 1).unwrap(), vec![Some(vec![])]);
}

#[test]
fn unknown_runtime_field_is_refused() {
    let rt = vec![rf("such_cool", 23, "int4"), rf("other", 25, "text")];
    let values = vec![fv("such_cool", Some(vec![0, 0, 0, 1]))];
    assert_eq!(encode_composite(&rt, &values), Err(EncodeError::UnknownField));
}

#[test]
fn field_count_mismatch_is_refused() {
    let rt = vec![rf("wow", 25, "text")];
    let bytes = encode_composite(&rt, &vec![fv("wow", None)]).unwrap();
    assert_eq!(decode_composite(&bytes, 2), Err(DecodeError::FieldCount));
    assert_eq!(decode_composite(&[0xff, 0xff, 0xff, 0xff], 0), Err(DecodeError::FieldCount));
}

#[test]
fn truncated_input_is_refused() {
    assert_eq!(decode_composite(&[0, 0], 0), Err(DecodeError::Truncated));
    assert_eq!(decode_composite(&[0, 0, 0, 1, 0, 0, 0, 25, 0, 0], 1), Err(DecodeError::Truncated));
    assert_eq!(decode_composite(&[0, 0, 0, 1, 0, 0, 0, 25, 0, 0, 0, 3, 1, 2], 1), Err(DecodeError::Truncated));
    assert_eq!(decode_composite(&[0, 0, 0, 0], 0), Ok(vec![]));
}

fn abc() -> StaticComposite {
    StaticComposite {
        name: "abc".to_string(),
        schema: "public".to_string(),
        fields: vec![sf("a", "int4"), sf("b", "text"), sf("c", "bool")],
    }
}

fn rt_of(name: &str, fields: Vec<RuntimeField>) -> RuntimeType {
    RuntimeType { name: name.to_string(), schema: "public".to_string(), fields }
}

#[test]
fn accepts_any_permutation() {
    let c = abc();
    let same = rt_of("abc", vec![rf("a", 23, "int4"), rf("b", 25, "text"), rf("c", 16, "bool")]);
    let perm = rt_of("abc", vec![rf("c", 16, "bool"), rf("a", 23, "int4"), rf("b", 25, "text")]);
    assert!(c.accepts_to(&same));
    assert!(c.accepts_to(&perm));
}

#[test]
fn rejects_missing_extra_or_mistyped_fields() {
    let c = abc();
    let missing = rt_of("abc", vec![rf("a", 23, "int4"), rf("b", 25, "text")]);
    let extra = rt_of(
        "abc",
        vec![rf("a", 23, "int4"), rf("b", 25, "text"), rf("c", 16, "bool"), rf("d", 16, "bool")],
    );
    let renamed = rt_of("abc", vec![rf("a", 23, "int4"), rf("b", 25, "text"), rf("d", 16, "bool")]);
    let mistyped = rt_of("abc", vec![rf("a", 23, "int4"), rf("b", 25, "text"), rf("c", 23, "int4")]);
    let other_name = rt_of("abd", vec![rf("a", 23, "int4"), rf("b", 25, "text"), rf("c", 16, "bool")]);
    assert!(!c.accepts_to(&missing));
    assert!(!c.accepts_to(&extra));
    assert!(!c.accepts_to(&renamed));
    assert!(!c.accepts_to(&mistyped));
    assert!(!c.accepts_to(&other_name));
}

#[test]
fn decode_side_accepts_by_name_and_schema() {
    let c = abc();
    assert!(c.accepts_from(&rt_of("abc", vec![])));
    let mut elsewhere = rt_of("abc", vec![]);
    elsewhere.schema = "other".to_string();
    assert!(!c.accepts_from(&elsewhere));
}

#[test]
fn accepted_destination_encodes() {
    let c = abc();
    let rt = rt_of("abc", vec![rf("b", 25, "text"), rf("c", 16, "bool"), rf("a", 23, "int4")]);
    assert!(c.accepts_to(&rt));
    let values = vec![fv("a", Some(vec![0, 0, 0, 1])), fv("b", None), fv("c", Some(vec![1]))];
    let bytes = encode_composite(&rt.fields, &values).unwrap();
    let mut expected: Vec<u8> = vec![0, 0, 0, 3, 0, 0, 0, 25, 0xff, 0xff, 0xff, 0xff, 0, 0, 0, 16, 0, 0, 0, 1, 1];
    expected.extend_from_slice(&[0, 0, 0, 23, 0, 0, 0, 4, 0, 0, 0, 1]);
    assert_eq!(bytes, expected);
}
