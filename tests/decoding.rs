use user_writer::decode::{decode_fields, decode_text, decode_user, DecodeError, Expected, Field, UserField, UserRecord};

fn record(name: &str, age: u16) -> UserRecord {
    UserRecord { name: name.to_string(), age }
}

#[test]
fn valid_payload_decodes() {
    let r = decode_user(br#"{"name":"Alice","age":30}"#);
    assert_eq!(r, Ok(record("Alice", 30)));
}

#[test]
fn age_bounds_are_inclusive() {
    assert_eq!(decode_user(br#"{"name":"Old","age":150}"#), Ok(record("Old", 150)));
    assert_eq!(decode_user(br#"{"name":"New","age":0}"#), Ok(record("New", 0)));
}

#[test]
fn extra_members_and_whitespace_are_ignored() {
    let body = " { \"age\" : 41 , \"city\": [1, {\"x\": null}], \"name\" : \"Zo\u{e9}\" } ";
    let r = decode_user(body.as_bytes());
    assert_eq!(r, Ok(record("Zo\u{e9}", 41)));
}

#[test]
fn missing_age_is_reported() {
    assert_eq!(decode_user(br#"{"name":"Bob"}"#), Err(DecodeError::MissingField(UserField::Age)));
}

#[test]
fn missing_name_is_reported() {
    assert_eq!(decode_user(br#"{"age":30}"#), Err(DecodeError::MissingField(UserField::Name)));
    assert_eq!(decode_user(b"{}"), Err(DecodeError::MissingField(UserField::Name)));
}

#[test]
fn textual_age_is_a_type_mismatch() {
    assert_eq!(
        decode_user(br#"{"name":"Carol","age":"thirty"}"#),
        Err(DecodeError::TypeMismatch(UserField::Age, Expected::AgeInRange))
    );
    assert_eq!(
        decode_user(br#"{"name":"Carol","age":"30"}"#),
        Err(DecodeError::TypeMismatch(UserField::Age, Expected::AgeInRange))
    );
}

#[test]
fn out_of_range_or_fractional_age_is_a_type_mismatch() {
    for body in [
        &br#"{"name":"Dan","age":151}"#[..],
        &br#"{"name":"Dan","age":-1}"#[..],
        &br#"{"name":"Dan","age":30.5}"#[..],
        &br#"{"name":"Dan","age":null}"#[..],
    ] {
        assert_eq!(decode_user(body), Err(DecodeError::TypeMismatch(UserField::Age, Expected::AgeInRange)));
    }
}

#[test]
fn empty_or_non_text_name_is_a_type_mismatch() {
    assert_eq!(
        decode_user(br#"{"name":"","age":30}"#),
        Err(DecodeError::TypeMismatch(UserField::Name, Expected::NonEmptyString))
    );
    assert_eq!(
        decode_user(br#"{"name":7,"age":30}"#),
        Err(DecodeError::TypeMismatch(UserField::Name, Expected::NonEmptyString))
    );
}

#[test]
fn invalid_utf8_is_rejected_first() {
    assert_eq!(decode_user(&[0xff, 0xfe, 0x7b]), Err(DecodeError::InvalidEncoding));
    let mut body = br#"{"name":"Eve","age":30}"#.to_vec();
    body.push(0xc3);
    assert_eq!(decode_user(&body), Err(DecodeError::InvalidEncoding));
}

#[test]
fn non_json_or_non_object_is_malformed() {
    assert_eq!(decode_user(b"{\"name\":"), Err(DecodeError::MalformedStructure));
    assert_eq!(decode_user(b""), Err(DecodeError::MalformedStructure));
    assert_eq!(decode_user(br#"[{"name":"A","age":1}]"#), Err(DecodeError::MalformedStructure));
    assert_eq!(decode_text("42"), Err(DecodeError::MalformedStructure));
}

#[test]
fn field_rules_judge_name_before_age() {
    assert_eq!(decode_fields(Field::Missing, Field::Missing), Err(DecodeError::MissingField(UserField::Name)));
    assert_eq!(
        decode_fields(Field::Other, Field::Missing),
        Err(DecodeError::TypeMismatch(UserField::Name, Expected::NonEmptyString))
    );
    assert_eq!(
        decode_fields(Field::Text("Ann".to_string()), Field::Text("x".to_string())),
        Err(DecodeError::TypeMismatch(UserField::Age, Expected::AgeInRange))
    );
    assert_eq!(decode_fields(Field::Text("Ann".to_string()), Field::Integer(99)), Ok(record("Ann", 99)));
}

#[test]
fn field_keys_and_expectations_are_named() {
    assert_eq!(UserField::Name.key(), "name");
    assert_eq!(UserField::Age.key(), "age");
    assert_eq!(Expected::NonEmptyString.name(), "non_empty_string");
    assert_eq!(Expected::AgeInRange.name(), "integer_0_to_150");
}
