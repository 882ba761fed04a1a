use user_writer::decode::{DecodeError, Expected, UserField};
use user_writer::handler::{
    begin_request, decode_error_reply, finish_request, plan_write, success_reply, write_error_reply, Reply, Step,
};
use user_writer::ident::UserId;
use user_writer::writer::{AttrKind, StoreFailure, WriteError};

fn reply(status: u16, content_type: &str, body: &str) -> Reply {
    Reply { status, content_type: content_type.to_string(), body: body.to_string() }
}

#[test]
fn alice_is_written_and_acknowledged() {
    let step = begin_request(br#"{"name":"Alice","age":30}"#, Some("users".to_string()));
    let (put, id) = match step {
        Step::Write(put, id) => (put, id),
        Step::Respond(r) => panic!("expected a write, got {:?}", r),
    };
    assert_eq!(put.table, "users");
    assert_eq!(put.attributes.len(), 3);
    assert_eq!(put.attributes[0].key, "user_id");
    assert_eq!(put.attributes[0].value, id.text());
    assert_eq!(put.attributes[1].value, "Alice");
    assert_eq!(put.attributes[2].kind, AttrKind::Number);
    assert_eq!(put.attributes[2].value, "30");
    let (r, confirmed) = finish_request(id, Ok(()));
    assert_eq!(r, reply(200, "text/html", "Hello AWS Lambda HTTP request"));
    assert_eq!(confirmed, Some(id));
}

#[test]
fn bob_without_age_is_rejected_without_a_write() {
    let step = begin_request(br#"{"name":"Bob"}"#, Some("users".to_string()));
    assert_eq!(
        step,
        Step::Respond(reply(400, "application/json", r#"{"error":"missing_field","field":"age"}"#))
    );
}

#[test]
fn transient_store_failure_confirms_no_id() {
    let (r, confirmed) = finish_request(UserId { value: 9 }, Err(StoreFailure::Timeout));
    assert_eq!(r, reply(502, "application/json", r#"{"error":"store_unavailable"}"#));
    assert_eq!(confirmed, None);
    let (r, confirmed) = finish_request(UserId { value: 9 }, Err(StoreFailure::ConditionFailed));
    assert_eq!(r, reply(500, "application/json", r#"{"error":"rejected_by_store"}"#));
    assert_eq!(confirmed, None);
}

#[test]
fn missing_table_is_a_configuration_error() {
    let expected = Step::Respond(reply(500, "application/json", r#"{"error":"configuration_missing"}"#));
    assert_eq!(begin_request(br#"{"name":"Alice","age":30}"#, None), expected);
    assert_eq!(begin_request(br#"{"name":"Alice","age":30}"#, Some(String::new())), expected);
}

#[test]
fn decode_errors_win_over_missing_configuration() {
    assert_eq!(
        begin_request(&[0xff], None),
        Step::Respond(reply(400, "application/json", r#"{"error":"invalid_encoding"}"#))
    );
    assert_eq!(
        plan_write(Err(DecodeError::MalformedStructure), None),
        Step::Respond(reply(400, "application/json", r#"{"error":"malformed_structure"}"#))
    );
}

#[test]
fn decode_error_bodies_name_the_error() {
    assert_eq!(
        decode_error_reply(DecodeError::TypeMismatch(UserField::Name, Expected::NonEmptyString)),
        reply(
            400,
            "application/json",
            r#"{"error":"type_mismatch","field":"name","expected":"non_empty_string"}"#
        )
    );
    assert_eq!(
        decode_error_reply(DecodeError::MissingField(UserField::Name)).body,
        r#"{"error":"missing_field","field":"name"}"#
    );
}

#[test]
fn write_error_replies() {
    assert_eq!(write_error_reply(WriteError::StoreUnavailable).status, 502);
    assert_eq!(write_error_reply(WriteError::ConfigurationMissing).status, 500);
    assert_eq!(write_error_reply(WriteError::RejectedByStore).status, 500);
    assert_eq!(success_reply(), reply(200, "text/html", "Hello AWS Lambda HTTP request"));
}
