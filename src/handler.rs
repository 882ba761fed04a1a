use vstd::prelude::*;
use crate::decode::{body_outcome, decode_user, yields, DecodeError, UserRecord};
use crate::ident::{is_random_uuid, UserId};
use crate::writer::{
    assign_id, failure_error, write_outcome, put_request, puts_user, resolve_table, PutItem, StoreFailure,
    StoredUser, WriteError,
};

verus! {

/// An HTTP response: status, content type and body.
#[derive(Clone, Debug, PartialEq, Eq)]
pub struct Reply {
    pub status: u16,
    pub content_type: String,
    pub body: String,
}

/// What to do next with a request: send one insert, or answer at once.
#[derive(Clone, Debug, PartialEq, Eq)]
pub enum Step {
    Write(PutItem, UserId),
    Respond(Reply),
}

pub open spec fn reply_is(r: Reply, status: u16, content_type: Seq<char>, body: Seq<char>) -> bool {
    r.status == status && r.content_type@ == content_type && r.body@ == body
}

pub open spec fn decode_error_body(e: DecodeError) -> Seq<char> {
    match e {
        DecodeError::InvalidEncoding => "{\"error\":\"invalid_encoding\"}"@,
        DecodeError::MalformedStructure => "{\"error\":\"malformed_structure\"}"@,
        DecodeError::MissingField(f) => "{\"error\":\"missing_field\",\"field\":\""@ + f.spec_key()
            + "\"}"@,
        DecodeError::TypeMismatch(f, x) => "{\"error\":\"type_mismatch\",\"field\":\""@
            + f.spec_key() + "\",\"expected\":\""@ + x.spec_name() + "\"}"@,
    }
}

pub open spec fn write_error_status(e: WriteError) -> u16 {
    match e {
        WriteError::StoreUnavailable => 502,
        _ => 500,
    }
}

pub open spec fn write_error_body(e: WriteError) -> Seq<char> {
    match e {
        WriteError::StoreUnavailable => "{\"error\":\"store_unavailable\"}"@,
        WriteError::ConfigurationMissing => "{\"error\":\"configuration_missing\"}"@,
        WriteError::RejectedByStore => "{\"error\":\"rejected_by_store\"}"@,
    }
}

/// The fixed acknowledgment of a stored user.
pub fn success_reply() -> (r: Reply)
    ensures
        reply_is(r, 200, "text/html"@, "Hello AWS Lambda HTTP request"@),
{
    Reply {
        status: 200,
        content_type: "text/html".to_owned(),
        body: "Hello AWS Lambda HTTP request".to_owned(),
    }
}

/// The rejection of a payload that could not be decoded: status 400 and a JSON body
/// naming the error.
pub fn decode_error_reply(e: DecodeError) -> (r: Reply)
    ensures
        reply_is(r, 400, "application/json"@, decode_error_body(e)),
{
    let body = match e {
        DecodeError::InvalidEncoding => "{\"error\":\"invalid_encoding\"}".to_owned(),
        DecodeError::MalformedStructure => "{\"error\":\"malformed_structure\"}".to_owned(),
        DecodeError::MissingField(f) => {
            let mut b = "{\"error\":\"missing_field\",\"field\":\"".to_owned();
            b.append(f.key());
            b.append("\"}");
            b
        },
        DecodeError::TypeMismatch(f, x) => {
            let mut b = "{\"error\":\"type_mismatch\",\"field\":\"".to_owned();
            b.append(f.key());
            b.append("\",\"expected\":\"");
            b.append(x.name());
            b.append("\"}");
            b
        },
    };
    Reply { status: 400, content_type: "application/json".to_owned(), body }
}

/// The answer to a failed write: 502 for a transient store failure, 500 otherwise.
pub fn write_error_reply(e: WriteError) -> (r: Reply)
    ensures
        reply_is(r, write_error_status(e), "application/json"@, write_error_body(e)),
{
    let (status, body) = match e {
        WriteError::StoreUnavailable => (502u16, "{\"error\":\"store_unavailable\"}"),
        WriteError::ConfigurationMissing => (500u16, "{\"error\":\"configuration_missing\"}"),
        WriteError::RejectedByStore => (500u16, "{\"error\":\"rejected_by_store\"}"),
    };
    Reply { status, content_type: "application/json".to_owned(), body: body.to_owned() }
}

/// Whether `r` is the step owed to a request whose body decoded to `decoded`, with the
/// table setting `table_setting`.
pub open spec fn planned(
    r: Step,
    decoded: Result<UserRecord, DecodeError>,
    table_setting: Option<String>,
) -> bool {
    match decoded {
        Err(e) => r is Respond && reply_is(
            r->Respond_0,
            400,
            "application/json"@,
            decode_error_body(e),
        ),
        Ok(u) => match table_setting {
            Some(t) if t@.len() > 0 => r is Write && is_random_uuid(r->Write_1.value) && puts_user(
                r->Write_0,
                t@,
                StoredUser { user_id: r->Write_1, name: u.name, age: u.age },
            ),
            _ => r is Respond && reply_is(
                r->Respond_0,
                500,
                "application/json"@,
                write_error_body(WriteError::ConfigurationMissing),
            ),
        },
    }
}

/// Decides what follows a decoded body: a rejection, a configuration error, or the
/// insert of the record under a fresh identifier.
pub fn plan_write(decoded: Result<UserRecord, DecodeError>, table_setting: Option<String>) -> (r: Step)
    ensures
        planned(r, decoded, table_setting),
{
    match decoded {
        Err(e) => Step::Respond(decode_error_reply(e)),
        Ok(record) => match resolve_table(table_setting) {
            Err(e) => Step::Respond(write_error_reply(e)),
            Ok(table) => {
                let id = UserId::generate();
                let user = assign_id(record, id);
                let put = put_request(table, &user);
                Step::Write(put, id)
            },
        },
    }
}

/// The first step of a request: decodes the body and plans the write.
pub fn begin_request(body: &[u8], table_setting: Option<String>) -> (r: Step)
    ensures
        exists|d: Result<UserRecord, DecodeError>| yields(d, body_outcome(body@)) && planned(r, d, table_setting),
{
    let decoded = decode_user(body);
    let r = plan_write(decoded, table_setting);
    assert(yields(decoded, body_outcome(body@)) && planned(r, decoded, table_setting));
    r
}

/// The last step of a request: the store's answer on the insert of `id` becomes the
/// HTTP reply. The identifier is confirmed only when the write went through.
pub fn finish_request(id: UserId, sent: Result<(), StoreFailure>) -> (r: (Reply, Option<UserId>))
    ensures
        match sent {
            Ok(_) => reply_is(r.0, 200, "text/html"@, "Hello AWS Lambda HTTP request"@) && r.1
                == Some(id),
            Err(f) => reply_is(
                r.0,
                write_error_status(failure_error(f)),
                "application/json"@,
                write_error_body(failure_error(f)),
            ) && r.1 is None,
        },
{
    match write_outcome(id, sent) {
        Ok(confirmed) => (success_reply(), Some(confirmed)),
        Err(e) => (write_error_reply(e), None),
    }
}

} // verus!
