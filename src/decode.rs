use vstd::prelude::*;
use vstd::utf8::{decode_utf8, valid_utf8};
use crate::json::{json_kind, json_of, members_of, parse_json, shape_of, take_member, JsonKind, JsonShape};

verus! {

/// The largest age a decoded record may carry.
pub const MAX_AGE: u64 = 150;

/// The two members a payload must carry.
#[derive(Clone, Copy, Debug, PartialEq, Eq, Structural)]
pub enum UserField {
    Name,
    Age,
}

/// What a member of the payload was expected to hold.
#[derive(Clone, Copy, Debug, PartialEq, Eq, Structural)]
pub enum Expected {
    NonEmptyString,
    AgeInRange,
}

/// Why a payload could not be turned into a `UserRecord`.
#[derive(Clone, Copy, Debug, PartialEq, Eq, Structural)]
pub enum DecodeError {
    InvalidEncoding,
    MalformedStructure,
    MissingField(UserField),
    TypeMismatch(UserField, Expected),
}

/// A validated user: a non-empty name and an age of at most `MAX_AGE`.
#[derive(Clone, Debug, PartialEq, Eq)]
pub struct UserRecord {
    pub name: String,
    pub age: u16,
}

/// A member of a decoded payload, reduced to what the rules read.
#[derive(Clone, Debug, PartialEq, Eq)]
pub enum Field {
    Missing,
    Text(String),
    Integer(u64),
    Other,
}

/// The mathematical value of a `Field`.
pub enum FieldModel {
    Missing,
    Text(Seq<char>),
    Integer(u64),
    Other,
}

impl View for Field {
    type V = FieldModel;

    open spec fn view(&self) -> FieldModel {
        match self {
            Field::Missing => FieldModel::Missing,
            Field::Text(s) => FieldModel::Text(s@),
            Field::Integer(n) => FieldModel::Integer(*n),
            Field::Other => FieldModel::Other,
        }
    }
}

impl Expected {
    /// The expectation's name in an error report.
    pub fn name(&self) -> (r: &'static str)
        ensures
            r@ == self.spec_name(),
    {
        match self {
            Expected::NonEmptyString => "non_empty_string",
            Expected::AgeInRange => "integer_0_to_150",
        }
    }

    pub open spec fn spec_name(&self) -> Seq<char> {
        match self {
            Expected::NonEmptyString => "non_empty_string"@,
            Expected::AgeInRange => "integer_0_to_150"@,
        }
    }
}

impl UserRecord {
    pub open spec fn wf(&self) -> bool {
        self.name@.len() > 0 && self.age <= MAX_AGE
    }
}

impl UserField {
    /// The member's key in the payload.
    pub fn key(&self) -> (r: &'static str)
        ensures
            r@ == self.spec_key(),
    {
        match self {
            UserField::Name => "name",
            UserField::Age => "age",
        }
    }

    pub open spec fn spec_key(&self) -> Seq<char> {
        match self {
            UserField::Name => "name"@,
            UserField::Age => "age"@,
        }
    }
}

/// The outcome of the field rules on the two members, in the order name, then age:
/// the decoded name and age, or the error.
pub open spec fn fields_outcome(name: FieldModel, age: FieldModel) -> Result<(Seq<char>, u64), DecodeError> {
    match name {
        FieldModel::Missing => Err(DecodeError::MissingField(UserField::Name)),
        FieldModel::Text(s) if s.len() > 0 => match age {
            FieldModel::Missing => Err(DecodeError::MissingField(UserField::Age)),
            FieldModel::Integer(n) if n <= MAX_AGE => Ok((s, n)),
            _ => Err(DecodeError::TypeMismatch(UserField::Age, Expected::AgeInRange)),
        },
        _ => Err(DecodeError::TypeMismatch(UserField::Name, Expected::NonEmptyString)),
    }
}

/// The member of an object under `key`, as the field rules read it.
pub open spec fn member_field(members: Map<Seq<char>, JsonShape>, key: Seq<char>) -> FieldModel {
    if !members.contains_key(key) {
        FieldModel::Missing
    } else {
        match members[key] {
            JsonShape::Text(s) => FieldModel::Text(s),
            JsonShape::Number(Some(n)) => FieldModel::Integer(n),
            _ => FieldModel::Other,
        }
    }
}

/// The outcome of decoding a JSON document: anything but an object is malformed; an
/// object is judged by the field rules on its `name` and `age` members.
pub open spec fn document_outcome(doc: Option<JsonShape>) -> Result<(Seq<char>, u64), DecodeError> {
    match doc {
        Some(JsonShape::Object(m)) => fields_outcome(member_field(m, "name"@), member_field(m, "age"@)),
        _ => Err(DecodeError::MalformedStructure),
    }
}

/// The outcome of decoding a request body: bytes that are not UTF-8 are rejected
/// first; text is decoded as the JSON document that it holds.
pub open spec fn body_outcome(body: Seq<u8>) -> Result<(Seq<char>, u64), DecodeError> {
    if !valid_utf8(body) {
        Err(DecodeError::InvalidEncoding)
    } else {
        document_outcome(json_of(decode_utf8(body)))
    }
}

/// Whether `r` is the result described by `outcome`.
pub open spec fn yields(r: Result<UserRecord, DecodeError>, outcome: Result<(Seq<char>, u64), DecodeError>) -> bool {
    match (r, outcome) {
        (Ok(u), Ok((s, n))) => u.name@ == s && u.age as u64 == n,
        (Err(e), Err(f)) => e == f,
        _ => false,
    }
}

/// Applies the field rules: rejects a missing or ill-typed member, never defaults one.
pub fn decode_fields(name: Field, age: Field) -> (r: Result<UserRecord, DecodeError>)
    ensures
        yields(r, fields_outcome(name@, age@)),
        r is Ok ==> r->Ok_0.wf(),
{
    match name {
        Field::Missing => Err(DecodeError::MissingField(UserField::Name)),
        Field::Text(s) => {
            if s.as_str().is_empty() {
                return Err(DecodeError::TypeMismatch(UserField::Name, Expected::NonEmptyString));
            }
            match age {
                Field::Missing => Err(DecodeError::MissingField(UserField::Age)),
                Field::Integer(n) => {
                    if n <= MAX_AGE {
                        Ok(UserRecord { name: s, age: n as u16 })
                    } else {
                        Err(DecodeError::TypeMismatch(UserField::Age, Expected::AgeInRange))
                    }
                },
                _ => Err(DecodeError::TypeMismatch(UserField::Age, Expected::AgeInRange)),
            }
        },
        _ => Err(DecodeError::TypeMismatch(UserField::Name, Expected::NonEmptyString)),
    }
}

/// Relies on std::str::from_utf8: the bytes read as text exactly when they are valid UTF-8.
#[verifier::external_body]
fn utf8_text(b: &[u8]) -> (r: Option<&str>)
    ensures
        r is Some <==> valid_utf8(b@),
        r is Some ==> r->0@ == decode_utf8(b@),
{
    std::str::from_utf8(b).ok()
}

/// Takes the member under `which` out of a decoded object, reduced to a `Field`.
fn member(obj: &mut serde_json::Map<String, serde_json::Value>, which: UserField) -> (r: Field)
    ensures
        r@ == member_field(members_of(*old(obj)), which.spec_key()),
        members_of(*final(obj)) == members_of(*old(obj)).remove(which.spec_key()),
{
    match take_member(obj, which.key()) {
        None => Field::Missing,
        Some(v) => match json_kind(v) {
            JsonKind::Text(s) => Field::Text(s),
            JsonKind::Number(n) => match n.as_u64() {
                Some(u) => Field::Integer(u),
                None => Field::Other,
            },
            _ => Field::Other,
        },
    }
}

/// Decodes a JSON text into a `UserRecord`.
pub fn decode_text(text: &str) -> (r: Result<UserRecord, DecodeError>)
    ensures
        yields(r, document_outcome(json_of(text@))),
        r is Ok ==> r->Ok_0.wf(),
{
    match parse_json(text) {
        Err(_) => Err(DecodeError::MalformedStructure),
        Ok(v) => match json_kind(v) {
            JsonKind::Object(mut obj) => {
                let ghost members = members_of(obj);
                let name = member(&mut obj, UserField::Name);
                let age = member(&mut obj, UserField::Age);
                proof {
                    reveal_strlit("name");
                    reveal_strlit("age");
                    assert("name"@.len() != "age"@.len());
                    assert(members.remove("name"@)["age"@] == members["age"@]);
                }
                decode_fields(name, age)
            },
            _ => Err(DecodeError::MalformedStructure),
        },
    }
}

/// Decodes a request body into a `UserRecord`.
pub fn decode_user(body: &[u8]) -> (r: Result<UserRecord, DecodeError>)
    ensures
        yields(r, body_outcome(body@)),
        r is Ok ==> r->Ok_0.wf(),
{
    match utf8_text(body) {
        None => Err(DecodeError::InvalidEncoding),
        Some(text) => decode_text(text),
    }
}

/// Any JSON object whose name is non-empty text and whose age is an integer of at most
/// `MAX_AGE` decodes to exactly that name and age.
pub proof fn valid_payload_decodes(text: Seq<char>, members: Map<Seq<char>, JsonShape>, name: Seq<char>, age: u64)
    requires
        json_of(text) == Some(JsonShape::Object(members)),
        members.contains_key("name"@),
        members["name"@] == JsonShape::Text(name),
        name.len() > 0,
        members.contains_key("age"@),
        members["age"@] == JsonShape::Number(Some(age)),
        age <= MAX_AGE,
    ensures
        document_outcome(json_of(text)) == Ok::<(Seq<char>, u64), DecodeError>((name, age)),
{
}

/// A JSON object that lacks its name, or has a name but lacks its age, is reported as
/// missing that member; one whose age is text is reported as a type mismatch on the age.
pub proof fn missing_or_textual_members_rejected(text: Seq<char>, members: Map<Seq<char>, JsonShape>)
    requires
        json_of(text) == Some(JsonShape::Object(members)),
    ensures
        !members.contains_key("name"@) ==> document_outcome(json_of(text))
            == Err::<(Seq<char>, u64), DecodeError>(DecodeError::MissingField(UserField::Name)),
        member_field(members, "name"@) matches FieldModel::Text(s) && s.len() > 0 ==> {
            &&& !members.contains_key("age"@) ==> document_outcome(json_of(text))
                == Err::<(Seq<char>, u64), DecodeError>(DecodeError::MissingField(UserField::Age))
            &&& member_field(members, "age"@) is Text ==> document_outcome(json_of(text))
                == Err::<(Seq<char>, u64), DecodeError>(DecodeError::TypeMismatch(UserField::Age, Expected::AgeInRange))
        },
{
}

/// A body that is not valid UTF-8 is rejected as `InvalidEncoding`, whatever else it holds.
pub proof fn non_utf8_body_rejected(body: Seq<u8>)
    requires
        !valid_utf8(body),
    ensures
        body_outcome(body) == Err::<(Seq<char>, u64), DecodeError>(DecodeError::InvalidEncoding),
{
}

} // verus!
