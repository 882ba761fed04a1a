use vstd::prelude::*;
use crate::decode::UserRecord;
use crate::ident::{hyphenated, hyphenated_injective, UserId};

verus! {

/// Why a record could not be written.
#[derive(Clone, Copy, Debug, PartialEq, Eq, Structural)]
pub enum WriteError {
    /// A transient failure of the store: worth retrying later.
    StoreUnavailable,
    /// The destination table was not configured.
    ConfigurationMissing,
    /// The store refused the item; retrying will not help.
    RejectedByStore,
}

/// What the store or its client reported for a write that did not go through.
#[derive(Clone, Copy, Debug, PartialEq, Eq, Structural)]
pub enum StoreFailure {
    /// No answer in time.
    Timeout,
    /// The request could not be sent (connection, DNS, TLS).
    Dispatch,
    /// An answer came that could not be read.
    BadResponse,
    /// Throughput or request limits were hit.
    Throttled,
    /// The store reported an internal error.
    ServiceInternal,
    /// A concurrent transaction or replicated write conflicted.
    Conflict,
    /// The request could not be built.
    Construction,
    /// The table does not exist.
    ResourceNotFound,
    /// A condition on the item failed.
    ConditionFailed,
    /// An item collection grew past its size limit.
    SizeLimitExceeded,
    /// Any other refusal: validation, permissions, an unknown error.
    Refused,
}

/// Whether a failure is expected to clear up when retried later.
pub open spec fn is_transient(f: StoreFailure) -> bool {
    match f {
        StoreFailure::Timeout | StoreFailure::Dispatch | StoreFailure::BadResponse
        | StoreFailure::Throttled | StoreFailure::ServiceInternal | StoreFailure::Conflict => true,
        _ => false,
    }
}

pub open spec fn failure_error(f: StoreFailure) -> WriteError {
    if is_transient(f) {
        WriteError::StoreUnavailable
    } else {
        WriteError::RejectedByStore
    }
}

/// Classifies a failed write: transient ones as `StoreUnavailable`, the rest as
/// `RejectedByStore`.
pub fn classify_failure(f: StoreFailure) -> (r: WriteError)
    ensures
        r == failure_error(f),
{
    match f {
        StoreFailure::Timeout | StoreFailure::Dispatch | StoreFailure::BadResponse
        | StoreFailure::Throttled | StoreFailure::ServiceInternal | StoreFailure::Conflict => {
            WriteError::StoreUnavailable
        },
        _ => WriteError::RejectedByStore,
    }
}

/// Takes the configured destination table: an absent or empty setting is missing
/// configuration.
pub fn resolve_table(setting: Option<String>) -> (r: Result<String, WriteError>)
    ensures
        match setting {
            Some(t) if t@.len() > 0 => r is Ok && r->Ok_0@ == t@,
            _ => r == Err::<String, WriteError>(WriteError::ConfigurationMissing),
        },
{
    match setting {
        Some(t) => {
            if t.as_str().is_empty() {
                Err(WriteError::ConfigurationMissing)
            } else {
                Ok(t)
            }
        },
        None => Err(WriteError::ConfigurationMissing),
    }
}

/// A user as persisted: the record's fields under a server-assigned identifier.
#[derive(Clone, Debug, PartialEq, Eq)]
pub struct StoredUser {
    pub user_id: UserId,
    pub name: String,
    pub age: u16,
}

/// Gives `record` the identifier `id`.
pub fn assign_id(record: UserRecord, id: UserId) -> (r: StoredUser)
    ensures
        r.user_id == id,
        r.name@ == record.name@,
        r.age == record.age,
{
    StoredUser { user_id: id, name: record.name, age: record.age }
}

/// The decimal digit of `d` (below 10).
pub open spec fn decimal_digit(d: nat) -> char {
    "0123456789"@[d as int]
}

/// `n` in decimal, without leading zeros.
pub open spec fn decimal(n: nat) -> Seq<char>
    decreases n,
{
    if n < 10 {
        seq![decimal_digit(n)]
    } else {
        decimal(n / 10).push(decimal_digit(n % 10))
    }
}

/// Relies on the `Display` of u16, through to_string: the number in decimal.
#[verifier::external_body]
fn decimal_text(n: u16) -> (r: String)
    ensures
        r@ == decimal(n as nat),
{
    n.to_string()
}

/// The type of an attribute's value in the store.
#[derive(Clone, Copy, Debug, PartialEq, Eq, Structural)]
pub enum AttrKind {
    Text,
    Number,
}

/// One attribute of an item: its key, its type, and its value as text.
#[derive(Clone, Debug, PartialEq, Eq)]
pub struct Attribute {
    pub key: String,
    pub kind: AttrKind,
    pub value: String,
}

/// A single insert: the destination table and the item's attributes.
#[derive(Clone, Debug, PartialEq, Eq)]
pub struct PutItem {
    pub table: String,
    pub attributes: Vec<Attribute>,
}

pub open spec fn attribute_is(a: Attribute, key: Seq<char>, kind: AttrKind, value: Seq<char>) -> bool {
    a.key@ == key && a.kind == kind && a.value@ == value
}

/// Whether `p` inserts `user` into `table`, keyed by its identifier's text, with the
/// name as text and the age as a number.
pub open spec fn puts_user(p: PutItem, table: Seq<char>, user: StoredUser) -> bool {
    &&& p.table@ == table
    &&& p.attributes@.len() == 3
    &&& attribute_is(p.attributes@[0], "user_id"@, AttrKind::Text, hyphenated(user.user_id.value))
    &&& attribute_is(p.attributes@[1], "name"@, AttrKind::Text, user.name@)
    &&& attribute_is(p.attributes@[2], "age"@, AttrKind::Number, decimal(user.age as nat))
}

/// The insert that persists `user` in `table`.
pub fn put_request(table: String, user: &StoredUser) -> (r: PutItem)
    ensures
        puts_user(r, table@, *user),
{
    let mut attributes: Vec<Attribute> = Vec::new();
    attributes.push(Attribute { key: "user_id".to_owned(), kind: AttrKind::Text, value: user.user_id.text() });
    attributes.push(Attribute { key: "name".to_owned(), kind: AttrKind::Text, value: user.name.clone() });
    attributes.push(Attribute { key: "age".to_owned(), kind: AttrKind::Number, value: decimal_text(user.age) });
    PutItem { table, attributes }
}

/// The result of a write, given what the store answered: the identifier on success,
/// the classified error otherwise, never an identifier for a failed write.
pub fn write_outcome(id: UserId, sent: Result<(), StoreFailure>) -> (r: Result<UserId, WriteError>)
    ensures
        match sent {
            Ok(_) => r == Ok::<UserId, WriteError>(id),
            Err(f) => r == Err::<UserId, WriteError>(failure_error(f)),
        },
{
    match sent {
        Ok(_) => Ok(id),
        Err(f) => Err(classify_failure(f)),
    }
}

/// Writing the same record twice is not deduplicated: two inserts of one record under
/// different identifiers carry different keys, so the store keeps two items.
pub proof fn same_record_twice_gives_two_items(
    record: UserRecord,
    id1: UserId,
    id2: UserId,
    table: Seq<char>,
    p1: PutItem,
    p2: PutItem,
)
    requires
        id1 != id2,
        puts_user(p1, table, StoredUser { user_id: id1, name: record.name, age: record.age }),
        puts_user(p2, table, StoredUser { user_id: id2, name: record.name, age: record.age }),
    ensures
        p1.attributes@[0].key@ == p2.attributes@[0].key@,
        p1.attributes@[0].value@ != p2.attributes@[0].value@,
{
    hyphenated_injective(id1.value, id2.value);
}

} // verus!
