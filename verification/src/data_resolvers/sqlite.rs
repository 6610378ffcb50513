//! Materialisation of SQLite cells as values, and the decisions taken when a
//! database is attached to a connection.

use crate::prisma_value::{GraphqlId, PrismaValue};
use crate::schema::TypeIdentifier;
use vstd::prelude::*;
use vstd::string::StringExecFns;

verus! {

/// A cell of a result row. `Real` carries the IEEE-754 bit pattern of the
/// cell's number, narrowed to single precision.
#[derive(Clone, Debug, PartialEq, Eq)]
pub enum SqlValue {
    Null,
    Integer(i64),
    Real(u32),
    Text(String),
    Blob(Vec<u8>),
}

/// Why a cell cannot be read as the value asked for.
#[derive(Clone, Copy, Debug, PartialEq, Eq)]
pub enum ColumnError {
    /// The cell is of another storage class.
    InvalidType,
    /// The cell's integer is outside of what the value can hold.
    OutOfRange(i64),
}

/// The RFC 3339 text of the instant `secs` seconds and `nanos` nanoseconds
/// after the Unix epoch, in UTC; `None` for an instant that the calendar
/// cannot represent.
pub uninterp spec fn utc_rfc3339(secs: i64, nanos: u32) -> Option<Seq<char>>;

/// `chrono::DateTime::from_timestamp` followed by `DateTime::to_rfc3339`:
/// the RFC 3339 text of a Unix timestamp in UTC, or nothing where `chrono`
/// cannot represent the instant. The text depends on the two numbers alone.
#[verifier::external_body]
fn format_utc_timestamp(secs: i64, nanos: u32) -> (text: Option<String>)
    ensures
        match text {
            Some(t) => utc_rfc3339(secs, nanos) == Some(t@),
            None => utc_rfc3339(secs, nanos) is None,
        },
{
    chrono::DateTime::from_timestamp(secs, nanos).map(|instant| instant.to_rfc3339())
}

/// The whole seconds of a timestamp in milliseconds, rounded towards zero.
pub open spec fn seconds_of(millis: i64) -> int {
    if millis >= 0 {
        millis / 1000
    } else {
        -((-millis) / 1000)
    }
}

/// What is left of a timestamp in milliseconds after its whole seconds;
/// negative for a timestamp before the epoch that is no whole second.
pub open spec fn millis_of(millis: i64) -> int {
    millis - 1000 * seconds_of(millis)
}

/// The value of a timestamp once its text is known: the text as a
/// date-time, or the timestamp as out of range where there is no text.
pub fn datetime_value(millis: i64, text: Option<String>) -> (value: Result<
    PrismaValue,
    ColumnError,
>)
    ensures
        value == match text {
            Some(t) => Ok::<PrismaValue, ColumnError>(PrismaValue::DateTime(t)),
            None => Err(ColumnError::OutOfRange(millis)),
        },
{
    match text {
        Some(t) => Ok(PrismaValue::DateTime(t)),
        None => Err(ColumnError::OutOfRange(millis)),
    }
}

/// Reads a timestamp in milliseconds since the Unix epoch as a date-time
/// value in RFC 3339 text.
///
/// A timestamp before the epoch that is no whole second is out of range, and
/// so is one that the calendar cannot represent.
pub fn datetime_from_millis(millis: i64) -> (value: Result<PrismaValue, ColumnError>)
    ensures
        match value {
            Ok(v) => {
                &&& millis_of(millis) >= 0
                &&& v matches PrismaValue::DateTime(t)
                &&& utc_rfc3339(seconds_of(millis) as i64, (millis_of(millis) * 1_000_000) as u32)
                    == Some(t@)
            },
            Err(e) => {
                &&& e == ColumnError::OutOfRange(millis)
                &&& millis_of(millis) < 0 || utc_rfc3339(
                    seconds_of(millis) as i64,
                    (millis_of(millis) * 1_000_000) as u32,
                ) is None
            },
        },
{
    let secs: i64 = millis / 1000;
    let rest: i64 = millis % 1000;
    if rest < 0 {
        return Err(ColumnError::OutOfRange(millis));
    }
    let nanos: u32 = (rest * 1_000_000) as u32;
    datetime_value(millis, format_utc_timestamp(secs, nanos))
}

impl GraphqlId {
    /// The identifier in a cell: its text, or else its integer where that
    /// is one an identifier can hold.
    pub open spec fn of_column(value: SqlValue) -> Result<GraphqlId, ColumnError> {
        match value {
            SqlValue::Text(s) => Ok(GraphqlId::String(s)),
            SqlValue::Integer(i) => if 0 <= i <= usize::MAX {
                Ok(GraphqlId::Int(i as usize))
            } else {
                Err(ColumnError::OutOfRange(i))
            },
            _ => Err(ColumnError::InvalidType),
        }
    }

    /// Reads an identifier from a cell.
    pub fn column_result(value: SqlValue) -> (id: Result<GraphqlId, ColumnError>)
        ensures
            id == GraphqlId::of_column(value),
    {
        match value {
            SqlValue::Text(s) => Ok(GraphqlId::String(s)),
            SqlValue::Integer(i) => if 0 <= i && i as u64 <= usize::MAX as u64 {
                Ok(GraphqlId::Int(i as usize))
            } else {
                Err(ColumnError::OutOfRange(i))
            },
            _ => Err(ColumnError::InvalidType),
        }
    }
}

/// Reads a cell as a value of the given type.
///
/// Text types take text, `Int` an integer that fits 32 bits, `Boolean` any
/// integer (zero is false), `Float` a real, `DateTime` a timestamp in
/// milliseconds as [`datetime_from_millis`] reads it. A relation is never
/// stored in a cell.
pub fn fetch_value(typ: TypeIdentifier, value: SqlValue) -> (fetched: Result<
    PrismaValue,
    ColumnError,
>)
    requires
        typ != TypeIdentifier::Relation,
    ensures
        typ != TypeIdentifier::DateTime ==> fetched == fetched_value(typ, value),
        typ == TypeIdentifier::DateTime ==> match value {
            SqlValue::Integer(millis) => match fetched {
                Ok(v) => {
                    &&& millis_of(millis) >= 0
                    &&& v matches PrismaValue::DateTime(t)
                    &&& utc_rfc3339(
                        seconds_of(millis) as i64,
                        (millis_of(millis) * 1_000_000) as u32,
                    ) == Some(t@)
                },
                Err(e) => {
                    &&& e == ColumnError::OutOfRange(millis)
                    &&& millis_of(millis) < 0 || utc_rfc3339(
                        seconds_of(millis) as i64,
                        (millis_of(millis) * 1_000_000) as u32,
                    ) is None
                },
            },
            _ => fetched == Err::<PrismaValue, ColumnError>(ColumnError::InvalidType),
        },
{
    match typ {
        TypeIdentifier::String => match value {
            SqlValue::Text(s) => Ok(PrismaValue::String(s)),
            _ => Err(ColumnError::InvalidType),
        },
        TypeIdentifier::GraphQLID => match GraphqlId::column_result(value) {
            Ok(id) => Ok(PrismaValue::GraphqlId(id)),
            Err(e) => Err(e),
        },
        TypeIdentifier::UUID => match value {
            SqlValue::Text(s) => Ok(PrismaValue::Uuid(s)),
            _ => Err(ColumnError::InvalidType),
        },
        TypeIdentifier::Int => match value {
            SqlValue::Integer(i) => if -0x8000_0000 <= i && i <= 0x7fff_ffff {
                Ok(PrismaValue::Int(i as i32))
            } else {
                Err(ColumnError::OutOfRange(i))
            },
            _ => Err(ColumnError::InvalidType),
        },
        TypeIdentifier::Boolean => match value {
            SqlValue::Integer(i) => Ok(PrismaValue::Boolean(i != 0)),
            _ => Err(ColumnError::InvalidType),
        },
        TypeIdentifier::Enum => match value {
            SqlValue::Text(s) => Ok(PrismaValue::Enum(s)),
            _ => Err(ColumnError::InvalidType),
        },
        TypeIdentifier::Json => match value {
            SqlValue::Text(s) => Ok(PrismaValue::Json(s)),
            _ => Err(ColumnError::InvalidType),
        },
        TypeIdentifier::DateTime => match value {
            SqlValue::Integer(millis) => datetime_from_millis(millis),
            _ => Err(ColumnError::InvalidType),
        },
        TypeIdentifier::Relation => Err(ColumnError::InvalidType),
        TypeIdentifier::Float => match value {
            SqlValue::Real(bits) => Ok(PrismaValue::Float(bits)),
            _ => Err(ColumnError::InvalidType),
        },
    }
}

/// What a cell reads as, for every type but date-times and relations.
pub open spec fn fetched_value(typ: TypeIdentifier, value: SqlValue) -> Result<
    PrismaValue,
    ColumnError,
> {
    match (typ, value) {
        (TypeIdentifier::String, SqlValue::Text(s)) => Ok(PrismaValue::String(s)),
        (TypeIdentifier::UUID, SqlValue::Text(s)) => Ok(PrismaValue::Uuid(s)),
        (TypeIdentifier::Enum, SqlValue::Text(s)) => Ok(PrismaValue::Enum(s)),
        (TypeIdentifier::Json, SqlValue::Text(s)) => Ok(PrismaValue::Json(s)),
        (TypeIdentifier::GraphQLID, v) => match GraphqlId::of_column(v) {
            Ok(id) => Ok(PrismaValue::GraphqlId(id)),
            Err(e) => Err(e),
        },
        (TypeIdentifier::Int, SqlValue::Integer(i)) => if i32::MIN <= i <= i32::MAX {
            Ok(PrismaValue::Int(i as i32))
        } else {
            Err(ColumnError::OutOfRange(i))
        },
        (TypeIdentifier::Boolean, SqlValue::Integer(i)) => Ok(PrismaValue::Boolean(i != 0)),
        (TypeIdentifier::Float, SqlValue::Real(bits)) => Ok(PrismaValue::Float(bits)),
        _ => Err(ColumnError::InvalidType),
    }
}

/// Whether a database still has to be attached: it is under none of the
/// names that the connection lists.
pub fn needs_attach(databases: &Vec<String>, db_name: &String) -> (attach: bool)
    ensures
        attach == forall|i: int| 0 <= i < databases@.len() ==> (#[trigger] databases@[i])@
            != db_name@,
{
    let mut i: usize = 0;
    while i < databases.len()
        invariant
            i <= databases.len(),
            forall|k: int| 0 <= k < i ==> (#[trigger] databases@[k])@ != db_name@,
        decreases databases.len() - i,
    {
        if databases[i] == *db_name {
            return false;
        }
        i += 1;
    }
    true
}

/// The file of a database: `db/` and its name, below the server's root.
pub fn database_path(server_root: &str, db_name: &str) -> (path: String)
    ensures
        path@ == server_root@ + "/db/"@ + db_name@,
{
    String::from_str(server_root).concat("/db/").concat(db_name)
}

} // verus!
