use vstd::prelude::*;

use crate::error::RecordError;
use crate::timestamp::{rfc3339_instant, rfc3339_text, Timestamp};

verus! {

/// One cell of a stored row, as the store hands it over.
#[derive(Clone, Debug)]
pub enum SqlValue {
    Null,
    Integer(i64),
    Text(String),
}

/// The characters of a text cell.
pub open spec fn text_of(v: SqlValue) -> Seq<char> {
    match v {
        SqlValue::Text(s) => s@,
        _ => Seq::empty(),
    }
}

/// An integer cell whose value lies in [lo, hi].
pub open spec fn int_in(v: SqlValue, lo: int, hi: int) -> bool {
    v matches SqlValue::Integer(n) && lo <= n <= hi
}

/// The integer of an integer cell.
pub open spec fn int_of_cell(v: SqlValue) -> i64 {
    match v {
        SqlValue::Integer(n) => n,
        _ => 0,
    }
}

/// The cell that holds an optional text.
pub open spec fn opt_text_cell(o: Option<String>) -> SqlValue {
    match o {
        Some(s) => SqlValue::Text(s),
        None => SqlValue::Null,
    }
}

/// The cell that holds an optional integer.
pub open spec fn opt_int_cell(o: Option<i64>) -> SqlValue {
    match o {
        Some(n) => SqlValue::Integer(n),
        None => SqlValue::Null,
    }
}

/// A text cell holding the RFC 3339 form of `t`.
pub open spec fn holds_time(v: SqlValue, t: Timestamp) -> bool {
    v is Text && rfc3339_text(t.seconds, t.nanos) == Some(text_of(v))
}

/// An instant can be written as RFC 3339 text.
pub open spec fn writable_time(t: Timestamp) -> bool {
    rfc3339_text(t.seconds, t.nanos) is Some
}

/// A text cell from which `t` reads back.
pub open spec fn reads_as_time(v: SqlValue, t: Timestamp) -> bool {
    v is Text && rfc3339_instant(text_of(v)) == Some((t.seconds, t.nanos))
}

/// A text cell that reads back as some instant.
pub open spec fn readable_time(v: SqlValue) -> bool {
    v is Text && rfc3339_instant(text_of(v)) is Some
}

/// The cell of an optional instant: null or a text that holds it.
pub open spec fn holds_opt_time(v: SqlValue, o: Option<Timestamp>) -> bool {
    match o {
        Some(t) => holds_time(v, t),
        None => v is Null,
    }
}

pub open spec fn writable_opt_time(o: Option<Timestamp>) -> bool {
    o matches Some(t) ==> writable_time(t)
}

pub open spec fn reads_as_opt_time(v: SqlValue, o: Option<Timestamp>) -> bool {
    match o {
        Some(t) => reads_as_time(v, t),
        None => v is Null,
    }
}

pub open spec fn readable_opt_time(v: SqlValue) -> bool {
    v is Null || readable_time(v)
}

/// The text cell that holds `t`; fails where chrono cannot write `t`.
pub fn time_cell(t: &Timestamp) -> (r: Result<SqlValue, RecordError>)
    ensures
        match r {
            Ok(v) => holds_time(v, *t),
            Err(e) => e == RecordError::SerializationFailure && !writable_time(*t),
        },
{
    match t.to_rfc3339() {
        Some(s) => Ok(SqlValue::Text(s)),
        None => Err(RecordError::SerializationFailure),
    }
}

/// The cell that holds an optional instant.
pub fn opt_time_cell(o: &Option<Timestamp>) -> (r: Result<SqlValue, RecordError>)
    ensures
        match r {
            Ok(v) => holds_opt_time(v, *o),
            Err(e) => e == RecordError::SerializationFailure && !writable_opt_time(*o),
        },
{
    match o {
        Some(t) => time_cell(t),
        None => Ok(SqlValue::Null),
    }
}

/// The cell of an optional text.
pub fn opt_text_value(o: &Option<String>) -> (r: SqlValue)
    ensures
        r == opt_text_cell(*o),
{
    match o {
        Some(s) => SqlValue::Text(s.clone()),
        None => SqlValue::Null,
    }
}

/// The cell of an optional integer.
pub fn opt_int_value(o: &Option<i64>) -> (r: SqlValue)
    ensures
        r == opt_int_cell(*o),
{
    match o {
        Some(n) => SqlValue::Integer(*n),
        None => SqlValue::Null,
    }
}

/// Reads an integer in [lo, hi].
pub fn read_int(v: &SqlValue, lo: i64, hi: i64) -> (r: Result<i64, RecordError>)
    ensures
        match r {
            Ok(n) => int_in(*v, lo as int, hi as int) && n == int_of_cell(*v),
            Err(e) => e == RecordError::SerializationFailure && !int_in(*v, lo as int, hi as int),
        },
{
    match v {
        SqlValue::Integer(n) => {
            if lo <= *n && *n <= hi {
                Ok(*n)
            } else {
                Err(RecordError::SerializationFailure)
            }
        },
        _ => Err(RecordError::SerializationFailure),
    }
}

/// Reads a text.
pub fn read_text(v: &SqlValue) -> (r: Result<String, RecordError>)
    ensures
        match r {
            Ok(s) => *v == SqlValue::Text(s),
            Err(e) => e == RecordError::SerializationFailure && !(v is Text),
        },
{
    match v {
        SqlValue::Text(s) => Ok(s.clone()),
        _ => Err(RecordError::SerializationFailure),
    }
}

/// Reads an optional text: null or a text.
pub fn read_opt_text(v: &SqlValue) -> (r: Result<Option<String>, RecordError>)
    ensures
        match r {
            Ok(o) => *v == opt_text_cell(o),
            Err(e) => e == RecordError::SerializationFailure && v is Integer,
        },
{
    match v {
        SqlValue::Text(s) => Ok(Some(s.clone())),
        SqlValue::Null => Ok(None),
        _ => Err(RecordError::SerializationFailure),
    }
}

/// Reads an optional integer: null or an integer.
pub fn read_opt_int(v: &SqlValue) -> (r: Result<Option<i64>, RecordError>)
    ensures
        match r {
            Ok(o) => *v == opt_int_cell(o),
            Err(e) => e == RecordError::SerializationFailure && v is Text,
        },
{
    match v {
        SqlValue::Integer(n) => Ok(Some(*n)),
        SqlValue::Null => Ok(None),
        _ => Err(RecordError::SerializationFailure),
    }
}

/// Reads an instant from its RFC 3339 text.
pub fn read_time(v: &SqlValue) -> (r: Result<Timestamp, RecordError>)
    ensures
        match r {
            Ok(t) => reads_as_time(*v, t),
            Err(e) => e == RecordError::SerializationFailure && !readable_time(*v),
        },
{
    match v {
        SqlValue::Text(s) => match Timestamp::parse_rfc3339(s.as_str()) {
            Some(t) => Ok(t),
            None => Err(RecordError::SerializationFailure),
        },
        _ => Err(RecordError::SerializationFailure),
    }
}

/// Reads an optional instant: null or an RFC 3339 text.
pub fn read_opt_time(v: &SqlValue) -> (r: Result<Option<Timestamp>, RecordError>)
    ensures
        match r {
            Ok(o) => reads_as_opt_time(*v, o),
            Err(e) => e == RecordError::SerializationFailure && !readable_opt_time(*v),
        },
{
    match v {
        SqlValue::Null => Ok(None),
        _ => match read_time(v) {
            Ok(t) => Ok(Some(t)),
            Err(e) => Err(e),
        },
    }
}

/// How many of `available` rows a query limited to `limit` returns: none
/// for a limit of zero or less.
pub fn rows_to_take(limit: i64, available: usize) -> (r: usize)
    ensures
        r == if limit <= 0 { 0 } else if limit as int >= available { available as int } else { limit as int },
{
    if limit <= 0 {
        0
    } else if limit as u64 >= available as u64 {
        available
    } else {
        limit as usize
    }
}

} // verus!
