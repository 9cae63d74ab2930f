use vstd::prelude::*;

verus! {

/// Why an operation on a record failed.
#[derive(Clone, Copy, Debug, PartialEq, Eq, Structural)]
pub enum RecordError {
    /// No stored record has the identifier asked for.
    NotFound,
    /// A stored value could not be read back: a malformed variant tag,
    /// mapping text or timestamp, or a column of the wrong kind.
    SerializationFailure,
    /// The store refused a write, as an update of a record never saved.
    ConstraintViolation,
    /// The store has not been opened.
    StoreUnavailable,
    /// The operation does not apply in the record's current state.
    InvalidState,
}

/// The sentence that describes each kind of failure.
pub open spec fn error_text(e: RecordError) -> Seq<char> {
    match e {
        RecordError::NotFound => "record not found"@,
        RecordError::SerializationFailure => "stored value could not be read"@,
        RecordError::ConstraintViolation => "store constraint violated"@,
        RecordError::StoreUnavailable => "database not initialized"@,
        RecordError::InvalidState => "operation not valid in the current state"@,
    }
}

impl RecordError {
    /// A sentence that describes the failure.
    pub fn describe(&self) -> (r: String)
        ensures
            r@ == error_text(*self),
    {
        let s = match self {
            RecordError::NotFound => "record not found",
            RecordError::SerializationFailure => "stored value could not be read",
            RecordError::ConstraintViolation => "store constraint violated",
            RecordError::StoreUnavailable => "database not initialized",
            RecordError::InvalidState => "operation not valid in the current state",
        };
        String::from_str(s)
    }
}

} // verus!
