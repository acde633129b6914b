use vstd::prelude::*;

verus! {

/// Server error code with which the document database reports a write that
/// breaks a unique index.
pub const MONGO_DUPLICATE_KEY_CODE: i32 = 11000;

/// The error kinds that the adapters report; nothing above them looks at a
/// backend's own error types.
#[derive(Clone, Debug)]
pub enum StoreError {
    /// The backend failed or could not be reached; its message is kept.
    Transport { message: String },
    /// An insert would break a uniqueness invariant.
    Conflict,
    /// A schema step failed; the run stopped in the unit named here, with
    /// what the backend said of the step.
    Migration { unit_id: String, message: String },
    /// A lookup by a unique key found more than one record.
    MultipleMatches,
    /// A stored record lacks a field that the model needs, or holds it with
    /// another type.
    MalformedRecord { field: String },
    /// A value that the backend's record layout cannot hold.
    Unrepresentable { field: String },
    /// An update names a record that the store does not hold.
    NotStored,
    /// A reference names a record that the store does not hold.
    DanglingReference,
}

/// How an operation ended, as a caller that is neutral about the backend sees it.
#[derive(Clone, Copy, Debug, PartialEq, Eq, Structural)]
pub enum Outcome {
    Success,
    Conflict,
    NotFound,
    Failure,
}

impl StoreError {
    pub open spec fn outcome_spec(&self) -> Outcome {
        match self {
            StoreError::Conflict => Outcome::Conflict,
            _ => Outcome::Failure,
        }
    }

    /// The outcome class of this error: a conflict, or another failure.
    pub fn outcome(&self) -> (r: Outcome)
        ensures
            r == self.outcome_spec(),
    {
        match self {
            StoreError::Conflict => Outcome::Conflict,
            _ => Outcome::Failure,
        }
    }
}

/// The outcome class of a document-database write failure.
pub open spec fn mongo_error_outcome(code: Option<i32>) -> Outcome {
    if code == Some(MONGO_DUPLICATE_KEY_CODE) {
        Outcome::Conflict
    } else {
        Outcome::Failure
    }
}

/// The outcome class of a key-value-store put failure.
pub open spec fn dynamo_error_outcome(condition_failed: bool) -> Outcome {
    if condition_failed {
        Outcome::Conflict
    } else {
        Outcome::Failure
    }
}

/// The outcome class of a lookup's result.
pub open spec fn found_outcome<T>(r: Result<Option<T>, StoreError>) -> Outcome {
    match r {
        Ok(Some(_)) => Outcome::Success,
        Ok(None) => Outcome::NotFound,
        Err(e) => e.outcome_spec(),
    }
}

/// The outcome class of a listing's result.
pub open spec fn list_outcome<T>(r: Result<Vec<T>, StoreError>) -> Outcome {
    match r {
        Ok(_) => Outcome::Success,
        Err(e) => e.outcome_spec(),
    }
}

/// The error kind of a failed document-database write, from the server's
/// error code (if the failure carried one) and its message.
pub fn mongo_write_error(code: Option<i32>, message: String) -> (r: StoreError)
    ensures
        code == Some(MONGO_DUPLICATE_KEY_CODE) ==> r is Conflict,
        code != Some(MONGO_DUPLICATE_KEY_CODE) ==> r == (StoreError::Transport { message }),
        r.outcome_spec() == mongo_error_outcome(code),
{
    match code {
        Some(c) if c == MONGO_DUPLICATE_KEY_CODE => StoreError::Conflict,
        _ => StoreError::Transport { message },
    }
}

/// The error kind of a failed conditional put in the key-value store: the
/// existence guard failing means an item with that partition key is there.
pub fn dynamo_put_error(condition_failed: bool, message: String) -> (r: StoreError)
    ensures
        condition_failed ==> r is Conflict,
        !condition_failed ==> r == (StoreError::Transport { message }),
        r.outcome_spec() == dynamo_error_outcome(condition_failed),
{
    if condition_failed {
        StoreError::Conflict
    } else {
        StoreError::Transport { message }
    }
}

/// The result of a document-database replacement by identity, from the
/// number of documents it matched: none means nothing was stored under
/// that identity. Replacing with the same value again gives the same result.
pub fn mongo_update_result(matched: u64) -> (r: Result<(), StoreError>)
    ensures
        matched == 0 ==> r is Err && r->Err_0 is NotStored,
        matched > 0 ==> r is Ok,
{
    if matched == 0 {
        Err(StoreError::NotStored)
    } else {
        Ok(())
    }
}

/// The error kind of a failed replacement in the key-value store: the
/// guard failing means no item has that partition key.
pub fn dynamo_update_error(condition_failed: bool, message: String) -> (r: StoreError)
    ensures
        condition_failed ==> r is NotStored,
        !condition_failed ==> r == (StoreError::Transport { message }),
{
    if condition_failed {
        StoreError::NotStored
    } else {
        StoreError::Transport { message }
    }
}

} // verus!
