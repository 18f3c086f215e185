use vstd::prelude::*;

verus! {

/// `rusqlite::Error`, carried as a value of which nothing is known.
#[verifier::external_type_specification]
#[verifier::external_body]
pub struct ExSqlError(rusqlite::Error);

/// Why a stored row cannot be read as a task.
#[derive(Clone, Copy, Debug, PartialEq, Eq, Structural)]
pub enum DecodeError {
    /// The status column holds none of the five tokens.
    UnknownStatus,
    /// A timestamp column holds a text in neither of the accepted formats, or
    /// a wall-clock reading that the local zone skips.
    BadTimestamp,
}

/// What can go wrong between the board and its store.
#[derive(Debug)]
pub enum AppError {
    /// The storage engine refused a connection or a statement.
    Db(rusqlite::Error),
    /// A stored row cannot be read as a task.
    Decode(DecodeError),
    /// A timestamp of a task lies outside what the stored text can express.
    Encode,
}

} // verus!
