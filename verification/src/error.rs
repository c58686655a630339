//! The errors that the gateway's services answer with.
use vstd::prelude::*;

verus! {

/// An error of a gateway service; messages are plain text.
#[derive(Debug, Clone)]
pub enum AppError {
    /// The addressed record does not exist.
    NotFound,
    /// The request cannot be served as it stands.
    BadRequest(String),
    /// The store failed.
    Internal(String),
    /// Another component failed; the message says which and how.
    Anyhow(String),
}

impl AppError {
    /// The error for a failure of the store, described by `err`.
    pub fn from_storage(err: String) -> (r: AppError)
        ensures
            r == AppError::Internal(err),
    {
        AppError::Internal(err)
    }
}

/// The message `"<what> failed: <err>"` with which a failed store
/// operation is reported.
pub open spec fn failure_message(what: Seq<char>, err: Seq<char>) -> Seq<char> {
    what + " failed: "@ + err
}

/// Reports that the store operation `what` failed with `err`.
pub fn operation_failed(what: &str, err: &str) -> (r: AppError)
    ensures
        r matches AppError::Anyhow(m) && m@ == failure_message(what@, err@),
{
    let mut m = String::from_str(what);
    m.append(" failed: ");
    m.append(err);
    AppError::Anyhow(m)
}

/// A record that was looked up: `NotFound` if there is none.
pub fn found<T>(record: Option<T>) -> (r: Result<T, AppError>)
    ensures
        match record {
            Some(t) => r == Ok::<T, AppError>(t),
            None => r matches Err(AppError::NotFound),
        },
{
    match record {
        Some(t) => Ok(t),
        None => Err(AppError::NotFound),
    }
}

} // verus!
