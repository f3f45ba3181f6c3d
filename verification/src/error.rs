//! The errors of the application and their messages.

use vstd::prelude::*;
use vstd::string::*;
use vstd::view::View as _;
use crate::text::{owned, push_str};

verus! {

/// An error of the application.  The database and I/O errors keep the message
/// of the error they came from.
pub enum AppError {
    Database(String),
    Io(String),
    Validation(String),
    NotFound(String),
    AlreadyExists(String),
    Other(String),
}

/// The message of an error.
pub open spec fn error_text(e: AppError) -> Seq<char> {
    match e {
        AppError::Database(m) => "Databasfel: "@ + m@,
        AppError::Io(m) => "IO-fel: "@ + m@,
        AppError::Validation(m) => "Valideringsfel: "@ + m@,
        AppError::NotFound(m) => "Hittades inte: "@ + m@,
        AppError::AlreadyExists(m) => "Redan finns: "@ + m@,
        AppError::Other(m) => m@,
    }
}

fn prefixed(prefix: &str, m: &String) -> (r: String)
    ensures
        r@ == prefix@ + m@,
{
    let mut t = owned(prefix);
    push_str(&mut t, m.as_str());
    t
}

impl AppError {
    /// A failed validation.
    pub fn validation(msg: String) -> (e: AppError)
        ensures
            e == AppError::Validation(msg),
    {
        AppError::Validation(msg)
    }

    /// Something that was looked for is missing.
    pub fn not_found(msg: String) -> (e: AppError)
        ensures
            e == AppError::NotFound(msg),
    {
        AppError::NotFound(msg)
    }

    /// Something that was to be made exists already.
    pub fn already_exists(msg: String) -> (e: AppError)
        ensures
            e == AppError::AlreadyExists(msg),
    {
        AppError::AlreadyExists(msg)
    }

    /// Any other error, with its message.
    pub fn other(msg: String) -> (e: AppError)
        ensures
            e == AppError::Other(msg),
    {
        AppError::Other(msg)
    }

    /// The message of the error.
    pub fn message(&self) -> (r: String)
        ensures
            r@ == error_text(*self),
    {
        match self {
            AppError::Database(m) => prefixed("Databasfel: ", m),
            AppError::Io(m) => prefixed("IO-fel: ", m),
            AppError::Validation(m) => prefixed("Valideringsfel: ", m),
            AppError::NotFound(m) => prefixed("Hittades inte: ", m),
            AppError::AlreadyExists(m) => prefixed("Redan finns: ", m),
            AppError::Other(m) => m.clone(),
        }
    }
}

} // verus!
