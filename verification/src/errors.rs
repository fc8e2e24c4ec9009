//! Errors of the engine, and their form for the end user.

use vstd::prelude::*;
use vstd::std_specs::convert::FromSpecImpl;
use vstd::string::*;

verus! {

/// All errors of the engine.
///
/// `InvalidArg`, `Duplicate` and `NotFound` are expected and shown to the
/// user; the others are failures of the store or broken invariants.
#[derive(Debug, PartialEq, Eq)]
pub enum Error {
    InvalidArg(String),
    Duplicate(String),
    NotFound(String),
    Internal(String),
    ParseError,
    Unreachable,
}

/// The errors that are reported to the end user.
#[derive(Debug, PartialEq, Eq)]
pub enum UserError {
    InvalidArg(String),
    Duplicate(String),
    NotFound(String),
    Internal(Error),
}

impl Error {
    /// The text of the error.
    pub open spec fn text(self) -> Seq<char> {
        match self {
            Error::InvalidArg(s) => "Invalid input: "@ + s@,
            Error::Duplicate(s) => "Duplicate data: "@ + s@,
            Error::NotFound(s) => "Not found: "@ + s@,
            Error::Internal(s) => s@,
            Error::ParseError => "Matching variant not found"@,
            Error::Unreachable => "Unreachable."@,
        }
    }

    /// An expected error, one that the user caused and may read.
    pub open spec fn is_user_error(self) -> bool {
        self is InvalidArg || self is Duplicate || self is NotFound
    }

    /// The text of the error.
    pub fn message(&self) -> (msg: String)
        ensures
            msg@ == self.text(),
    {
        match self {
            Error::InvalidArg(s) => String::from_str("Invalid input: ").concat(s.as_str()),
            Error::Duplicate(s) => String::from_str("Duplicate data: ").concat(s.as_str()),
            Error::NotFound(s) => String::from_str("Not found: ").concat(s.as_str()),
            Error::Internal(s) => s.clone(),
            Error::ParseError => String::from_str("Matching variant not found"),
            Error::Unreachable => String::from_str("Unreachable."),
        }
    }
}

impl Clone for Error {
    fn clone(&self) -> (copy: Self)
        ensures
            copy == *self,
    {
        match self {
            Error::InvalidArg(s) => Error::InvalidArg(s.clone()),
            Error::Duplicate(s) => Error::Duplicate(s.clone()),
            Error::NotFound(s) => Error::NotFound(s.clone()),
            Error::Internal(s) => Error::Internal(s.clone()),
            Error::ParseError => Error::ParseError,
            Error::Unreachable => Error::Unreachable,
        }
    }
}

impl UserError {
    /// What the user is told: the text of an expected error, and a fixed
    /// sentence for an internal one.
    pub open spec fn text(self) -> Seq<char> {
        match self {
            UserError::InvalidArg(s) => "Invalid input: "@ + s@,
            UserError::Duplicate(s) => "Duplicate data: "@ + s@,
            UserError::NotFound(s) => "Not found: "@ + s@,
            UserError::Internal(_) => "Internal Error! Please let Michael know."@,
        }
    }

    /// What the user is told. Internal errors are never shown in detail.
    pub fn report(&self) -> (msg: String)
        ensures
            msg@ == self.text(),
    {
        match self {
            UserError::InvalidArg(s) => String::from_str("Invalid input: ").concat(s.as_str()),
            UserError::Duplicate(s) => String::from_str("Duplicate data: ").concat(s.as_str()),
            UserError::NotFound(s) => String::from_str("Not found: ").concat(s.as_str()),
            UserError::Internal(_) => String::from_str("Internal Error! Please let Michael know."),
        }
    }
}

impl From<Error> for UserError {
    /// Expected errors pass through; every other error becomes `Internal`.
    fn from(e: Error) -> (u: UserError) {
        match e {
            Error::InvalidArg(s) => UserError::InvalidArg(s),
            Error::Duplicate(s) => UserError::Duplicate(s),
            Error::NotFound(s) => UserError::NotFound(s),
            other => UserError::Internal(other),
        }
    }
}

impl FromSpecImpl<Error> for UserError {
    open spec fn obeys_from_spec() -> bool {
        true
    }

    open spec fn from_spec(e: Error) -> UserError {
        match e {
            Error::InvalidArg(s) => UserError::InvalidArg(s),
            Error::Duplicate(s) => UserError::Duplicate(s),
            Error::NotFound(s) => UserError::NotFound(s),
            other => UserError::Internal(other),
        }
    }
}

} // verus!
