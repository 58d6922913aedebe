//! How a failed request is answered: its status code and message.

use vstd::prelude::*;

verus! {

/// The kinds of failure a request can end in.
#[derive(Debug, Clone, Copy, PartialEq, Eq, Structural)]
pub enum ErrorKind {
    NotFound,
    Hashing,
    Template,
    Database,
    Session,
}

/// The HTTP status of a failure: 404 for a missing page, 500 otherwise.
pub open spec fn status_of(kind: ErrorKind) -> u16 {
    match kind {
        ErrorKind::NotFound => 404,
        _ => 500,
    }
}

impl ErrorKind {
    /// The status code the error page is served with.
    pub fn status(&self) -> (r: u16)
        ensures
            r == status_of(*self),
    {
        match self {
            ErrorKind::NotFound => 404,
            _ => 500,
        }
    }

    /// The message the error page shows.
    pub fn message(&self) -> (r: &'static str)
        ensures
            r@ == match *self {
                ErrorKind::NotFound => "That page doesn't exist."@,
                ErrorKind::Hashing => "The password could not be hashed."@,
                ErrorKind::Template => "The page failed to render."@,
                ErrorKind::Database => "A database query failed."@,
                ErrorKind::Session => "The session store failed."@,
            },
    {
        match self {
            ErrorKind::NotFound => "That page doesn't exist.",
            ErrorKind::Hashing => "The password could not be hashed.",
            ErrorKind::Template => "The page failed to render.",
            ErrorKind::Database => "A database query failed.",
            ErrorKind::Session => "The session store failed.",
        }
    }
}

} // verus!
