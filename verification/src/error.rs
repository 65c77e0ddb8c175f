//! The library's error type: a kind and a human-readable message.

use vstd::prelude::*;

verus! {

/// What went wrong, with the message shown to the user.
#[derive(Debug, Clone, PartialEq, Eq)]
pub enum RiptskError {
    General(String),
    Config(String),
    Auth(String),
    Unreachable(String),
    NotFound(String),
    Conflict(String),
    Unregistered(String),
    Io(String),
    Other(String),
}

impl RiptskError {
    /// The message carried by an error of any kind.
    pub open spec fn message(&self) -> Seq<char> {
        match self {
            RiptskError::General(m) => m@,
            RiptskError::Config(m) => m@,
            RiptskError::Auth(m) => m@,
            RiptskError::Unreachable(m) => m@,
            RiptskError::NotFound(m) => m@,
            RiptskError::Conflict(m) => m@,
            RiptskError::Unregistered(m) => m@,
            RiptskError::Io(m) => m@,
            RiptskError::Other(m) => m@,
        }
    }

    /// The message, as shown to the user.
    pub fn to_string(&self) -> (r: String)
        ensures
            r@ == self.message(),
    {
        match self {
            RiptskError::General(m) => m.clone(),
            RiptskError::Config(m) => m.clone(),
            RiptskError::Auth(m) => m.clone(),
            RiptskError::Unreachable(m) => m.clone(),
            RiptskError::NotFound(m) => m.clone(),
            RiptskError::Conflict(m) => m.clone(),
            RiptskError::Unregistered(m) => m.clone(),
            RiptskError::Io(m) => m.clone(),
            RiptskError::Other(m) => m.clone(),
        }
    }
}

} // verus!
