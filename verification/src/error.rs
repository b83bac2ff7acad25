//! The error taxonomy of the library.
//!
//! Every failure an operation can report is one of these variants, each
//! carrying a human-readable message.  The variant tells the caller what
//! went wrong in kind; the message is what the tool prints.

use vstd::prelude::*;

verus! {

/// Why an operation failed.
#[derive(Debug)]
pub enum OpError {
    /// A caller-supplied value was unusable (an empty recipient, text that
    /// is not valid UTF-8).
    InvalidInput(String),
    /// The target repository directory already exists.
    AlreadyExists(String),
    /// The repository directory lacks `passphrase.gpg` or `objects/`.
    InvalidRepository(String),
    /// An external binary could not be launched at all.
    SpawnFailed(String),
    /// An external binary ran but exited with a non-zero status; the
    /// message carries the captured diagnostic.
    CommandFailed(String),
    /// A directory, file or permission operation failed.
    IoFailed(String),
}

impl OpError {
    /// The message carried by the error, whatever its variant.
    pub open spec fn message_view(&self) -> Seq<char> {
        match self {
            OpError::InvalidInput(m) => m@,
            OpError::AlreadyExists(m) => m@,
            OpError::InvalidRepository(m) => m@,
            OpError::SpawnFailed(m) => m@,
            OpError::CommandFailed(m) => m@,
            OpError::IoFailed(m) => m@,
        }
    }

    /// Hands out the message for printing.
    pub fn message(&self) -> (r: &String)
        ensures
            r@ == self.message_view(),
    {
        match self {
            OpError::InvalidInput(m) => m,
            OpError::AlreadyExists(m) => m,
            OpError::InvalidRepository(m) => m,
            OpError::SpawnFailed(m) => m,
            OpError::CommandFailed(m) => m,
            OpError::IoFailed(m) => m,
        }
    }
}

} // verus!
