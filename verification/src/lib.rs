//! Provisioning and mounting of GPG-protected encrypted filesystem
//! repositories.
//!
//! The library is the decision-making core of the tool: it validates inputs,
//! lays out repository paths, and constructs the exact command lines for the
//! external GPG and encrypted-filesystem binaries.  It performs no I/O
//! itself: callers observe the filesystem, hand the observed facts in as
//! plain values, receive a plan (paths, permission changes, command
//! descriptors) and carry it out.

pub mod cli;
pub mod error;
pub mod ops;
pub mod pathutil;
pub mod process;
pub mod strutil;

use vstd::prelude::*;

verus! {

/// The platform whose encrypted-filesystem backend is in use: it decides the
/// path separator, which backend binaries are invoked, and whether
/// drive-letter mount points are recognised.
#[derive(Debug)]
pub enum Platform {
    Posix,
    Windows,
}

impl Platform {
    /// The path separator character used when joining paths on this platform.
    pub open spec fn sep_spec(self) -> char {
        match self {
            Platform::Posix => '/',
            Platform::Windows => '\\',
        }
    }

    pub fn sep(&self) -> (c: char)
        ensures
            c == self.sep_spec(),
    {
        match self {
            Platform::Posix => '/',
            Platform::Windows => '\\',
        }
    }

    pub open spec fn is_windows_spec(self) -> bool {
        self is Windows
    }

    pub fn is_windows(&self) -> (r: bool)
        ensures
            r == self.is_windows_spec(),
    {
        match self {
            Platform::Posix => false,
            Platform::Windows => true,
        }
    }
}

} // verus!
