//! The command-line surface: parsed commands and their dispatch.
//!
//! Parsing the raw argument list is the caller's business; the types here
//! model the result of that parse, and [`run`] turns a parsed invocation
//! into the operation to perform, normalizing the mount point where one is
//! given.

use vstd::prelude::*;
use crate::Platform;
use crate::ops::{normalize_mount_point, normalize_mount_point_spec};

verus! {

/// One parsed command-line invocation.
pub struct Cli {
    pub command: Commands,
}

/// The subcommands the tool accepts.
pub enum Commands {
    /// Create a new encrypted repository for a GPG recipient.
    Create { user: String, repo_dir: String },
    /// Mount an encrypted repository at a mount point.
    Mount { options: Option<String>, repo_dir: String, mount_point: String },
    /// Unmount a mounted repository.
    Umount { mount_point: String },
}

/// The operation a parsed invocation asks for, with its mount point
/// normalized against the working directory.
pub enum Dispatch {
    Create { user: String, repo_dir: String },
    Mount { options: Option<String>, repo_dir: String, mount_point: String },
    Umount { mount_point: String },
}

/// Dispatches a parsed invocation: `create` passes through unchanged, while
/// `mount` and `umount` have their mount point normalized against `cwd`.
pub fn run(cli: Cli, cwd: &String, p: &Platform) -> (d: Dispatch)
    ensures
        match cli.command {
            Commands::Create { user, repo_dir } => d matches Dispatch::Create {
                user: u,
                repo_dir: r,
            } && u == user && r == repo_dir,
            Commands::Mount { options, repo_dir, mount_point } => d matches Dispatch::Mount {
                options: o,
                repo_dir: r,
                mount_point: m,
            } && o == options && r == repo_dir && m@ == normalize_mount_point_spec(
                mount_point@,
                cwd@,
                *p,
            ),
            Commands::Umount { mount_point } => d matches Dispatch::Umount { mount_point: m }
                && m@ == normalize_mount_point_spec(mount_point@, cwd@, *p),
        },
{
    match cli.command {
        Commands::Create { user, repo_dir } => Dispatch::Create { user, repo_dir },
        Commands::Mount { options, repo_dir, mount_point } => {
            let normalized = normalize_mount_point(mount_point.as_str(), cwd.as_str(), p);
            Dispatch::Mount { options, repo_dir, mount_point: normalized }
        },
        Commands::Umount { mount_point } => {
            let normalized = normalize_mount_point(mount_point.as_str(), cwd.as_str(), p);
            Dispatch::Umount { mount_point: normalized }
        },
    }
}

} // verus!
