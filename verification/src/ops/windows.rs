//! The Windows backend: command lines for the driver-based encrypted
//! filesystem engine.
//!
//! Unlike the POSIX engine this one takes no decryption hook: the caller
//! decrypts the passphrase with GPG first (see `gpg_decrypt_cmd`) and
//! hands the plaintext in, which these functions place on the control
//! binary's standard input (init) or in the `--password` argument (mount),
//! trailing whitespace removed.

use vstd::prelude::*;
use crate::Platform;
use crate::ops::{ModeChange, set_secret_mode};
use crate::pathutil::{
    file_name,
    file_name_spec,
    is_drive_letter_spec,
    is_windows_drive_letter,
    join_path,
    join_path_spec,
    strip_trailing_sep,
    strip_trailing_sep_spec,
};
use crate::process::CommandSpec;
use crate::strutil::{trim_end_spec, trim_end_str};

verus! {

/// The volume name a repository is initialized with: the repository
/// directory's final path component (trailing separators ignored), or
/// `cryptfs` when the path yields none — when nothing is left after the
/// separators, or only a bare drive such as `C:`.
pub open spec fn volume_name_spec(repo_dir: Seq<char>) -> Seq<char> {
    let t = strip_trailing_sep_spec(repo_dir, '\\');
    if t.len() == 0 || is_drive_letter_spec(t) {
        "cryptfs"@
    } else {
        file_name_spec(t, '\\')
    }
}

/// The plan for initializing the engine: the control-binary command, the
/// trimmed passphrase to write to its standard input, the configuration
/// file to relocate from the ciphertext store up into the repository, and
/// the owner-only permission change on it.
#[derive(Debug)]
pub struct WinInitPlan {
    pub cmd: CommandSpec,
    pub stdin_payload: String,
    pub config_src: String,
    pub config_dst: String,
    pub config_mode: ModeChange,
}

/// The control binary's init invocation: the ciphertext store, the volume
/// name, deterministic filename encryption, and the decrypted passphrase
/// (trailing whitespace removed) on standard input.  The engine writes its
/// configuration into the ciphertext store; the plan relocates it up into
/// `repo_dir` and makes it owner-only (mode 0600).
pub fn init_repository(repo_dir: &String, objects_dir: &String, passphrase: &String) -> (plan:
    WinInitPlan)
    ensures
        plan.cmd.program@ == "cppcryptfsctl.exe"@,
        plan.cmd.args_view() == seq![
            "--init="@ + objects_dir@,
            "--volumename="@ + volume_name_spec(repo_dir@),
            "--deterministicnames"@,
        ],
        plan.stdin_payload@ == trim_end_spec(passphrase@),
        plan.config_src@ == join_path_spec(objects_dir@, "gocryptfs.conf"@, '\\'),
        plan.config_dst@ == join_path_spec(repo_dir@, "gocryptfs.conf"@, '\\'),
        plan.config_mode.path@ == plan.config_dst@ && plan.config_mode.mode == 0o600,
{
    let win = Platform::Windows;
    let stripped = strip_trailing_sep(repo_dir.as_str(), &win);
    let mut init_arg = String::from_str("--init=");
    init_arg.append(objects_dir.as_str());
    let mut volume_arg = String::from_str("--volumename=");
    if stripped.as_str().is_empty() || is_windows_drive_letter(stripped.as_str()) {
        volume_arg.append("cryptfs");
    } else {
        let volume = file_name(stripped.as_str(), &win);
        volume_arg.append(volume.as_str());
    }
    let mut args: Vec<String> = Vec::new();
    args.push(init_arg);
    args.push(volume_arg);
    args.push(String::from_str("--deterministicnames"));
    let cmd = CommandSpec { program: String::from_str("cppcryptfsctl.exe"), args };
    proof {
        assert(cmd.args_view() =~= seq![
            "--init="@ + objects_dir@,
            "--volumename="@ + volume_name_spec(repo_dir@),
            "--deterministicnames"@,
        ]);
    }
    let stdin_payload = trim_end_str(passphrase.as_str());
    let config_src = join_path(objects_dir.as_str(), "gocryptfs.conf", &win);
    let config_dst = join_path(repo_dir.as_str(), "gocryptfs.conf", &win);
    let config_mode = set_secret_mode(&config_dst);
    WinInitPlan { cmd, stdin_payload, config_src, config_dst, config_mode }
}

/// The plan for mounting: the driver-binary command, and whether
/// caller-supplied mount options were ignored (the driver's option surface
/// differs from the POSIX engine's, so they always are when present).
#[derive(Debug)]
pub struct WinMountPlan {
    pub cmd: CommandSpec,
    pub options_ignored: bool,
}

/// The driver binary's mount invocation: ciphertext store, drive token,
/// the decrypted passphrase (trailing whitespace removed) as the password
/// argument, the repository's configuration file, and the fixed flags
/// suppressing the foreground window.  Caller-supplied options are
/// accepted but ignored.
pub fn mount_repository(
    cipher_dir: &String,
    passphrase: &String,
    mount_point: &String,
    options: &Option<String>,
    repo_dir: &String,
) -> (plan: WinMountPlan)
    ensures
        plan.cmd.program@ == "cppcryptfs.exe"@,
        plan.cmd.args_view() == seq![
            "--mount="@ + cipher_dir@,
            "--drive="@ + mount_point@,
            "--password="@ + trim_end_spec(passphrase@),
            "--config="@ + join_path_spec(repo_dir@, "gocryptfs.conf"@, '\\'),
            "-t"@,
            "-x"@,
        ],
        plan.options_ignored == (options is Some),
{
    let win = Platform::Windows;
    let mut mount_arg = String::from_str("--mount=");
    mount_arg.append(cipher_dir.as_str());
    let mut drive_arg = String::from_str("--drive=");
    drive_arg.append(mount_point.as_str());
    let trimmed = trim_end_str(passphrase.as_str());
    let mut password_arg = String::from_str("--password=");
    password_arg.append(trimmed.as_str());
    let config_path = join_path(repo_dir.as_str(), "gocryptfs.conf", &win);
    let mut config_arg = String::from_str("--config=");
    config_arg.append(config_path.as_str());
    let mut args: Vec<String> = Vec::new();
    args.push(mount_arg);
    args.push(drive_arg);
    args.push(password_arg);
    args.push(config_arg);
    args.push(String::from_str("-t"));
    args.push(String::from_str("-x"));
    let cmd = CommandSpec { program: String::from_str("cppcryptfs.exe"), args };
    proof {
        assert(cmd.args_view() =~= seq![
            "--mount="@ + cipher_dir@,
            "--drive="@ + mount_point@,
            "--password="@ + trim_end_spec(passphrase@),
            "--config="@ + join_path_spec(repo_dir@, "gocryptfs.conf"@, '\\'),
            "-t"@,
            "-x"@,
        ]);
    }
    let options_ignored = match options {
        Some(_) => true,
        None => false,
    };
    WinMountPlan { cmd, options_ignored }
}

/// The driver binary's unmount invocation against the mount token.
pub fn umount_repository(mount_point: &String) -> (cmd: CommandSpec)
    ensures
        cmd.program@ == "cppcryptfs.exe"@,
        cmd.args_view() == seq!["--unmount="@ + mount_point@],
{
    let mut arg = String::from_str("--unmount=");
    arg.append(mount_point.as_str());
    let mut args: Vec<String> = Vec::new();
    args.push(arg);
    let cmd = CommandSpec { program: String::from_str("cppcryptfs.exe"), args };
    proof {
        assert(cmd.args_view() =~= seq!["--unmount="@ + mount_point@]);
    }
    cmd
}

} // verus!
