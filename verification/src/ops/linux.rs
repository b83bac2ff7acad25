//! The POSIX backend: command lines for the FUSE-based encrypted
//! filesystem engine.
//!
//! The engine never sees the plaintext passphrase from this tool: every
//! command carries an `extpass` hook that shells out to GPG decryption of
//! the passphrase file, and the engine invokes that hook itself whenever
//! it needs the passphrase.

use vstd::prelude::*;
use crate::Platform;
use crate::ops::{ModeChange, set_secret_mode};
use crate::pathutil::{join_path, join_path_spec};
use crate::process::CommandSpec;

verus! {

/// The `extpass` hook handed to the engine: a shell command that decrypts
/// the passphrase file with GPG, the path in double quotes.
pub open spec fn extpass_hook_spec(passphrase_file: Seq<char>) -> Seq<char> {
    "gpg --decrypt \""@ + passphrase_file + "\""@
}

/// Builds the `extpass` decryption hook for `passphrase_file`.
pub fn extpass_hook(passphrase_file: &String) -> (r: String)
    ensures
        r@ == extpass_hook_spec(passphrase_file@),
{
    let mut r = String::from_str("gpg --decrypt \"");
    r.append(passphrase_file.as_str());
    r.append("\"");
    r
}

/// The plan for initializing the engine: the init command to run, then the
/// owner-only permission change on the configuration file it wrote.
#[derive(Debug)]
pub struct InitPlan {
    pub cmd: CommandSpec,
    pub config_path: String,
    pub config_mode: ModeChange,
}

/// The engine's init invocation: deterministic filename encryption, the
/// configuration written to `<repo_dir>/gocryptfs.conf`, the passphrase
/// obtained through the GPG `extpass` hook, and the ciphertext store as
/// the directory to initialize.  The configuration file is made owner-only
/// (mode 0600) afterwards.
pub fn init_repository(repo_dir: &String, objects_dir: &String, passphrase_file: &String) -> (plan:
    InitPlan)
    ensures
        plan.config_path@ == join_path_spec(repo_dir@, "gocryptfs.conf"@, '/'),
        plan.cmd.program@ == "gocryptfs"@,
        plan.cmd.args_view() == seq![
            "-init"@,
            "--deterministic-names"@,
            "--config"@,
            plan.config_path@,
            "-extpass"@,
            extpass_hook_spec(passphrase_file@),
            objects_dir@,
        ],
        plan.config_mode.path@ == plan.config_path@ && plan.config_mode.mode == 0o600,
{
    let posix = Platform::Posix;
    let config_path = join_path(repo_dir.as_str(), "gocryptfs.conf", &posix);
    let mut args: Vec<String> = Vec::new();
    args.push(String::from_str("-init"));
    args.push(String::from_str("--deterministic-names"));
    args.push(String::from_str("--config"));
    args.push(config_path.clone());
    args.push(String::from_str("-extpass"));
    args.push(extpass_hook(passphrase_file));
    args.push(objects_dir.clone());
    let cmd = CommandSpec { program: String::from_str("gocryptfs"), args };
    proof {
        assert(cmd.args_view() =~= seq![
            "-init"@,
            "--deterministic-names"@,
            "--config"@,
            config_path@,
            "-extpass"@,
            extpass_hook_spec(passphrase_file@),
            objects_dir@,
        ]);
    }
    let config_mode = set_secret_mode(&config_path);
    InitPlan { cmd, config_path, config_mode }
}

/// The engine's mount invocation: the repository's configuration file, the
/// GPG `extpass` hook, any caller-supplied options passed through with
/// `-o`, then the ciphertext directory and the mount point.
pub fn mount_repository(
    cipher_dir: &String,
    passphrase_file: &String,
    mount_point: &String,
    options: &Option<String>,
    repo_dir: &String,
) -> (cmd: CommandSpec)
    ensures
        cmd.program@ == "gocryptfs"@,
        cmd.args_view() == {
            let head = seq![
                "--config"@,
                join_path_spec(repo_dir@, "gocryptfs.conf"@, '/'),
                "-extpass"@,
                extpass_hook_spec(passphrase_file@),
            ];
            let opts = match options {
                Some(o) => seq!["-o"@, o@],
                None => Seq::<Seq<char>>::empty(),
            };
            head + opts + seq![cipher_dir@, mount_point@]
        },
{
    let posix = Platform::Posix;
    let config_path = join_path(repo_dir.as_str(), "gocryptfs.conf", &posix);
    let mut args: Vec<String> = Vec::new();
    args.push(String::from_str("--config"));
    args.push(config_path);
    args.push(String::from_str("-extpass"));
    args.push(extpass_hook(passphrase_file));
    match options {
        Some(o) => {
            args.push(String::from_str("-o"));
            args.push(o.clone());
        },
        None => {},
    }
    args.push(cipher_dir.clone());
    args.push(mount_point.clone());
    let cmd = CommandSpec { program: String::from_str("gocryptfs"), args };
    proof {
        let head = seq![
            "--config"@,
            join_path_spec(repo_dir@, "gocryptfs.conf"@, '/'),
            "-extpass"@,
            extpass_hook_spec(passphrase_file@),
        ];
        match options {
            Some(o) => {
                assert(cmd.args_view() =~= head + seq!["-o"@, o@] + seq![
                    cipher_dir@,
                    mount_point@,
                ]);
            },
            None => {
                assert(cmd.args_view() =~= head + Seq::<Seq<char>>::empty() + seq![
                    cipher_dir@,
                    mount_point@,
                ]);
            },
        }
    }
    cmd
}

/// The system FUSE-unmount invocation against `mount_point`.
pub fn umount_repository(mount_point: &String) -> (cmd: CommandSpec)
    ensures
        cmd.program@ == "fusermount"@,
        cmd.args_view() == seq!["-u"@, mount_point@],
{
    let mut args: Vec<String> = Vec::new();
    args.push(String::from_str("-u"));
    args.push(mount_point.clone());
    let cmd = CommandSpec { program: String::from_str("fusermount"), args };
    proof {
        assert(cmd.args_view() =~= seq!["-u"@, mount_point@]);
    }
    cmd
}

} // verus!
