//! Repository operations: creating, mounting and unmounting encrypted
//! repositories.
//!
//! Each operation validates its inputs against facts the caller observed on
//! the filesystem and returns a plan: the paths to lay out, the permission
//! changes to apply, and the external commands to run, in order.  Carrying
//! the plan out — creating directories, spawning the GPG and backend
//! binaries — is the caller's business; the first failing step aborts the
//! rest, and nothing already created is rolled back.

pub mod linux;
pub mod windows;

use vstd::prelude::*;
use crate::Platform;
use crate::error::OpError;
use crate::pathutil::{
    is_absolute,
    is_absolute_spec,
    is_drive_letter_spec,
    is_windows_drive_letter,
    join_path,
    join_path_spec,
};
use crate::process::CommandSpec;
use crate::strutil::{is_blank, str_is_blank, trim_spec, trim_str};

verus! {

/// A permission change to apply to one path: the numeric POSIX mode the
/// path is to get.  On platforms without POSIX modes the change is a no-op
/// for the caller to skip.
#[derive(Debug)]
pub struct ModeChange {
    pub path: String,
    pub mode: u32,
}

/// The owner-only file permissions (mode 0600) for secrets: the encrypted
/// passphrase and the engine configuration.
pub fn set_secret_mode(path: &String) -> (m: ModeChange)
    ensures
        m.path@ == path@,
        m.mode == 0o600,
{
    ModeChange { path: path.clone(), mode: 0o600 }
}

/// The owner-only directory permissions (mode 0700) for the repository,
/// its ciphertext store, and created mount points.
pub fn set_dir_mode(path: &String) -> (m: ModeChange)
    ensures
        m.path@ == path@,
        m.mode == 0o700,
{
    ModeChange { path: path.clone(), mode: 0o700 }
}

/// The arguments of the GPG invocation that generates the random
/// passphrase: 64 bytes of armored random data.
pub open spec fn gen_random_args() -> Seq<Seq<char>> {
    seq!["--gen-random"@, "--armor"@, "0"@, "64"@]
}

/// The GPG command that generates the 64-byte random passphrase.
pub fn gpg_gen_random_cmd() -> (cmd: CommandSpec)
    ensures
        cmd.program@ == "gpg"@,
        cmd.args_view() == gen_random_args(),
{
    let mut args: Vec<String> = Vec::new();
    args.push(String::from_str("--gen-random"));
    args.push(String::from_str("--armor"));
    args.push(String::from_str("0"));
    args.push(String::from_str("64"));
    proof {
        assert(args.deep_view() =~= gen_random_args());
    }
    CommandSpec { program: String::from_str("gpg"), args }
}

/// The arguments of the GPG invocation that encrypts and signs the
/// passphrase for `user`, writing the ciphertext to `out`.
pub open spec fn encrypt_args(user: Seq<char>, out: Seq<char>) -> Seq<Seq<char>> {
    seq!["--encrypt"@, "--sign"@, "-r"@, user, "-o"@, out]
}

/// The GPG command that encrypts and signs its standard input for `user`,
/// writing to `out`.
pub fn gpg_encrypt_cmd(user: &String, out: &String) -> (cmd: CommandSpec)
    ensures
        cmd.program@ == "gpg"@,
        cmd.args_view() == encrypt_args(user@, out@),
{
    let mut args: Vec<String> = Vec::new();
    args.push(String::from_str("--encrypt"));
    args.push(String::from_str("--sign"));
    args.push(String::from_str("-r"));
    args.push(user.clone());
    args.push(String::from_str("-o"));
    args.push(out.clone());
    proof {
        assert(args.deep_view() =~= encrypt_args(user@, out@));
    }
    CommandSpec { program: String::from_str("gpg"), args }
}

/// The GPG command that decrypts `file` to its standard output.
pub fn gpg_decrypt_cmd(file: &String) -> (cmd: CommandSpec)
    ensures
        cmd.program@ == "gpg"@,
        cmd.args_view() == seq!["--decrypt"@, file@],
{
    let mut args: Vec<String> = Vec::new();
    args.push(String::from_str("--decrypt"));
    args.push(file.clone());
    proof {
        assert(args.deep_view() =~= seq!["--decrypt"@, file@]);
    }
    CommandSpec { program: String::from_str("gpg"), args }
}

/// The plan `create` hands back: the repository layout to establish and
/// the passphrase pipeline to run, in order — create `objects_dir` and its
/// parents, apply the two directory modes, run the random-generation
/// command piped into the encryption command, then apply the passphrase
/// file mode.  Backend initialization follows separately.
#[derive(Debug)]
pub struct CreatePlan {
    pub repo_dir: String,
    pub objects_dir: String,
    pub passphrase_file: String,
    pub repo_mode: ModeChange,
    pub objects_mode: ModeChange,
    pub gen_random_cmd: CommandSpec,
    pub encrypt_cmd: CommandSpec,
    pub passphrase_mode: ModeChange,
}

/// Validates a `create` request and lays out the new repository.
///
/// `repo_dir` is the already-resolved absolute target directory and
/// `repo_dir_exists` whether it is present on disk.  A blank recipient is
/// rejected with `InvalidInput`, an existing target with `AlreadyExists`;
/// neither rejection plans any filesystem write.  Otherwise the plan pins
/// the exact layout: `objects/` and the repository itself owner-only
/// (mode 0700), the passphrase generated by `gpg --gen-random --armor 0 64`
/// piped into `gpg --encrypt --sign -r <user> -o <repo>/passphrase.gpg`,
/// and the passphrase file owner-only (mode 0600).
pub fn create(user: &String, repo_dir: &String, repo_dir_exists: bool, p: &Platform) -> (r: Result<
    CreatePlan,
    OpError,
>)
    ensures
        r is Ok <==> (!is_blank(user@) && !repo_dir_exists),
        match r {
            Err(e) => if is_blank(user@) {
                e is InvalidInput && e.message_view() == "GPG user/email is required (-u/--user)"@
            } else {
                e is AlreadyExists && e.message_view() == "directory '"@ + repo_dir@
                    + "' already exists"@
            },
            Ok(plan) => {
                &&& plan.repo_dir@ == repo_dir@
                &&& plan.objects_dir@ == join_path_spec(repo_dir@, "objects"@, p.sep_spec())
                &&& plan.passphrase_file@ == join_path_spec(
                    repo_dir@,
                    "passphrase.gpg"@,
                    p.sep_spec(),
                )
                &&& plan.repo_mode.path@ == repo_dir@ && plan.repo_mode.mode == 0o700
                &&& plan.objects_mode.path@ == plan.objects_dir@ && plan.objects_mode.mode == 0o700
                &&& plan.gen_random_cmd.program@ == "gpg"@
                &&& plan.gen_random_cmd.args_view() == gen_random_args()
                &&& plan.encrypt_cmd.program@ == "gpg"@
                &&& plan.encrypt_cmd.args_view() == encrypt_args(user@, plan.passphrase_file@)
                &&& plan.passphrase_mode.path@ == plan.passphrase_file@
                    && plan.passphrase_mode.mode == 0o600
            },
        },
{
    if str_is_blank(user.as_str()) {
        return Err(OpError::InvalidInput(String::from_str("GPG user/email is required (-u/--user)")));
    }
    if repo_dir_exists {
        let mut m = String::from_str("directory '");
        m.append(repo_dir.as_str());
        m.append("' already exists");
        proof {
            assert(m@ =~= "directory '"@ + repo_dir@ + "' already exists"@);
        }
        return Err(OpError::AlreadyExists(m));
    }
    let objects_dir = join_path(repo_dir.as_str(), "objects", p);
    let passphrase_file = join_path(repo_dir.as_str(), "passphrase.gpg", p);
    let repo_mode = set_dir_mode(repo_dir);
    let objects_mode = set_dir_mode(&objects_dir);
    let gen_random_cmd = gpg_gen_random_cmd();
    let encrypt_cmd = gpg_encrypt_cmd(user, &passphrase_file);
    let passphrase_mode = set_secret_mode(&passphrase_file);
    Ok(CreatePlan {
        repo_dir: repo_dir.clone(),
        objects_dir,
        passphrase_file,
        repo_mode,
        objects_mode,
        gen_random_cmd,
        encrypt_cmd,
        passphrase_mode,
    })
}

/// Judges the two-stage passphrase pipeline after both children exited.
/// The pipeline succeeds only when both stages exited with status zero; the
/// encryption stage's diagnostic is preferred when it failed, else the
/// generator's exit status is reported.
pub fn evaluate_pipeline(
    random_success: bool,
    random_status: &String,
    encrypt_success: bool,
    encrypt_stderr: &String,
) -> (r: Result<(), OpError>)
    ensures
        r is Ok <==> (random_success && encrypt_success),
        !encrypt_success ==> (match r {
            Err(e) => e is CommandFailed && e.message_view()
                == "gpg failed to encrypt passphrase: "@ + trim_spec(encrypt_stderr@),
            Ok(_) => false,
        }),
        encrypt_success && !random_success ==> (match r {
            Err(e) => e is CommandFailed && e.message_view()
                == "gpg --gen-random failed with status "@ + random_status@,
            Ok(_) => false,
        }),
{
    if !encrypt_success {
        let mut m = String::from_str("gpg failed to encrypt passphrase: ");
        let t = trim_str(encrypt_stderr.as_str());
        m.append(t.as_str());
        return Err(OpError::CommandFailed(m));
    }
    if !random_success {
        let mut m = String::from_str("gpg --gen-random failed with status ");
        m.append(random_status.as_str());
        return Err(OpError::CommandFailed(m));
    }
    Ok(())
}

/// The plan `mount` hands back once the repository layout has been
/// validated: where the passphrase and ciphertext live, and whether the
/// mount point directory must first be created (owner-only on POSIX).
/// Backend mounting follows separately.
#[derive(Debug)]
pub struct MountPlan {
    pub repo_dir: String,
    pub passphrase_file: String,
    pub cipher_dir: String,
    pub mount_point: String,
    pub create_mount_point: bool,
    pub mount_point_mode: ModeChange,
    pub apply_mode: bool,
}

/// Validates a `mount` request against the observed repository layout.
///
/// `repo_dir` is the already-resolved absolute repository directory;
/// `passphrase_is_file` and `objects_is_dir` are what the caller found at
/// `<repo_dir>/passphrase.gpg` and `<repo_dir>/objects`.  A repository
/// lacking either fails with `InvalidRepository` before any external
/// command is planned.  Otherwise the plan says whether to create the
/// mount point: never for a drive-letter token on Windows or a directory
/// that already exists, else it is created, owner-only (mode 0700) on
/// POSIX.
pub fn mount(
    repo_dir: &String,
    passphrase_is_file: bool,
    objects_is_dir: bool,
    mount_point: &String,
    mount_point_is_dir: bool,
    p: &Platform,
) -> (r: Result<MountPlan, OpError>)
    ensures
        r is Ok <==> (passphrase_is_file && objects_is_dir),
        match r {
            Err(e) => e is InvalidRepository && e.message_view()
                == "repository layout is invalid under '"@ + repo_dir@
                + "': expected passphrase.gpg and objects/"@,
            Ok(plan) => {
                &&& plan.repo_dir@ == repo_dir@
                &&& plan.passphrase_file@ == join_path_spec(
                    repo_dir@,
                    "passphrase.gpg"@,
                    p.sep_spec(),
                )
                &&& plan.cipher_dir@ == join_path_spec(repo_dir@, "objects"@, p.sep_spec())
                &&& plan.mount_point@ == mount_point@
                &&& plan.create_mount_point == !((p.is_windows_spec() && is_drive_letter_spec(
                    mount_point@,
                )) || mount_point_is_dir)
                &&& plan.mount_point_mode.path@ == mount_point@
                &&& plan.mount_point_mode.mode == 0o700
                &&& plan.apply_mode == (plan.create_mount_point && !p.is_windows_spec())
            },
        },
{
    let passphrase_file = join_path(repo_dir.as_str(), "passphrase.gpg", p);
    let cipher_dir = join_path(repo_dir.as_str(), "objects", p);
    if !passphrase_is_file || !objects_is_dir {
        let mut m = String::from_str("repository layout is invalid under '");
        m.append(repo_dir.as_str());
        m.append("': expected passphrase.gpg and objects/");
        proof {
            assert(m@ =~= "repository layout is invalid under '"@ + repo_dir@
                + "': expected passphrase.gpg and objects/"@);
        }
        return Err(OpError::InvalidRepository(m));
    }
    let skip = (p.is_windows() && is_windows_drive_letter(mount_point.as_str()))
        || mount_point_is_dir;
    let mount_point_mode = set_dir_mode(mount_point);
    Ok(MountPlan {
        repo_dir: repo_dir.clone(),
        passphrase_file,
        cipher_dir,
        mount_point: mount_point.clone(),
        create_mount_point: !skip,
        mount_point_mode,
        apply_mode: !skip && !p.is_windows(),
    })
}

/// The command that unmounts `mount_point`: the system FUSE-unmount
/// utility on POSIX, the driver binary's unmount form on Windows.
pub fn umount(mount_point: &String, p: &Platform) -> (cmd: CommandSpec)
    ensures
        !p.is_windows_spec() ==> cmd.program@ == "fusermount"@ && cmd.args_view() == seq![
            "-u"@,
            mount_point@,
        ],
        p.is_windows_spec() ==> cmd.program@ == "cppcryptfs.exe"@ && cmd.args_view() == seq![
            "--unmount="@ + mount_point@,
        ],
{
    if p.is_windows() {
        windows::umount_repository(mount_point)
    } else {
        linux::umount_repository(mount_point)
    }
}

/// Where a user-supplied mount point resolves to: a drive-letter token on
/// Windows and any absolute path are taken as they are; anything else is
/// resolved against the working directory.
pub open spec fn normalize_mount_point_spec(input: Seq<char>, cwd: Seq<char>, p: Platform) -> Seq<
    char,
> {
    if p.is_windows_spec() && is_drive_letter_spec(input) {
        input
    } else if is_absolute_spec(input, p) {
        input
    } else {
        join_path_spec(cwd, input, p.sep_spec())
    }
}

/// Normalizing is idempotent: as long as the working directory is itself
/// absolute, normalizing an already-normalized mount point returns it
/// unchanged.
pub proof fn lemma_normalize_idempotent(input: Seq<char>, cwd: Seq<char>, p: Platform)
    requires
        is_absolute_spec(cwd, p),
    ensures
        normalize_mount_point_spec(normalize_mount_point_spec(input, cwd, p), cwd, p)
            == normalize_mount_point_spec(input, cwd, p),
{
    if !(p.is_windows_spec() && is_drive_letter_spec(input)) && !is_absolute_spec(input, p) {
        crate::pathutil::lemma_join_preserves_absolute(cwd, input, p);
    }
}

/// Normalizes a user-supplied mount point against the working directory
/// `cwd`.  Pure: no existence check, no filesystem access.
pub fn normalize_mount_point(input: &str, cwd: &str, p: &Platform) -> (r: String)
    ensures
        r@ == normalize_mount_point_spec(input@, cwd@, *p),
        p.is_windows_spec() && is_drive_letter_spec(input@) ==> r@ == input@,
        is_absolute_spec(input@, *p) ==> r@ == input@,
        !(p.is_windows_spec() && is_drive_letter_spec(input@)) && !is_absolute_spec(input@, *p)
            ==> r@ == join_path_spec(cwd@, input@, p.sep_spec()),
{
    if p.is_windows() && is_windows_drive_letter(input) {
        return String::from_str(input);
    }
    if is_absolute(input, p) {
        return String::from_str(input);
    }
    join_path(cwd, input, p)
}

} // verus!
