use cryptfs_cli::Platform;
use cryptfs_cli::error::OpError;
use cryptfs_cli::ops;

fn s(t: &str) -> String {
    t.to_string()
}

#[test]
fn create_lays_out_repository() {
    let p = Platform::Posix;
    let r = ops::create(&s("test@example.com"), &s("/tmp/r1"), false, &p);
    let plan = r.unwrap();
    assert_eq!(plan.repo_dir, "/tmp/r1");
    assert_eq!(plan.objects_dir, "/tmp/r1/objects");
    assert_eq!(plan.passphrase_file, "/tmp/r1/passphrase.gpg");
    assert_eq!(plan.repo_mode.path, "/tmp/r1");
    assert_eq!(plan.repo_mode.mode, 0o700);
    assert_eq!(plan.objects_mode.path, "/tmp/r1/objects");
    assert_eq!(plan.objects_mode.mode, 0o700);
    assert_eq!(plan.passphrase_mode.path, "/tmp/r1/passphrase.gpg");
    assert_eq!(plan.passphrase_mode.mode, 0o600);
    assert_eq!(plan.gen_random_cmd.program, "gpg");
    assert_eq!(
        plan.gen_random_cmd.args,
        vec![s("--gen-random"), s("--armor"), s("0"), s("64")]
    );
    assert_eq!(plan.encrypt_cmd.program, "gpg");
    assert_eq!(
        plan.encrypt_cmd.args,
        vec![
            s("--encrypt"),
            s("--sign"),
            s("-r"),
            s("test@example.com"),
            s("-o"),
            s("/tmp/r1/passphrase.gpg")
        ]
    );
}

#[test]
fn create_rejects_empty_recipient() {
    let p = Platform::Posix;
    let r = ops::create(&s(""), &s("/tmp/r1"), false, &p);
    let e = r.unwrap_err();
    assert!(matches!(e, OpError::InvalidInput(_)));
    assert_eq!(e.message(), "GPG user/email is required (-u/--user)");
}

#[test]
fn create_rejects_whitespace_recipient() {
    let p = Platform::Posix;
    let r = ops::create(&s(" \t\n "), &s("/tmp/r1"), false, &p);
    let e = r.unwrap_err();
    assert!(matches!(e, OpError::InvalidInput(_)));
    assert_eq!(e.message(), "GPG user/email is required (-u/--user)");
}

#[test]
fn create_rejects_existing_directory() {
    let p = Platform::Posix;
    let r = ops::create(&s("test@example.com"), &s("/tmp/r1"), true, &p);
    let e = r.unwrap_err();
    assert!(matches!(e, OpError::AlreadyExists(_)));
    assert_eq!(e.message(), "directory '/tmp/r1' already exists");
}

#[test]
fn mount_rejects_missing_passphrase() {
    let p = Platform::Posix;
    let r = ops::mount(&s("/tmp/r1"), false, true, &s("/tmp/m1"), false, &p);
    let e = r.unwrap_err();
    assert!(matches!(e, OpError::InvalidRepository(_)));
    assert_eq!(
        e.message(),
        "repository layout is invalid under '/tmp/r1': expected passphrase.gpg and objects/"
    );
}

#[test]
fn mount_rejects_missing_objects() {
    let p = Platform::Posix;
    let r = ops::mount(&s("/tmp/r1"), true, false, &s("/tmp/m1"), false, &p);
    let e = r.unwrap_err();
    assert!(matches!(e, OpError::InvalidRepository(_)));
}

#[test]
fn mount_plans_mount_point_creation() {
    let p = Platform::Posix;
    let plan = ops::mount(&s("/tmp/r1"), true, true, &s("/tmp/m1"), false, &p).unwrap();
    assert_eq!(plan.passphrase_file, "/tmp/r1/passphrase.gpg");
    assert_eq!(plan.cipher_dir, "/tmp/r1/objects");
    assert_eq!(plan.mount_point, "/tmp/m1");
    assert!(plan.create_mount_point);
    assert!(plan.apply_mode);
    assert_eq!(plan.mount_point_mode.path, "/tmp/m1");
    assert_eq!(plan.mount_point_mode.mode, 0o700);
}

#[test]
fn mount_skips_existing_mount_point() {
    let p = Platform::Posix;
    let plan = ops::mount(&s("/tmp/r1"), true, true, &s("/tmp/m1"), true, &p).unwrap();
    assert!(!plan.create_mount_point);
    assert!(!plan.apply_mode);
}

#[test]
fn mount_skips_drive_letter_on_windows() {
    let p = Platform::Windows;
    let plan = ops::mount(&s("C:\\r1"), true, true, &s("E:"), false, &p).unwrap();
    assert!(!plan.create_mount_point);
    assert!(!plan.apply_mode);
}

#[test]
fn umount_uses_fusermount_on_posix() {
    let p = Platform::Posix;
    let cmd = ops::umount(&s("/tmp/m1"), &p);
    assert_eq!(cmd.program, "fusermount");
    assert_eq!(cmd.args, vec![s("-u"), s("/tmp/m1")]);
}

#[test]
fn umount_uses_driver_binary_on_windows() {
    let p = Platform::Windows;
    let cmd = ops::umount(&s("E:"), &p);
    assert_eq!(cmd.program, "cppcryptfs.exe");
    assert_eq!(cmd.args, vec![s("--unmount=E:")]);
}

#[test]
fn normalize_keeps_absolute_path() {
    let p = Platform::Posix;
    let r = ops::normalize_mount_point("/mnt/data", "/home/user", &p);
    assert_eq!(r, "/mnt/data");
}

#[test]
fn normalize_joins_relative_path() {
    let p = Platform::Posix;
    let r = ops::normalize_mount_point("m1", "/home/user", &p);
    assert_eq!(r, "/home/user/m1");
}

#[test]
fn normalize_keeps_drive_letter_on_windows() {
    let p = Platform::Windows;
    let r = ops::normalize_mount_point("E:", "C:\\work", &p);
    assert_eq!(r, "E:");
}

#[test]
fn normalize_resolves_relative_on_windows() {
    let p = Platform::Windows;
    let r = ops::normalize_mount_point("m1", "C:\\work", &p);
    assert_eq!(r, "C:\\work\\m1");
}

#[test]
fn normalize_joins_non_letter_drive_token_on_windows() {
    let p = Platform::Windows;
    let r = ops::normalize_mount_point("1:", "C:\\work", &p);
    assert_eq!(r, "C:\\work\\1:");
}

#[test]
fn normalize_keeps_unc_path_on_windows() {
    let p = Platform::Windows;
    let r = ops::normalize_mount_point("\\\\server\\share", "C:\\work", &p);
    assert_eq!(r, "\\\\server\\share");
}

#[test]
fn normalize_keeps_windows_absolute() {
    let p = Platform::Windows;
    let r = ops::normalize_mount_point("C:\\mnt", "C:\\work", &p);
    assert_eq!(r, "C:\\mnt");
}

#[test]
fn pipeline_prefers_encryptor_diagnostic() {
    let r = ops::evaluate_pipeline(false, &s("exit status: 2"), false, &s(" bad key \n"));
    let e = r.unwrap_err();
    assert!(matches!(e, OpError::CommandFailed(_)));
    assert_eq!(e.message(), "gpg failed to encrypt passphrase: bad key");
}

#[test]
fn pipeline_reports_generator_status() {
    let r = ops::evaluate_pipeline(false, &s("exit status: 2"), true, &s(""));
    let e = r.unwrap_err();
    assert!(matches!(e, OpError::CommandFailed(_)));
    assert_eq!(e.message(), "gpg --gen-random failed with status exit status: 2");
}

#[test]
fn pipeline_succeeds_when_both_stages_do() {
    assert!(ops::evaluate_pipeline(true, &s(""), true, &s("")).is_ok());
}

#[test]
fn decrypt_command_shape() {
    let cmd = ops::gpg_decrypt_cmd(&s("/tmp/r1/passphrase.gpg"));
    assert_eq!(cmd.program, "gpg");
    assert_eq!(cmd.args, vec![s("--decrypt"), s("/tmp/r1/passphrase.gpg")]);
}

#[test]
fn mode_helpers_give_owner_only_permissions() {
    let m = ops::set_secret_mode(&s("/tmp/r1/passphrase.gpg"));
    assert_eq!(m.path, "/tmp/r1/passphrase.gpg");
    assert_eq!(m.mode, 0o600);
    let d = ops::set_dir_mode(&s("/tmp/r1"));
    assert_eq!(d.path, "/tmp/r1");
    assert_eq!(d.mode, 0o700);
}
