use cryptfs_cli::error::OpError;
use cryptfs_cli::process::{format_command, run_outcome, spawn_failed_error, CommandSpec, ProcessOutput};

fn s(t: &str) -> String {
    t.to_string()
}

fn output(success: bool, status: &str, stdout: &str, stderr: &str) -> ProcessOutput {
    ProcessOutput {
        success,
        status: s(status),
        stdout: s(stdout),
        stderr: s(stderr),
    }
}

#[test]
fn format_command_bare_program() {
    let cmd = CommandSpec { program: s("gpg"), args: vec![] };
    assert_eq!(format_command(&cmd), "gpg");
}

#[test]
fn format_command_joins_args_with_spaces() {
    let cmd = CommandSpec {
        program: s("gpg"),
        args: vec![s("--decrypt"), s("/tmp/r1/passphrase.gpg")],
    };
    assert_eq!(format_command(&cmd), "gpg --decrypt /tmp/r1/passphrase.gpg");
}

#[test]
fn success_returns_captured_output() {
    let r = run_outcome(&s("gpg --decrypt f"), output(true, "exit status: 0", "out", "err"));
    let out = r.unwrap();
    assert_eq!(out.stdout, "out");
    assert_eq!(out.stderr, "err");
}

#[test]
fn failure_quotes_stderr() {
    let r = run_outcome(&s("gpg --decrypt f"), output(false, "exit status: 2", "", " no key \n"));
    let e = r.unwrap_err();
    assert!(matches!(e, OpError::CommandFailed(_)));
    assert_eq!(e.message(), "`gpg --decrypt f` failed: stderr: no key");
}

#[test]
fn failure_quotes_both_streams() {
    let r = run_outcome(&s("c"), output(false, "exit status: 1", " partial \n", "bad\n"));
    let e = r.unwrap_err();
    assert_eq!(e.message(), "`c` failed: stderr: bad\nstdout: partial");
}

#[test]
fn failure_falls_back_to_stdout() {
    let r = run_outcome(&s("c"), output(false, "exit status: 1", "only out\n", " \t"));
    let e = r.unwrap_err();
    assert_eq!(e.message(), "`c` failed: stdout: only out");
}

#[test]
fn failure_falls_back_to_exit_status() {
    let r = run_outcome(&s("c"), output(false, "exit status: 3", "  ", "\n"));
    let e = r.unwrap_err();
    assert_eq!(e.message(), "`c` failed: exit status: exit status: 3");
}

#[test]
fn message_dispatch_covers_every_variant() {
    let cases = vec![
        OpError::InvalidInput(s("a")),
        OpError::AlreadyExists(s("b")),
        OpError::InvalidRepository(s("c")),
        OpError::SpawnFailed(s("d")),
        OpError::CommandFailed(s("e")),
        OpError::IoFailed(s("f")),
    ];
    let expected = vec!["a", "b", "c", "d", "e", "f"];
    for (err, want) in cases.iter().zip(expected.iter()) {
        assert_eq!(err.message(), want);
    }
}

#[test]
fn spawn_failure_names_command() {
    let e = spawn_failed_error(&s("gocryptfs -init"));
    assert!(matches!(e, OpError::SpawnFailed(_)));
    assert_eq!(e.message(), "failed to run `gocryptfs -init`");
}
