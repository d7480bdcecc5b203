use native::{ElevationError, Invocation, LsRootMethod, ProcessOutcome};

fn sudo(password: &str) -> LsRootMethod {
    LsRootMethod::Sudo { password: password.to_string() }
}

fn exited(success: bool, stdout: &[u8]) -> ProcessOutcome {
    ProcessOutcome::Exited { success, stdout: stdout.to_vec() }
}

#[test]
fn pkexec_runs_the_listing_under_the_agent() {
    let invocation = LsRootMethod::Pkexec.invocation();
    assert_eq!(
        invocation,
        Invocation {
            program: "pkexec".to_string(),
            args: vec!["ls".to_string(), "-la".to_string(), "/root".to_string()],
            stdin: None,
        }
    );
}

#[test]
fn sudo_reads_the_password_from_its_standard_input() {
    let invocation = sudo("correct").invocation();
    assert_eq!(
        invocation,
        Invocation {
            program: "sudo".to_string(),
            args: vec![
                "-S".to_string(),
                "ls".to_string(),
                "-la".to_string(),
                "/root".to_string(),
            ],
            stdin: Some("correct\n".to_string()),
        }
    );
}

#[test]
fn the_password_is_taken_as_it_is() {
    for password in ["", " padded ", "two words", "quote'\"$(id)`;|>", "line\nfeed", "pässwörd"] {
        let invocation = sudo(password).invocation();
        assert_eq!(invocation.stdin, Some(format!("{}\n", password)));
        assert_eq!(invocation.args.len(), 4);
        for arg in &invocation.args {
            assert!(!arg.contains(password) || password.is_empty());
        }
    }
}

#[test]
fn no_invocation_names_a_file_of_its_own() {
    for method in [LsRootMethod::Pkexec, sudo("secret")] {
        let invocation = method.invocation();
        assert!(invocation.program != "sh");
        for arg in &invocation.args {
            assert!(!arg.contains("/tmp"));
            assert!(!arg.contains('>'));
        }
    }
}

#[test]
fn different_passwords_give_different_invocations() {
    assert_ne!(sudo("one").invocation(), sudo("two").invocation());
    assert_eq!(sudo("one").invocation(), sudo("one").invocation());
}

#[test]
fn missing_agent_is_an_unavailable_tool() {
    assert_eq!(
        LsRootMethod::Pkexec.interpret(ProcessOutcome::SpawnFailed),
        Err(ElevationError::ElevationToolUnavailable)
    );
}

#[test]
fn sudo_that_cannot_start_is_unrecoverable() {
    assert_eq!(
        sudo("correct").interpret(ProcessOutcome::SpawnFailed),
        Err(ElevationError::Unrecoverable)
    );
}

#[test]
fn failure_of_the_process_is_a_denied_permission() {
    assert_eq!(
        LsRootMethod::Pkexec.interpret(exited(false, b"")),
        Err(ElevationError::PermissionDenied)
    );
    assert_eq!(
        sudo("wrong").interpret(exited(false, b"")),
        Err(ElevationError::PermissionDenied)
    );
}

#[test]
fn output_of_a_failed_process_is_not_a_listing() {
    assert_eq!(
        LsRootMethod::Pkexec.interpret(exited(false, b"total 0\n")),
        Err(ElevationError::PermissionDenied)
    );
    assert_eq!(
        sudo("").interpret(exited(false, b"\xff")),
        Err(ElevationError::PermissionDenied)
    );
}

#[test]
fn success_gives_the_lines_of_the_output() {
    let stdout = b"total 4\n-rw------- 1 root root 12 Jan  1 00:00 .profile\n";
    let expected =
        vec!["total 4".to_string(), "-rw------- 1 root root 12 Jan  1 00:00 .profile".to_string()];
    assert_eq!(LsRootMethod::Pkexec.interpret(exited(true, stdout)), Ok(expected.clone()));
    assert_eq!(sudo("correct").interpret(exited(true, stdout)), Ok(expected));
}

#[test]
fn success_without_output_gives_no_lines() {
    assert_eq!(LsRootMethod::Pkexec.interpret(exited(true, b"")), Ok(Vec::new()));
}

#[test]
fn output_is_read_as_utf8() {
    let stdout = "-rw------- 1 root root 0 Jan  1 00:00 résumé\n".as_bytes();
    assert_eq!(
        LsRootMethod::Pkexec.interpret(exited(true, stdout)),
        Ok(vec!["-rw------- 1 root root 0 Jan  1 00:00 résumé".to_string()])
    );
}

#[test]
fn output_that_is_no_text_is_unrecoverable() {
    assert_eq!(
        LsRootMethod::Pkexec.interpret(exited(true, b"total 0\n\xff\xfe\n")),
        Err(ElevationError::Unrecoverable)
    );
    assert_eq!(
        sudo("correct").interpret(exited(true, b"\xc3")),
        Err(ElevationError::Unrecoverable)
    );
}
