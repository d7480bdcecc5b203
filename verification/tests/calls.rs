use native::{
    ls_with_polkit, ls_with_sudo, Attempt, ElevationError, Invocation, LsRootMethod,
    ProcessOutcome, Step,
};
use std::cell::RefCell;

const ROOT_LISTING: &str = "total 8\ndrwx------  2 root root 4096 Jan  1 00:00 .\ndrwxr-xr-x 18 root root 4096 Jan  1 00:00 ..\n";

fn root_lines() -> Vec<String> {
    vec![
        "total 8".to_string(),
        "drwx------  2 root root 4096 Jan  1 00:00 .".to_string(),
        "drwxr-xr-x 18 root root 4096 Jan  1 00:00 ..".to_string(),
    ]
}

fn polkit_failed() -> Result<Vec<String>, ElevationError> {
    Err(ElevationError::ElevationFailed("polkit".to_string()))
}

fn pkexec_invocation() -> Invocation {
    Invocation {
        program: "pkexec".to_string(),
        args: vec!["ls".to_string(), "-la".to_string(), "/root".to_string()],
        stdin: None,
    }
}

fn sudo_invocation(password: &str) -> Invocation {
    Invocation {
        program: "sudo".to_string(),
        args: vec!["-S".to_string(), "ls".to_string(), "-la".to_string(), "/root".to_string()],
        stdin: Some(format!("{}\n", password)),
    }
}

/// A machine without any elevation tool.
fn nothing_installed(_: Invocation) -> ProcessOutcome {
    ProcessOutcome::SpawnFailed
}

/// `sudo` that knows the password `correct`, and an agent whose prompt is
/// always declined.
fn accepts_correct(invocation: Invocation) -> ProcessOutcome {
    let accepted = invocation == sudo_invocation("correct");
    ProcessOutcome::Exited {
        success: accepted,
        stdout: if accepted { ROOT_LISTING.as_bytes().to_vec() } else { Vec::new() },
    }
}

/// `sudo` that lets everyone in and lists a file named after the password.
fn echoes_password(invocation: Invocation) -> ProcessOutcome {
    let password = invocation.stdin.unwrap_or_default();
    ProcessOutcome::Exited {
        success: invocation.program == "sudo",
        stdout: format!("total 0\nowned-by-{}", password).into_bytes(),
    }
}

/// An agent whose prompt is always approved.
fn approves(invocation: Invocation) -> ProcessOutcome {
    ProcessOutcome::Exited {
        success: invocation.program == "pkexec",
        stdout: ROOT_LISTING.as_bytes().to_vec(),
    }
}

/// Keeps what a runner was handed, and answers as `answer` does.
fn recording<'a>(
    seen: &'a RefCell<Vec<Invocation>>,
    answer: fn(Invocation) -> ProcessOutcome,
) -> impl Fn(Invocation) -> ProcessOutcome + 'a {
    move |invocation: Invocation| {
        seen.borrow_mut().push(Invocation {
            program: invocation.program.clone(),
            args: invocation.args.clone(),
            stdin: invocation.stdin.clone(),
        });
        answer(invocation)
    }
}

#[test]
fn passwordless_listing_with_an_approved_prompt() {
    let seen = RefCell::new(Vec::new());
    assert_eq!(ls_with_polkit(recording(&seen, approves)), Ok(root_lines()));
    assert_eq!(seen.into_inner(), vec![pkexec_invocation()]);
}

#[test]
fn passwordless_listing_without_the_agent_fails_at_once() {
    let seen = RefCell::new(Vec::new());
    assert_eq!(ls_with_polkit(recording(&seen, nothing_installed)), polkit_failed());
    assert_eq!(seen.into_inner(), vec![pkexec_invocation()]);
}

#[test]
fn passwordless_listing_with_a_declined_prompt_fails() {
    let seen = RefCell::new(Vec::new());
    assert_eq!(ls_with_polkit(recording(&seen, accepts_correct)), polkit_failed());
    assert_eq!(seen.into_inner().len(), 1);
}

#[test]
fn passwordless_listing_with_unreadable_output_fails() {
    let garbled = |_: Invocation| ProcessOutcome::Exited { success: true, stdout: vec![0x80] };
    assert_eq!(ls_with_polkit(garbled), polkit_failed());
}

#[test]
fn passwordless_listing_of_an_empty_output() {
    let silent = |_: Invocation| ProcessOutcome::Exited { success: true, stdout: Vec::new() };
    assert_eq!(ls_with_polkit(silent), Ok(Vec::new()));
}

#[test]
fn correct_password_gives_the_listing() {
    let seen = RefCell::new(Vec::new());
    let listing = ls_with_sudo("correct".to_string(), recording(&seen, accepts_correct));
    assert_eq!(listing, Ok(root_lines()));
    assert!(!root_lines().is_empty());
    assert_eq!(seen.into_inner(), vec![sudo_invocation("correct")]);
}

#[test]
fn wrong_password_is_denied() {
    let seen = RefCell::new(Vec::new());
    let listing = ls_with_sudo("wrong".to_string(), recording(&seen, accepts_correct));
    assert_eq!(listing, Err(ElevationError::PermissionDenied));
    assert_eq!(seen.into_inner(), vec![sudo_invocation("wrong")]);
}

#[test]
fn empty_password_is_denied() {
    assert_eq!(
        ls_with_sudo(String::new(), accepts_correct),
        Err(ElevationError::PermissionDenied)
    );
}

#[test]
fn password_is_not_trimmed() {
    for password in [" correct", "correct ", "correct\n", "Correct"] {
        assert_eq!(
            ls_with_sudo(password.to_string(), accepts_correct),
            Err(ElevationError::PermissionDenied),
            "on {:?}",
            password
        );
    }
}

#[test]
fn password_listing_without_sudo_is_unrecoverable() {
    let seen = RefCell::new(Vec::new());
    let listing = ls_with_sudo("correct".to_string(), recording(&seen, nothing_installed));
    assert_eq!(listing, Err(ElevationError::Unrecoverable));
    assert_eq!(seen.into_inner().len(), 1);
}

#[test]
fn password_listing_with_unreadable_output_is_unrecoverable() {
    let garbled =
        |_: Invocation| ProcessOutcome::Exited { success: true, stdout: vec![b'a', 0xff] };
    assert_eq!(ls_with_sudo("correct".to_string(), garbled), Err(ElevationError::Unrecoverable));
}

#[test]
fn listings_with_different_passwords_receive_their_own_output() {
    for (first, second) in [("alpha", "beta"), ("beta", "alpha"), ("", "x"), ("same", "same")] {
        let one = ls_with_sudo(first.to_string(), echoes_password);
        let other = ls_with_sudo(second.to_string(), echoes_password);
        assert_eq!(one, Ok(vec!["total 0".to_string(), format!("owned-by-{}", first)]));
        assert_eq!(other, Ok(vec!["total 0".to_string(), format!("owned-by-{}", second)]));
    }
}

#[test]
fn a_call_can_be_run_step_by_step() {
    let attempt = Attempt::passwordless();
    assert_eq!(attempt.invocation(), pkexec_invocation());
    assert_eq!(attempt.invocation(), pkexec_invocation());
    let outcome = approves(attempt.invocation());
    assert_eq!(attempt.finish(outcome), Step::Done(Ok(root_lines())));
}

#[test]
fn a_step_ends_a_call_of_one_method_either_way() {
    assert_eq!(
        Attempt::passwordless().finish(ProcessOutcome::SpawnFailed),
        Step::Done(polkit_failed())
    );
    assert_eq!(
        Attempt::with_password("wrong".to_string())
            .finish(ProcessOutcome::Exited { success: false, stdout: Vec::new() }),
        Step::Done(Err(ElevationError::PermissionDenied))
    );
    assert_eq!(
        Attempt::with_password("correct".to_string()).finish(ProcessOutcome::SpawnFailed),
        Step::Done(Err(ElevationError::Unrecoverable))
    );
}

#[test]
fn running_to_the_end_is_stepping_to_the_end() {
    let answers: [fn(Invocation) -> ProcessOutcome; 4] =
        [nothing_installed, accepts_correct, echoes_password, approves];
    for answer in answers {
        let attempt = Attempt::passwordless();
        let outcome = answer(attempt.invocation());
        assert_eq!(Step::Done(Attempt::passwordless().complete(answer)), attempt.finish(outcome));
        let attempt = Attempt::with_password("correct".to_string());
        let outcome = answer(attempt.invocation());
        assert_eq!(
            Step::Done(Attempt::with_password("correct".to_string()).complete(answer)),
            attempt.finish(outcome)
        );
    }
}

#[test]
fn interleaved_calls_receive_their_own_output() {
    let first = Attempt::with_password("alpha".to_string());
    let second = Attempt::with_password("beta".to_string());
    let first_invocation = first.invocation();
    let second_invocation = second.invocation();
    assert_ne!(first_invocation, second_invocation);
    let second_outcome = echoes_password(second_invocation);
    let first_outcome = echoes_password(first_invocation);
    let first_step = first.finish(first_outcome);
    let second_step = second.finish(second_outcome);
    assert_eq!(
        second_step,
        Step::Done(Ok(vec!["total 0".to_string(), "owned-by-beta".to_string()]))
    );
    assert_eq!(
        first_step,
        Step::Done(Ok(vec!["total 0".to_string(), "owned-by-alpha".to_string()]))
    );
}

#[test]
fn many_calls_in_flight_receive_their_own_output() {
    let passwords: Vec<String> = (0..8).map(|i| format!("password-{}", i)).collect();
    let waiting: Vec<Attempt> =
        passwords.iter().map(|password| Attempt::with_password(password.clone())).collect();
    let outcomes: Vec<ProcessOutcome> =
        waiting.iter().rev().map(|attempt| echoes_password(attempt.invocation())).collect();
    let steps: Vec<Step> = waiting
        .into_iter()
        .zip(outcomes.into_iter().rev())
        .map(|(attempt, outcome)| attempt.finish(outcome))
        .collect();
    for (password, step) in passwords.iter().zip(steps) {
        let expected = vec!["total 0".to_string(), format!("owned-by-{}", password)];
        assert_eq!(step, Step::Done(Ok(expected)));
    }
}

#[test]
fn equal_calls_are_equal() {
    assert_eq!(Attempt::passwordless(), Attempt::passwordless());
    assert_eq!(Attempt::with_password("x".to_string()), Attempt::with_password("x".to_string()));
    assert_ne!(Attempt::with_password("x".to_string()), Attempt::with_password("y".to_string()));
    assert_ne!(Attempt::with_password(String::new()), Attempt::passwordless());
}

fn agent_then_sudo(password: &str, summary: Option<&str>) -> Attempt {
    let methods =
        vec![LsRootMethod::Pkexec, LsRootMethod::Sudo { password: password.to_string() }];
    Attempt::new(methods, summary.map(String::from)).unwrap()
}

#[test]
fn a_call_needs_a_method() {
    assert_eq!(Attempt::new(Vec::new(), None), None);
    assert_eq!(Attempt::new(Vec::new(), Some("none".to_string())), None);
}

#[test]
fn the_named_calls_are_calls_of_one_method() {
    assert_eq!(
        Attempt::new(vec![LsRootMethod::Pkexec], Some("polkit".to_string())),
        Some(Attempt::passwordless())
    );
    assert_eq!(
        Attempt::new(vec![LsRootMethod::Sudo { password: "pw".to_string() }], None),
        Some(Attempt::with_password("pw".to_string()))
    );
}

#[test]
fn methods_are_tried_in_order_until_one_succeeds() {
    let seen = RefCell::new(Vec::new());
    let listing =
        agent_then_sudo("correct", Some("any")).complete(recording(&seen, accepts_correct));
    assert_eq!(listing, Ok(root_lines()));
    assert_eq!(seen.into_inner(), vec![pkexec_invocation(), sudo_invocation("correct")]);
}

#[test]
fn the_first_success_ends_the_call() {
    let seen = RefCell::new(Vec::new());
    let listing = agent_then_sudo("correct", Some("any")).complete(recording(&seen, approves));
    assert_eq!(listing, Ok(root_lines()));
    assert_eq!(seen.into_inner(), vec![pkexec_invocation()]);
}

#[test]
fn failure_of_every_method_is_reported_under_the_summary() {
    let seen = RefCell::new(Vec::new());
    let listing =
        agent_then_sudo("wrong", Some("any")).complete(recording(&seen, accepts_correct));
    assert_eq!(listing, Err(ElevationError::ElevationFailed("any".to_string())));
    assert_eq!(seen.into_inner(), vec![pkexec_invocation(), sudo_invocation("wrong")]);
}

#[test]
fn without_a_summary_the_last_failure_is_reported() {
    assert_eq!(
        agent_then_sudo("wrong", None).complete(accepts_correct),
        Err(ElevationError::PermissionDenied)
    );
    assert_eq!(
        agent_then_sudo("correct", None).complete(nothing_installed),
        Err(ElevationError::Unrecoverable)
    );
    let agent_last = Attempt::new(
        vec![LsRootMethod::Sudo { password: "wrong".to_string() }, LsRootMethod::Pkexec],
        None,
    );
    assert_eq!(
        agent_last.unwrap().complete(nothing_installed),
        Err(ElevationError::ElevationToolUnavailable)
    );
}

#[test]
fn a_failed_method_hands_over_to_the_next() {
    let attempt = agent_then_sudo("correct", Some("any"));
    assert_eq!(attempt.invocation(), pkexec_invocation());
    let Step::Run(next) = attempt.finish(ProcessOutcome::SpawnFailed) else {
        panic!("the call ended with a method left to try");
    };
    assert_eq!(next.invocation(), sudo_invocation("correct"));
    let outcome = accepts_correct(next.invocation());
    assert_eq!(next.finish(outcome), Step::Done(Ok(root_lines())));
}

#[test]
fn the_same_method_may_stand_twice() {
    let seen = RefCell::new(Vec::new());
    let twice = Attempt::new(vec![LsRootMethod::Pkexec, LsRootMethod::Pkexec], None).unwrap();
    assert_eq!(
        twice.complete(recording(&seen, nothing_installed)),
        Err(ElevationError::ElevationToolUnavailable)
    );
    assert_eq!(seen.into_inner(), vec![pkexec_invocation(), pkexec_invocation()]);
}
