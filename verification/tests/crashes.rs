use tokio_util::sync::CancellationToken;
use tosub::{CrashHolder, ExitCode, GenericError, SubsystemError, SubsystemId, SubsystemResult};

fn holder() -> (CrashHolder, CancellationToken) {
    let token = CancellationToken::new();
    (CrashHolder::new(token.clone()), token)
}

fn failure(name: &str) -> SubsystemError {
    SubsystemError::Error(
        SubsystemId::unassigned(name.to_string()),
        GenericError::new("oops".to_string(), "Oops".to_string()),
    )
}

fn text(result: SubsystemResult) -> String {
    match result {
        Ok(code) => format!("exit {}", code.code),
        Err(error) => error.to_string(),
    }
}

#[test]
fn outcome_without_reports_is_success() {
    let (mut crash, token) = holder();
    assert_eq!(text(crash.take_crash()), "exit 0");
    assert!(!token.is_cancelled());
}

#[test]
fn exit_code_is_reported_and_stops_the_system() {
    let (mut crash, token) = holder();
    crash.set_exit_code(ExitCode::from(3));
    assert!(token.is_cancelled());
    assert_eq!(text(crash.take_crash()), "exit 3");
}

#[test]
fn last_exit_code_counts() {
    let (mut crash, _) = holder();
    crash.set_exit_code(ExitCode::from(3));
    crash.set_exit_code(ExitCode::from(130));
    assert_eq!(text(crash.take_crash()), "exit 130");
}

#[test]
fn first_crash_counts() {
    let (mut crash, token) = holder();
    crash.set_crash(failure("first"));
    assert!(token.is_cancelled());
    crash.set_crash(failure("second"));
    crash.set_crash(SubsystemError::ForcedShutdown);
    assert_eq!(
        text(crash.take_crash()),
        "Subsystem '0-first' terminated with error"
    );
}

#[test]
fn crash_outranks_exit_codes() {
    let (mut crash, _) = holder();
    crash.set_exit_code(ExitCode::from(2));
    crash.set_crash(failure("worker"));
    crash.set_exit_code(ExitCode::from(4));
    assert_eq!(
        text(crash.take_crash()),
        "Subsystem '0-worker' terminated with error"
    );
}

#[test]
fn taking_the_outcome_leaves_success() {
    let (mut crash, token) = holder();
    crash.set_crash(SubsystemError::ForcedShutdown);
    assert_eq!(
        text(crash.take_crash()),
        "Subsystem did not complete because it was forced to shut down"
    );
    assert_eq!(text(crash.take_crash()), "exit 0");
    assert!(token.is_cancelled());
    crash.set_exit_code(ExitCode::from(5));
    assert_eq!(text(crash.take_crash()), "exit 5");
}
