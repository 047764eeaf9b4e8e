use tosub::{ExitCode, GenericError, IntoExitCode, IntoExitCodeResult};

#[test]
fn codes() {
    assert_eq!(ExitCode::success().code, 0);
    assert_eq!(ExitCode::failure().code, 1);
    assert_eq!(ExitCode::from(143).code, 143);
}

#[test]
fn values_as_exit_codes() {
    assert_eq!(ExitCode::from(9).into_exit_code(), ExitCode::from(9));
    assert_eq!(().into_exit_code(), ExitCode::success());
}

#[test]
fn values_as_results() {
    let code = ExitCode::from(9).into_exit_code_result();
    assert!(matches!(code, Ok(ExitCode { code: 9 })));
    assert!(().into_exit_code_result().is_ok());
    let good: Result<(), GenericError> = Ok(());
    assert!(matches!(good.into_exit_code_result(), Ok(ExitCode { code: 0 })));
    let bad: Result<(), GenericError> = Err(GenericError::new("a".to_string(), "b".to_string()));
    let error = bad.into_exit_code_result().err().unwrap();
    assert_eq!((error.to_string(), error.to_debug_string()), ("a".to_string(), "b".to_string()));
}
