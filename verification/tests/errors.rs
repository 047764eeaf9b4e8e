use tokio::task::JoinError;
use tosub::{
    GenErr, GenericError, IntoGenericError, IntoGenericResult, IntoSubsystemResult, SubsystemError,
    SubsystemId,
};

fn error() -> GenericError {
    GenericError::new("disk is full".to_string(), "DiskFull { free: 0 }".to_string())
}

fn id() -> SubsystemId {
    let mut id = SubsystemId::unassigned("root/db".to_string());
    id.set_task_id(12);
    id
}

fn panicked() -> JoinError {
    let runtime = tokio::runtime::Builder::new_current_thread().build().unwrap();
    runtime.block_on(async { tokio::spawn(async { panic!("boom") }).await.unwrap_err() })
}

#[test]
fn messages_of_errors() {
    assert_eq!(
        SubsystemError::Error(id(), error()).to_string(),
        "Subsystem '12-root/db' terminated with error"
    );
    assert_eq!(
        SubsystemError::Panic(id(), error()).to_string(),
        "Subsystem '12-root/db' panicked"
    );
    assert_eq!(
        SubsystemError::OrderlyShutdown.to_string(),
        "Subsystem did not complete because it was asked to shut down"
    );
    assert_eq!(
        SubsystemError::ForcedShutdown.to_string(),
        "Subsystem did not complete because it was forced to shut down"
    );
}

#[test]
fn sources_of_errors() {
    for with_source in [
        SubsystemError::Error(id(), error()),
        SubsystemError::Panic(id(), error()),
    ] {
        let source = with_source.source().unwrap();
        assert_eq!(source.to_string(), "disk is full");
        assert_eq!(source.to_debug_string(), "DiskFull { free: 0 }");
    }
    assert!(SubsystemError::OrderlyShutdown.source().is_none());
    assert!(SubsystemError::ForcedShutdown.source().is_none());
}

#[test]
fn cloned_errors_are_alike() {
    let copy = SubsystemError::Panic(id(), error()).clone();
    assert!(matches!(&copy, SubsystemError::Panic(of, _) if *of == id()));
    assert_eq!(copy.source().unwrap().to_debug_string(), "DiskFull { free: 0 }");
    assert!(matches!(
        SubsystemError::OrderlyShutdown.clone(),
        SubsystemError::OrderlyShutdown
    ));
    assert!(matches!(
        SubsystemError::ForcedShutdown.clone(),
        SubsystemError::ForcedShutdown
    ));
}

#[test]
fn generic_error_keeps_descriptions() {
    assert_eq!(error().display_string(), "disk is full");
    assert_eq!(error().debug_string(), "DiskFull { free: 0 }");
    let generic = error().into_generic_error();
    assert_eq!(generic.to_string(), "disk is full");
    assert_eq!(generic.to_debug_string(), "DiskFull { free: 0 }");
}

#[test]
fn join_error_keeps_descriptions() {
    let failure = panicked();
    let (display, debug) = (failure.to_string(), format!("{failure:?}"));
    assert!(display.contains("boom"));
    let generic = failure.into_generic_error();
    assert_eq!(generic.to_string(), display);
    assert_eq!(generic.to_debug_string(), debug);
}

#[test]
fn generic_results() {
    let good: Result<u8, GenericError> = Ok(4);
    assert!(matches!(good.into_generic_result(), Ok(4)));
    let bad: Result<u8, GenericError> = Err(error());
    assert_eq!(
        bad.into_generic_result().err().unwrap().to_string(),
        "disk is full"
    );
    assert!(matches!(().into_generic_result(), Ok(())));
}

#[test]
fn subsystem_results() {
    let good: Result<u8, GenericError> = Ok(4);
    assert!(matches!(good.into_subsystem_result(id()), Ok(4)));
    let bad: Result<u8, GenericError> = Err(error());
    let told = bad.into_subsystem_result(id()).err().unwrap();
    assert!(matches!(&told, SubsystemError::Error(of, _) if *of == id()));
    assert_eq!(told.source().unwrap().to_string(), "disk is full");
}
