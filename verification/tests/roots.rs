use std::time::Duration;
use tosub::root::{
    drained, finish_shutdown, root_system_started, root_system_stopped, run_result, Drained,
};
use tosub::{
    build_default_root, build_root, ExitCode, GenericError, Launch, MetricsEvent, Outcome,
    SubsystemError, SubsystemId, TaskInfo, TaskType,
};

fn launch() -> Launch<u8> {
    build_root::<&str, u8>("root").start()
}

fn id() -> SubsystemId {
    let mut id = SubsystemId::unassigned("root".to_string());
    id.set_task_id(3);
    id
}

fn stopped(outcome: Outcome) -> MetricsEvent {
    MetricsEvent::RootSystemStopped { id: id(), outcome }
}

#[test]
fn plain_root_system() {
    let launch = build_root::<String, u8>("plain".to_string()).start();
    assert_eq!(launch.root.name(), "plain");
    assert_eq!(launch.root.id().task_id(), 0);
    assert_eq!(launch.task_name, "Root system: plain");
    assert!(!launch.catch_signals);
    assert!(launch.stdin.is_none());
    assert!(launch.shutdown_timeout.is_none());
    assert!(!launch.root.is_shut_down());
}

#[test]
fn default_root_system() {
    let launch = build_default_root::<&str, u8>("default").start();
    assert_eq!(launch.root.name(), "default");
    assert!(launch.catch_signals);
    assert!(launch.stdin.is_none());
    assert_eq!(launch.shutdown_timeout, Some(Duration::from_secs(1)));
}

#[test]
fn configured_root_system() {
    let launch = build_root::<&str, u8>("root")
        .catch_signals()
        .with_timeout(Duration::from_millis(30))
        .shutdown_on_stdin_close()
        .with_stdin_consumer(9)
        .start();
    assert!(launch.catch_signals);
    assert_eq!(launch.shutdown_timeout, Some(Duration::from_millis(30)));
    let stdin = launch.stdin.unwrap();
    assert!(stdin.shutdown_on_stdin_close);
    assert_eq!(stdin.consumer, Some(9));

    let launch = build_default_root::<&str, u8>("root")
        .shutdown_on_stdin_close()
        .with_stdin_consumer(9)
        .catch_no_signals()
        .without_timeout()
        .no_shutdown_on_stdin_close()
        .without_stdin_consumer()
        .start();
    assert!(!launch.catch_signals);
    assert!(launch.shutdown_timeout.is_none());
    assert!(launch.stdin.is_none());
}

#[test]
fn standard_input_is_handled_for_either_reason() {
    let stdin = build_root::<&str, u8>("root").shutdown_on_stdin_close().start().stdin.unwrap();
    assert!(stdin.shutdown_on_stdin_close && stdin.consumer.is_none());
    let stdin = build_root::<&str, u8>("root").with_stdin_consumer(1).start().stdin.unwrap();
    assert!(!stdin.shutdown_on_stdin_close && stdin.consumer == Some(1));
}

#[test]
fn started_root_system() {
    let runtime = tokio::runtime::Builder::new_current_thread().build().unwrap();
    runtime.block_on(async {
        let mut root = launch().root;
        let task = tokio::spawn(async { tokio::task::id() });
        let number = tosub::task::to_u64(task.id());
        let (spawned, started) = root_system_started(&mut root, task.await.unwrap());
        assert_eq!(root.id().task_id(), number);
        assert_eq!(root.name(), "root");
        let id = root.id().clone();
        assert_eq!(
            spawned,
            MetricsEvent::TaskSpawned(TaskInfo { id: number, task_type: TaskType::RootSystem(id.clone()) })
        );
        assert_eq!(started, MetricsEvent::RootSystemStarted { id });
    });
}

#[test]
fn root_system_that_succeeded() {
    let mut launch = launch();
    let mut global = launch.root.global().clone();
    let event = root_system_stopped((), id(), &mut launch.crash, &mut global);
    assert_eq!(event, stopped(Outcome::TerminatedNormally));
    assert!(launch.root.is_shut_down());
    assert!(matches!(launch.crash.take_crash(), Ok(ExitCode { code: 0 })));
}

#[test]
fn success_of_the_root_system_keeps_what_was_reported() {
    let mut launch = launch();
    let mut global = launch.root.global().clone();
    launch.crash.set_exit_code(ExitCode::from(130));
    let good: Result<(), GenericError> = Ok(());
    root_system_stopped(good, id(), &mut launch.crash, &mut global);
    assert!(matches!(launch.crash.take_crash(), Ok(ExitCode { code: 130 })));
}

#[test]
fn root_system_with_an_exit_code() {
    let mut launch = launch();
    let mut global = launch.root.global().clone();
    let event = root_system_stopped(ExitCode::from(7), id(), &mut launch.crash, &mut global);
    let message = "Root system exited with non-zero exit code.".to_string();
    assert_eq!(event, stopped(Outcome::TerminatedWithError(message)));
    assert!(launch.root.is_shut_down());
    assert!(matches!(launch.crash.take_crash(), Ok(ExitCode { code: 7 })));
}

#[test]
fn root_system_that_failed() {
    let mut launch = launch();
    let mut global = launch.root.global().clone();
    let bad: Result<(), GenericError> = Err(GenericError::new("no".to_string(), "No".to_string()));
    let event = root_system_stopped(bad, id(), &mut launch.crash, &mut global);
    assert_eq!(event, stopped(Outcome::TerminatedWithError("no".to_string())));
    assert!(launch.root.is_shut_down());
    let error = launch.crash.take_crash().err().unwrap();
    assert_eq!(error.to_string(), "Subsystem '3-root' terminated with error");
    assert_eq!(error.source().unwrap().to_debug_string(), "No");
}

#[test]
fn end_of_an_orderly_shutdown() {
    for (drained, orderly) in [(Drained::Unlimited, true), (Drained::InTime, false)] {
        let mut launch = launch();
        launch.crash.set_exit_code(ExitCode::from(143));
        let mut clean = launch.root.cancel_clean_global_shutdown().clone();
        let (result, told) = finish_shutdown(drained, &mut launch.crash, &mut clean);
        assert!(matches!(result, Ok(ExitCode { code: 143 })));
        assert_eq!(matches!(told, SubsystemError::OrderlyShutdown), orderly);
        assert_eq!(matches!(told, SubsystemError::ForcedShutdown), !orderly);
        assert!(!clean.is_cancelled());
        assert!(matches!(launch.crash.take_crash(), Ok(ExitCode { code: 0 })));
    }
}

#[test]
fn end_of_a_shutdown_that_took_too_long() {
    let mut launch = launch();
    launch.crash.set_exit_code(ExitCode::from(143));
    let child = launch.root.spawn("a").handle;
    let mut clean = launch.root.cancel_clean_global_shutdown().clone();
    let (result, told) = finish_shutdown(Drained::TimedOut, &mut launch.crash, &mut clean);
    assert!(matches!(result, Err(SubsystemError::ForcedShutdown)));
    assert!(matches!(told, SubsystemError::ForcedShutdown));
    assert!(clean.is_cancelled());
    assert!(child.cancel_clean_global_shutdown().is_cancelled());
    assert!(!child.cancel_clean_local_shutdown().is_cancelled());
}

#[test]
fn crash_outranks_the_shutdown_that_took_too_long() {
    let mut launch = launch();
    launch.crash.set_crash(SubsystemError::Panic(
        id(),
        GenericError::new("p".to_string(), "P".to_string()),
    ));
    let mut clean = launch.root.cancel_clean_global_shutdown().clone();
    let (result, _) = finish_shutdown(Drained::TimedOut, &mut launch.crash, &mut clean);
    assert!(matches!(result, Err(SubsystemError::Panic(..))));
}

#[test]
fn only_a_limit_can_be_reached() {
    let limit = Some(Duration::ZERO);
    assert_eq!(drained(limit, true), Drained::TimedOut);
    assert_eq!(drained(limit, false), Drained::InTime);
    assert_eq!(drained(None, true), Drained::Unlimited);
    assert_eq!(drained(None, false), Drained::Unlimited);
}

#[test]
fn results_of_runs() {
    assert!(matches!(run_result(Some(Ok(ExitCode::from(4)))), Ok(ExitCode { code: 4 })));
    assert!(matches!(
        run_result(Some(Err(SubsystemError::OrderlyShutdown))),
        Err(SubsystemError::OrderlyShutdown)
    ));
    assert!(matches!(run_result(None), Err(SubsystemError::ForcedShutdown)));
}
