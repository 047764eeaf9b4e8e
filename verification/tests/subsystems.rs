use std::time::Duration;
use tokio::task::JoinError;
use tosub::subsystem::{
    global_shutdown_timed_out, local_shutdown_timeout, monitor, subsystem_ended, subsystem_joined,
    subsystem_timed_out, Ended,
};
use tosub::{
    build_root, Completion, CrashHolder, GenericError, Launch, MetricsEvent, MonitorEvent, Outcome,
    SubsystemError, SubsystemId, SubsystemMap,
};

fn launch() -> Launch<()> {
    build_root::<&str, ()>("root").start()
}

fn error() -> GenericError {
    GenericError::new("oops".to_string(), "Oops".to_string())
}

fn id(task_id: u64, name: &str) -> SubsystemId {
    let mut id = SubsystemId::unassigned(name.to_string());
    id.set_task_id(task_id);
    id
}

/// Two subsystems that are running.
fn map() -> SubsystemMap<u32> {
    let mut map = SubsystemMap::new();
    map.insert(id(1, "root/a"), 10);
    map.insert(id(2, "root/b"), 20);
    map
}

fn stopped(outcome: Outcome) -> MetricsEvent {
    MetricsEvent::SubsystemStopped {
        id: id(1, "root/a"),
        outcome,
        all_running: vec![id(2, "root/b")],
    }
}

fn failed(aborted: bool) -> JoinError {
    let runtime = tokio::runtime::Builder::new_current_thread().build().unwrap();
    runtime.block_on(async {
        let task = tokio::spawn(async move {
            if !aborted {
                panic!("boom");
            }
            std::future::pending::<()>().await;
        });
        if aborted {
            task.abort();
        }
        task.await.unwrap_err()
    })
}

#[test]
fn new_subsystem_continues_the_name() {
    let root = launch().root;
    assert_eq!(root.name(), "root");
    let plan = root.spawn("db");
    assert_eq!(plan.handle.name(), "root/db");
    assert_eq!(plan.handle.id().task_id(), 0);
    assert_eq!(plan.subsystem_task, "Subsystem: root/db");
    assert_eq!(plan.cancellation_task, "Cancellation monitor: root/db");
    assert_eq!(plan.join_task, "Join: root/db");
    assert_eq!(plan.handle.spawn("pool").handle.name(), "root/db/pool");
}

#[test]
fn local_request_reaches_what_is_below() {
    let root = launch().root;
    let mut a = root.spawn("a").handle;
    let b = root.spawn("b").handle;
    let deep = a.spawn("x").handle.spawn("y").handle;
    assert!(!a.is_shut_down() && !deep.is_shut_down());
    assert!(a.request_local_shutdown().is_none());
    assert!(a.is_shut_down() && deep.is_shut_down());
    assert!(!b.is_shut_down() && !root.is_shut_down());
    assert!(a.spawn("late").handle.is_shut_down());
    assert!(!root.spawn("late").handle.is_shut_down());
    assert!(!a.cancel_clean_local_shutdown().is_cancelled());
}

#[test]
fn global_request_reaches_everything() {
    let launch = launch();
    let a = launch.root.spawn("a").handle;
    let mut deep = a.spawn("x").handle;
    let b = launch.root.spawn("b").handle;
    deep.request_global_shutdown();
    for handle in [&launch.root, &a, &b, &deep] {
        assert!(handle.is_shut_down());
        assert!(handle.local().is_cancelled() && handle.global().is_cancelled());
        assert!(!handle.cancel_clean_global_shutdown().is_cancelled());
        assert!(!handle.cancel_clean_local_shutdown().is_cancelled());
    }
}

#[test]
fn crash_reaches_everything() {
    let mut launch = launch();
    let deep = launch.root.spawn("a").handle.spawn("x").handle;
    assert!(!deep.is_shut_down());
    launch.crash.set_crash(SubsystemError::ForcedShutdown);
    assert!(launch.root.is_shut_down() && deep.is_shut_down());
}

#[test]
fn clones_are_handles_on_the_same_subsystem() {
    let a = launch().root.spawn("a").handle;
    let mut copy = a.clone();
    assert!(copy.id() == a.id());
    copy.request_local_shutdown();
    assert!(a.is_shut_down());
    assert!(a.clone().is_shut_down());
}

#[test]
fn global_request_is_answered_by_other_handles() {
    let root = launch().root;
    let a = root.spawn("a").handle;
    let b = root.spawn("b").handle;
    let mut deep = a.spawn("x").handle;
    for handle in [&root, &a, &b] {
        assert!(!handle.is_shut_down_with(&deep));
    }
    deep.request_global_shutdown();
    for handle in [&root, &a, &b, &root.spawn("late").handle] {
        assert!(handle.is_shut_down_with(&deep));
    }
}

#[test]
fn local_request_is_answered_by_clones() {
    let root = launch().root;
    let a = root.spawn("a").handle;
    let mut copy = a.clone();
    assert!(!a.is_shut_down_with(&copy));
    copy.request_local_shutdown();
    assert!(a.is_shut_down_with(&copy));
    assert!(!root.is_shut_down_with(&copy));
}

#[test]
fn siblings_are_left_alone() {
    let limit = Duration::from_secs(1);
    let root = build_root::<&str, ()>("root").with_timeout(limit).start().root;
    let mut a = root.spawn("a").handle;
    let deep = a.spawn("x").handle;
    let mut b = root.spawn_beside("b", &vec![&a, &deep]).handle;
    assert_eq!(b.name(), "root/b");
    let below = b.spawn("y").handle;
    let mut plan = b.request_local_shutdown().unwrap();
    assert!(b.is_shut_down() && below.is_shut_down());
    assert!(!a.is_shut_down() && !deep.is_shut_down() && !root.is_shut_down());
    local_shutdown_timeout(true, &mut plan.cancel_clean_shutdown);
    assert!(b.cancel_clean_local_shutdown().is_cancelled());
    assert!(!a.cancel_clean_local_shutdown().is_cancelled());
    assert!(!deep.cancel_clean_local_shutdown().is_cancelled());
    let c = root.spawn_beside("c", &vec![&a, &b]).handle;
    a.request_local_shutdown();
    assert!(deep.is_shut_down() && !c.is_shut_down());
}

#[test]
fn local_request_with_a_limit() {
    let limit = Duration::from_millis(250);
    let root = build_root::<&str, ()>("root").with_timeout(limit).start().root;
    let mut a = root.spawn("a").handle;
    let b = root.spawn("b").handle;
    let mut plan = a.request_local_shutdown().unwrap();
    assert_eq!(plan.timeout, limit);
    assert_eq!(plan.task_name, "Shutdown monitor: root/a");
    assert!(plan.id == *a.id());
    local_shutdown_timeout(false, &mut plan.cancel_clean_shutdown);
    assert!(!a.cancel_clean_local_shutdown().is_cancelled());
    local_shutdown_timeout(true, &mut plan.cancel_clean_shutdown);
    assert!(a.cancel_clean_local_shutdown().is_cancelled());
    assert!(!b.cancel_clean_local_shutdown().is_cancelled());
    assert!(!root.cancel_clean_local_shutdown().is_cancelled());
    assert!(!a.cancel_clean_global_shutdown().is_cancelled());
}

#[test]
fn tasks_of_a_subsystem() {
    let runtime = tokio::runtime::Builder::new_current_thread().build().unwrap();
    runtime.block_on(async {
        let limit = Duration::from_secs(1);
        let root = build_root::<&str, ()>("root").with_timeout(limit).start().root;
        let mut a = root.spawn("a").handle;
        let task = tokio::spawn(async { tokio::task::id() });
        let number = tosub::task::to_u64(task.id());
        let task = task.await.unwrap();
        let text = |kind: &str, id: u64| {
            format!(
                "{{\"taskSpawned\":{{\"id\":{number},\"type\":{{\"{kind}\":{{\"name\":\"root/a\",\"taskId\":{id}}}}}}}}}"
            )
        };
        assert_eq!(a.join_task_spawned(task).to_string(), text("joinSignal", 0));
        let mut copy = a.clone();
        let event = copy.subsystem_task_spawned(task);
        assert_eq!(event.to_string(), text("subsystem", number));
        a.assign_task(task);
        assert!(a.id() == copy.id());
        assert_eq!(a.id().task_id(), number);
        assert_eq!(a.name(), "root/a");
        let event = a.cancellation_task_spawned(task);
        assert_eq!(event.to_string(), text("cancellationTask", number));
        let plan = a.request_local_shutdown().unwrap();
        assert_eq!(plan.task_spawned(task).to_string(), text("localShutdownTimeout", number));
    });
}

#[test]
fn registered_subsystem_is_running() {
    let root = launch().root;
    let mut map: SubsystemMap<u32> = map();
    let event = root.spawn("c").handle.register(&mut map, 30);
    assert_eq!(
        event,
        MetricsEvent::SubsystemStarted {
            id: id(0, "root/c"),
            all_running: vec![id(0, "root/c"), id(1, "root/a"), id(2, "root/b")],
        }
    );
    assert_eq!(map.into_values(), [30, 10, 20]);
}

#[test]
fn returned_value_is_told() {
    let (mut map, mut crash) = (map(), launch().crash);
    let (event, told) = subsystem_ended(Ended::Returned(7), &mut map, id(1, "root/a"), &mut crash);
    assert_eq!(event, stopped(Outcome::TerminatedNormally));
    assert!(matches!(told, Ok(7)));
    assert!(matches!(crash.take_crash(), Ok(code) if code.code == 0));
    assert_eq!(map.into_values(), [20]);
}

#[test]
fn value_of_a_subsystem_that_was_asked_to_stop_is_told() {
    let mut launch = launch();
    let mut a = launch.root.spawn("a").handle;
    a.request_local_shutdown();
    let (_, told) = subsystem_ended(Ended::Returned(4), &mut map(), a.id().clone(), &mut launch.crash);
    assert!(matches!(told, Ok(4)));
    assert!(!launch.root.is_shut_down());
}

#[test]
fn returned_error_is_a_crash() {
    let mut launch = launch();
    let mut map = map();
    let res: Result<Result<u8, GenericError>, JoinError> = Ok(Err(error()));
    let (event, told) = subsystem_joined(res, &mut map, id(1, "root/a"), &mut launch.crash);
    assert_eq!(event, stopped(Outcome::TerminatedWithError("oops".to_string())));
    let told = told.err().unwrap();
    assert!(matches!(&told, SubsystemError::Error(of, _) if *of == id(1, "root/a")));
    assert_eq!(told.source().unwrap().to_debug_string(), "Oops");
    assert!(launch.root.is_shut_down());
    let outcome = launch.crash.take_crash().err().unwrap();
    assert_eq!(outcome.to_string(), "Subsystem '1-root/a' terminated with error");
}

#[test]
fn panic_is_a_crash() {
    let mut launch = launch();
    let failure = failed(false);
    let message = failure.to_string();
    let res: Result<Result<u8, GenericError>, JoinError> = Err(failure);
    let (event, told) = subsystem_joined(res, &mut map(), id(1, "root/a"), &mut launch.crash);
    assert_eq!(event, stopped(Outcome::TerminatedWithError(message.clone())));
    let told = told.err().unwrap();
    assert!(matches!(&told, SubsystemError::Panic(of, _) if *of == id(1, "root/a")));
    assert_eq!(told.source().unwrap().to_string(), message);
    assert!(launch.root.is_shut_down());
    assert!(matches!(launch.crash.take_crash(), Err(SubsystemError::Panic(..))));
}

#[test]
fn abortion_is_a_forced_shutdown() {
    let mut launch = launch();
    let res: Result<Result<u8, GenericError>, JoinError> = Err(failed(true));
    let (event, told) = subsystem_joined(res, &mut map(), id(1, "root/a"), &mut launch.crash);
    assert_eq!(event, stopped(Outcome::ShutdownForced));
    assert!(matches!(told, Err(SubsystemError::ForcedShutdown)));
    assert!(launch.root.is_shut_down());
    assert!(matches!(launch.crash.take_crash(), Err(SubsystemError::ForcedShutdown)));
}

#[test]
fn subsystem_that_took_too_long() {
    let mut map = map();
    let (event, told) = subsystem_timed_out(&mut map, id(1, "root/a"));
    assert_eq!(event, stopped(Outcome::ShutdownForced));
    assert!(matches!(told, SubsystemError::ForcedShutdown));
    assert_eq!(map.into_values(), [20]);
}

#[test]
fn system_that_took_too_long() {
    let mut launch = launch();
    let mut global = launch.root.global().clone();
    global_shutdown_timed_out(&mut global, &mut launch.crash);
    assert!(launch.root.is_shut_down());
    assert!(matches!(launch.crash.take_crash(), Err(SubsystemError::ForcedShutdown)));
}

/// A running system with two subsystems, and its parts.
fn watched() -> (Launch<()>, SubsystemMap<u32>) {
    (launch(), map())
}

fn outcome(crash: &mut CrashHolder) -> String {
    match crash.take_crash() {
        Ok(code) => format!("exit {}", code.code),
        Err(error) => error.to_string(),
    }
}

#[test]
fn watched_subsystem_ends() {
    let (mut launch, mut map) = watched();
    let woken = MonitorEvent::Joined(Ok(Ok(3)));
    assert!(!woken.aborts());
    let action = monitor(woken, &mut map, id(1, "root/a"), &mut launch.crash);
    assert_eq!(action.event, Some(stopped(Outcome::TerminatedNormally)));
    assert!(matches!(action.told, Some(Ok(3))));
    assert!(action.stopped.is_none());
    assert!(!launch.root.is_shut_down());
    assert_eq!(outcome(&mut launch.crash), "exit 0");

    let woken: MonitorEvent<u8> = MonitorEvent::Joined(Ok(Err(error())));
    let action = monitor(woken, &mut map, id(2, "root/b"), &mut launch.crash);
    assert!(matches!(action.told, Some(Err(SubsystemError::Error(..)))));
    assert!(launch.root.is_shut_down());
    assert!(map.running().is_empty());
    assert_eq!(outcome(&mut launch.crash), "Subsystem '2-root/b' terminated with error");
}

#[test]
fn watched_subsystem_is_aborted_alone() {
    let (mut launch, mut map) = watched();
    let woken: MonitorEvent<u8> = MonitorEvent::LocalTimeout;
    assert!(woken.aborts());
    let action = monitor(woken, &mut map, id(1, "root/a"), &mut launch.crash);
    assert_eq!(action.event, Some(stopped(Outcome::ShutdownForced)));
    assert!(matches!(action.told, Some(Err(SubsystemError::ForcedShutdown))));
    assert!(action.stopped.is_none());
    assert!(!launch.root.is_shut_down());
    assert_eq!(outcome(&mut launch.crash), "exit 0");
}

#[test]
fn watched_subsystem_is_aborted_with_the_system() {
    let (mut launch, mut map) = watched();
    let woken: MonitorEvent<u8> = MonitorEvent::GlobalTimeout(launch.root.global().clone());
    assert!(woken.aborts());
    let action = monitor(woken, &mut map, id(1, "root/a"), &mut launch.crash);
    assert!(action.event.is_none() && action.told.is_none());
    assert!(action.stopped.unwrap().is_cancelled());
    assert!(launch.root.is_shut_down());
    assert_eq!(map.into_values(), [10, 20]);
    assert_eq!(
        outcome(&mut launch.crash),
        "Subsystem did not complete because it was forced to shut down"
    );
}

#[test]
fn waiting_for_a_subsystem() {
    let mut completion = Completion::new();
    assert!(!completion.is_completed());
    assert!(matches!(
        tosub::Subsystem::join(&completion),
        Err(SubsystemError::ForcedShutdown)
    ));
    completion.publish(Ok("done".to_string()));
    assert!(completion.is_completed());
    for _ in 0..2 {
        assert!(matches!(tosub::Subsystem::join(&completion), Ok(value) if value == "done"));
    }
    completion.publish(Err(SubsystemError::OrderlyShutdown));
    completion.publish(Ok("again".to_string()));
    assert!(matches!(completion.join(), Ok(value) if value == "done"));

    let mut failed: Completion<u8> = Completion::new();
    failed.publish(Err(SubsystemError::Error(id(1, "root/a"), error())));
    failed.publish(Ok(1));
    for _ in 0..2 {
        let told = tosub::Subsystem::join(&failed).err().unwrap();
        assert_eq!(told.to_string(), "Subsystem '1-root/a' terminated with error");
        assert_eq!(told.source().unwrap().to_string(), "oops");
    }
}

#[test]
fn noted_request_is_passed_on() {
    let root = launch().root;
    let mut a = root.spawn("a").handle;
    let copy = a.clone();
    assert!(!a.note_shut_down());
    assert!(!root.is_shut_down() && !a.is_shut_down());
    root.clone().request_global_shutdown();
    assert!(a.note_shut_down());
    assert!(a.spawn("late").handle.is_shut_down());
    assert!(copy.is_shut_down_with(&a));
    assert!(a.is_shut_down() && copy.is_shut_down());
}

#[test]
fn noting_asks_nobody() {
    let root = launch().root;
    let mut a = root.spawn("a").handle;
    let b = root.spawn("b").handle;
    a.clone().request_local_shutdown();
    assert!(a.note_shut_down() && a.note_shut_down());
    assert!(!b.is_shut_down() && !root.is_shut_down());
    assert!(!a.cancel_clean_local_shutdown().is_cancelled());
}
