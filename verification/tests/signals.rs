use tokio_util::sync::CancellationToken;
use tosub::{CrashHolder, ExitCode, SignalAction, SignalHandler, SubsystemError, UnixSignal};

#[test]
fn caught_signals() {
    let known: Vec<(&str, i32, String)> = UnixSignal::caught()
        .into_iter()
        .map(|signal| (signal.name(), signal.number(), signal.task_name()))
        .collect();
    let expected = [("SIGHUP", 1), ("SIGINT", 2), ("SIGQUIT", 3), ("SIGTERM", 15)];
    assert_eq!(known.len(), expected.len());
    for (known, (name, number)) in known.iter().zip(expected) {
        assert_eq!(known, &(name, number, format!("Signal handler: {name}")));
    }
}

#[test]
fn first_signal_stops_the_system_and_second_ends_the_process() {
    let statuses = [129, 130, 131, 143];
    for (signal, status) in UnixSignal::caught().into_iter().zip(statuses) {
        let mut global = CancellationToken::new();
        let mut crash = CrashHolder::new(global.clone());
        let mut handler = SignalHandler::new(signal);
        assert_eq!(handler.received(&mut crash, &mut global), SignalAction::KeepListening);
        assert!(global.is_cancelled());
        assert_eq!(handler.received(&mut crash, &mut global), SignalAction::Exit(status));
        assert_eq!(handler.received(&mut crash, &mut global), SignalAction::Exit(status));
        assert!(matches!(crash.take_crash(), Ok(code) if code == ExitCode::from(status as u8)));
    }
}

#[test]
fn signal_does_not_hide_a_crash() {
    let mut global = CancellationToken::new();
    let mut crash = CrashHolder::new(global.clone());
    crash.set_crash(SubsystemError::ForcedShutdown);
    SignalHandler::new(UnixSignal::Interrupt).received(&mut crash, &mut global);
    assert!(matches!(crash.take_crash(), Err(SubsystemError::ForcedShutdown)));
}

#[test]
fn signal_handler_task() {
    let runtime = tokio::runtime::Builder::new_current_thread().build().unwrap();
    runtime.block_on(async {
        let task = tokio::spawn(async { UnixSignal::Quit.task_spawned(tokio::task::id()) });
        let id = task.id();
        assert_eq!(
            task.await.unwrap().to_string(),
            format!("{{\"taskSpawned\":{{\"id\":{id},\"type\":{{\"signalHandler\":\"SIGQUIT\"}}}}}}")
        );
    });
}
