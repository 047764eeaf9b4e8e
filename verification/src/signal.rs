//! Signals that ask the process to stop.
use tokio::signal::unix::SignalKind;
use tokio::task::Id;
use vstd::prelude::*;

use crate::crash::CrashHolder;
#[allow(unused_imports)]
use crate::crash::{self, Report};
use crate::exit::ExitCode;
#[allow(unused_imports)]
use crate::metrics::{EventView, TaskInfoView, TaskTypeView};
use crate::metrics::{MetricsEvent, TaskType};
#[allow(unused_imports)]
use crate::task;
use crate::token;
use crate::token::Cancels;

verus! {

/// `SignalKind::hangup` stands for `SIGHUP`, which has the number 1 on Unix systems.
#[verifier::external_body]
fn hangup_number() -> (number: i32)
    ensures
        number == 1,
{
    SignalKind::hangup().as_raw_value()
}

/// `SignalKind::interrupt` stands for `SIGINT`, which has the number 2 on Unix systems.
#[verifier::external_body]
fn interrupt_number() -> (number: i32)
    ensures
        number == 2,
{
    SignalKind::interrupt().as_raw_value()
}

/// `SignalKind::quit` stands for `SIGQUIT`, which has the number 3 on Unix systems.
#[verifier::external_body]
fn quit_number() -> (number: i32)
    ensures
        number == 3,
{
    SignalKind::quit().as_raw_value()
}

/// `SignalKind::terminate` stands for `SIGTERM`, which has the number 15 on Unix systems.
#[verifier::external_body]
fn terminate_number() -> (number: i32)
    ensures
        number == 15,
{
    SignalKind::terminate().as_raw_value()
}

/// A signal that asks the process to stop.
#[derive(Debug, Clone, Copy, PartialEq, Eq, Structural)]
pub enum UnixSignal {
    /// The terminal was closed.
    Hangup,
    /// The user interrupts the program.
    Interrupt,
    /// The user quits the program.
    Quit,
    /// The program is asked to terminate.
    Terminate,
}

impl UnixSignal {
    /// The number of the signal.
    pub open spec fn spec_number(self) -> i32 {
        match self {
            UnixSignal::Hangup => 1,
            UnixSignal::Interrupt => 2,
            UnixSignal::Quit => 3,
            UnixSignal::Terminate => 15,
        }
    }

    /// The name of the signal.
    pub open spec fn spec_name(self) -> Seq<char> {
        match self {
            UnixSignal::Hangup => "SIGHUP"@,
            UnixSignal::Interrupt => "SIGINT"@,
            UnixSignal::Quit => "SIGQUIT"@,
            UnixSignal::Terminate => "SIGTERM"@,
        }
    }

    /// The signals that are caught, in the order in which handlers are registered for them.
    pub fn caught() -> (signals: Vec<UnixSignal>)
        ensures
            signals@ == seq![
                UnixSignal::Hangup,
                UnixSignal::Interrupt,
                UnixSignal::Quit,
                UnixSignal::Terminate,
            ],
    {
        let signals: Vec<UnixSignal> = vec![
            UnixSignal::Hangup,
            UnixSignal::Interrupt,
            UnixSignal::Quit,
            UnixSignal::Terminate,
        ];
        proof {
            assert(signals@ =~= seq![
                UnixSignal::Hangup,
                UnixSignal::Interrupt,
                UnixSignal::Quit,
                UnixSignal::Terminate,
            ]);
        }
        signals
    }

    /// The number of the signal.
    pub fn number(self) -> (number: i32)
        ensures
            number == self.spec_number(),
    {
        match self {
            UnixSignal::Hangup => hangup_number(),
            UnixSignal::Interrupt => interrupt_number(),
            UnixSignal::Quit => quit_number(),
            UnixSignal::Terminate => terminate_number(),
        }
    }

    /// The name of the signal.
    pub fn name(self) -> (name: &'static str)
        ensures
            name@ == self.spec_name(),
    {
        match self {
            UnixSignal::Hangup => "SIGHUP",
            UnixSignal::Interrupt => "SIGINT",
            UnixSignal::Quit => "SIGQUIT",
            UnixSignal::Terminate => "SIGTERM",
        }
    }

    /// The name of the task that waits for the signal.
    pub fn task_name(self) -> (task_name: String)
        ensures
            task_name@ == "Signal handler: "@ + self.spec_name(),
    {
        String::from_str("Signal handler: ").concat(self.name())
    }

    /// The event that a task was spawned that waits for the signal.
    pub fn task_spawned(self, task: Id) -> (event: MetricsEvent)
        ensures
            event@ == EventView::TaskSpawned(
                TaskInfoView {
                    id: task::task_number(task),
                    task_type: TaskTypeView::SignalHandler(self.spec_name()),
                },
            ),
    {
        MetricsEvent::task_spawned(task, TaskType::SignalHandler(String::from_str(self.name())))
    }
}

/// The exit status of a process that was stopped by the signal with the given number.
pub open spec fn signal_status(number: i32) -> int {
    128 + number
}

/// What to do when a signal was received.
#[derive(Debug, Clone, Copy, PartialEq, Eq, Structural)]
pub enum SignalAction {
    /// Go on and wait for the signal to come again.
    KeepListening,
    /// Exit from the process at once, with this status.
    Exit(i32),
}

/// Handles a signal: the first time it stops the system, the second time it ends the process.
pub struct SignalHandler {
    signal: UnixSignal,
    already_triggered: bool,
}

impl SignalHandler {
    /// The signal that is handled.
    pub closed spec fn signal(&self) -> UnixSignal {
        self.signal
    }

    /// Whether the signal was received before.
    pub closed spec fn triggered(&self) -> bool {
        self.already_triggered
    }

    /// A handler for a signal that was not received yet.
    pub fn new(signal: UnixSignal) -> (handler: Self)
        ensures
            handler.signal() == signal,
            !handler.triggered(),
    {
        SignalHandler { signal, already_triggered: false }
    }

    /// Handles that the signal was received. The first time, the exit code of a process that was
    /// stopped by the signal is reported, and the whole system is asked to stop.
    pub fn received<K: Cancels>(&mut self, crash: &mut CrashHolder, global: &mut K) -> (action:
        SignalAction)
        ensures
            final(self).signal() == old(self).signal(),
            final(self).triggered(),
            token::token_path(final(global).token()) == token::token_path(old(global).token()),
            token::token_path(final(crash).token()) == token::token_path(old(crash).token()),
            if old(self).triggered() {
                &&& action == SignalAction::Exit(
                    signal_status(old(self).signal().spec_number()) as i32,
                )
                &&& *final(crash) == *old(crash)
                &&& *final(global) == *old(global)
            } else {
                &&& action == SignalAction::KeepListening
                &&& final(crash).outcome() == crash::reported(
                    old(crash).outcome(),
                    Report::ExitCode(
                        ExitCode { code: signal_status(old(self).signal().spec_number()) as u8 },
                    ),
                )
                &&& token::token_stopped(final(crash).token())
                &&& token::token_stopped(final(global).token())
            },
    {
        let number: i32 = self.signal.number();
        if self.already_triggered {
            SignalAction::Exit(128 + number)
        } else {
            self.already_triggered = true;
            crash.set_exit_code(ExitCode::from(128 + number as u8));
            global.request();
            SignalAction::KeepListening
        }
    }
}

/// The status of a process that was stopped by one of the signals tells which one it was.
pub proof fn lemma_status_tells_signal(a: UnixSignal, b: UnixSignal)
    requires
        signal_status(a.spec_number()) == signal_status(b.spec_number()),
    ensures
        a == b,
        128 < signal_status(a.spec_number()) < 256,
{
}

} // verus!
