//! The root system: how it is configured, started and brought to an end.
use std::marker::PhantomData;
use std::time::Duration;
use tokio::task::Id;
use tokio_util::sync::CancellationToken;
use vstd::prelude::*;

use crate::crash::{CrashHolder, SubsystemResult};
#[allow(unused_imports)]
use crate::crash::{self, Report};
use crate::error::{GenericError, IntoGenericError, SubsystemError};
#[allow(unused_imports)]
use crate::error::{self, SubsystemErrorView};
use crate::exit::{ExitCode, IntoExitCode, IntoExitCodeResult};
#[allow(unused_imports)]
use crate::id::IdView;
use crate::id::SubsystemId;
#[allow(unused_imports)]
use crate::metrics::{EventView, OutcomeView, TaskInfoView, TaskTypeView};
use crate::metrics::{MetricsEvent, Outcome, TaskType};
use crate::stdin::StdinHandler;
use crate::subsystem::Subsystem;
#[allow(unused_imports)]
use crate::subsystem::SubsystemView;
#[allow(unused_imports)]
use crate::task;
use crate::token;
use crate::token::{Cancels, TokenNode, TokenRef};

verus! {

/// The length of a duration in nanoseconds, as `Duration::as_nanos` gives it.
pub uninterp spec fn duration_nanos(duration: Duration) -> nat;

/// `Duration::from_secs` gives the duration of that many seconds.
pub assume_specification[ Duration::from_secs ](secs: u64) -> (made: Duration)
    ensures
        duration_nanos(made) == secs * 1_000_000_000,
;

/// `String::from` copies a string slice.
pub assume_specification<'_0>[ <String as From<&str>>::from ](s: &str) -> (made: String)
    ensures
        made@ == s@,
;

/// The conversion of a type to itself returns its argument.
pub assume_specification<Kept>[ <Kept as From<Kept>>::from ](t: Kept) -> (made: Kept)
    ensures
        made == t,
;

/// What a [`RootBuilder`] stands for.
pub struct BuilderView<C> {
    /// The name of the root system.
    pub name: Seq<char>,
    /// Whether signals stop the system.
    pub catch_signals: bool,
    /// How long the system may take to stop, if there is a limit.
    pub shutdown_timeout: Option<Duration>,
    /// Whether the end of standard input stops the system.
    pub shutdown_on_stdin_close: bool,
    /// What lines from standard input are handed to.
    pub stdin_consumer: Option<C>,
}

/// Configures a root system. `C` is the type of what consumes standard input, and `K` that of the
/// tokens by which the system is asked to stop.
pub struct RootBuilder<C, K = CancellationToken> {
    name: String,
    catch_signals: bool,
    shutdown_timeout: Option<Duration>,
    shutdown_on_stdin_close: bool,
    stdin_consumer: Option<C>,
    tokens: PhantomData<K>,
}

impl<C, K> View for RootBuilder<C, K> {
    type V = BuilderView<C>;

    closed spec fn view(&self) -> BuilderView<C> {
        BuilderView {
            name: self.name@,
            catch_signals: self.catch_signals,
            shutdown_timeout: self.shutdown_timeout,
            shutdown_on_stdin_close: self.shutdown_on_stdin_close,
            stdin_consumer: self.stdin_consumer,
        }
    }
}

/// The configuration of a root system of which nothing but the name was said.
pub open spec fn plain_root<C>(name: Seq<char>) -> BuilderView<C> {
    BuilderView {
        name,
        catch_signals: false,
        shutdown_timeout: None,
        shutdown_on_stdin_close: false,
        stdin_consumer: None,
    }
}

/// A root system that catches no signals, has no limit for its shutdown and ignores standard
/// input.
pub fn build_root<N: Into<String>, C>(name: N) -> (builder: RootBuilder<C>)
    ensures
        exists|text: String|
            #[trigger] call_ensures(<N as Into<String>>::into, (name,), text) && builder@
                == plain_root::<C>(text@),
{
    RootBuilder {
        name: name.into(),
        catch_signals: false,
        shutdown_timeout: None,
        shutdown_on_stdin_close: false,
        stdin_consumer: None,
        tokens: PhantomData,
    }
}

/// A root system that catches signals, may take a second for its shutdown and ignores standard
/// input.
pub fn build_default_root<N: Into<String>, C>(name: N) -> (builder: RootBuilder<C>)
    ensures
        exists|text: String|
            #[trigger] call_ensures(<N as Into<String>>::into, (name,), text) && builder@ == (
            BuilderView {
                catch_signals: true,
                shutdown_timeout: builder@.shutdown_timeout,
                ..plain_root::<C>(text@)
            }),
        builder@.shutdown_timeout matches Some(timeout) && duration_nanos(timeout)
            == 1_000_000_000,
{
    RootBuilder {
        name: name.into(),
        catch_signals: true,
        shutdown_timeout: Some(Duration::from_secs(1)),
        shutdown_on_stdin_close: false,
        stdin_consumer: None,
        tokens: PhantomData,
    }
}

impl<C, K: TokenNode> RootBuilder<C, K> {
    /// Lets signals stop the system.
    pub fn catch_signals(self) -> (builder: Self)
        ensures
            builder@ == (BuilderView { catch_signals: true, ..self@ }),
    {
        RootBuilder { catch_signals: true, ..self }
    }

    /// Leaves signals alone.
    pub fn catch_no_signals(self) -> (builder: Self)
        ensures
            builder@ == (BuilderView { catch_signals: false, ..self@ }),
    {
        RootBuilder { catch_signals: false, ..self }
    }

    /// Lets the end of standard input stop the system.
    pub fn shutdown_on_stdin_close(self) -> (builder: Self)
        ensures
            builder@ == (BuilderView { shutdown_on_stdin_close: true, ..self@ }),
    {
        RootBuilder { shutdown_on_stdin_close: true, ..self }
    }

    /// Does not let the end of standard input stop the system.
    pub fn no_shutdown_on_stdin_close(self) -> (builder: Self)
        ensures
            builder@ == (BuilderView { shutdown_on_stdin_close: false, ..self@ }),
    {
        RootBuilder { shutdown_on_stdin_close: false, ..self }
    }

    /// Limits the time that the system may take to stop.
    pub fn with_timeout(self, shutdown_timeout: Duration) -> (builder: Self)
        ensures
            builder@ == (BuilderView { shutdown_timeout: Some(shutdown_timeout), ..self@ }),
    {
        RootBuilder { shutdown_timeout: Some(shutdown_timeout), ..self }
    }

    /// Lets the system take any time to stop.
    pub fn without_timeout(self) -> (builder: Self)
        ensures
            builder@ == (BuilderView { shutdown_timeout: None, ..self@ }),
    {
        RootBuilder { shutdown_timeout: None, ..self }
    }

    /// Hands lines from standard input to a consumer.
    pub fn with_stdin_consumer(self, consumer: C) -> (builder: Self)
        ensures
            builder@ == (BuilderView { stdin_consumer: Some(consumer), ..self@ }),
    {
        RootBuilder { stdin_consumer: Some(consumer), ..self }
    }

    /// Hands lines from standard input to nobody.
    pub fn without_stdin_consumer(self) -> (builder: Self)
        ensures
            builder@ == (BuilderView { stdin_consumer: None, ..self@ }),
    {
        RootBuilder { stdin_consumer: None, ..self }
    }

    /// Starts the root system. All that is asked to stop the whole system goes through one token,
    /// which the handle on the root system and the holder of the outcome share. Standard input is
    /// handled if there is a consumer for it or if its end stops the system.
    pub fn start(self) -> (launch: Launch<C, K>)
        ensures
            launch.root@.well_formed(),
            launch.root@.id == (IdView { task_id: 0, name: self@.name }),
            token::token_path(launch.root@.global).len() == 1,
            token::token_path(launch.root@.local).len() == 2,
            token::token_path(launch.root@.cancel_clean_global_shutdown).len() == 1,
            token::token_path(launch.root@.cancel_clean_local_shutdown).len() == 1,
            !launch.root@.asked_to_stop(),
            !token::token_stopped(launch.root@.cancel_clean_global_shutdown),
            !token::token_stopped(launch.root@.cancel_clean_local_shutdown),
            launch.root@.shutdown_timeout == self@.shutdown_timeout,
            launch.crash.outcome() == Ok::<ExitCode, SubsystemErrorView>(ExitCode::success()),
            token::token_path(launch.crash.token()) == token::token_path(launch.root@.global),
            !token::token_stopped(launch.crash.token()),
            launch.catch_signals == self@.catch_signals,
            launch.stdin == (if self@.stdin_consumer is Some || self@.shutdown_on_stdin_close {
                Some(
                    StdinHandler {
                        shutdown_on_stdin_close: self@.shutdown_on_stdin_close,
                        consumer: self@.stdin_consumer,
                    },
                )
            } else {
                None
            }),
            launch.shutdown_timeout == self@.shutdown_timeout,
            launch.task_name@ == "Root system: "@ + self@.name,
    {
        let beside: Vec<TokenRef<'_>> = Vec::new();
        let global: K = K::fresh(&beside);
        let crash: CrashHolder<K> = CrashHolder::new(global.share());
        let stdin: Option<StdinHandler<C>> = if self.stdin_consumer.is_some()
            || self.shutdown_on_stdin_close {
            Some(
                StdinHandler {
                    shutdown_on_stdin_close: self.shutdown_on_stdin_close,
                    consumer: self.stdin_consumer,
                },
            )
        } else {
            None
        };
        let task_name: String = String::from("Root system: ").concat(self.name.as_str());
        let root: Subsystem<K, K, K> = Subsystem::root(self.name, &global, self.shutdown_timeout);
        Launch {
            root,
            crash,
            catch_signals: self.catch_signals,
            stdin,
            shutdown_timeout: self.shutdown_timeout,
            task_name,
        }
    }
}

/// What is needed to run a root system.
pub struct Launch<C, K: TokenNode = CancellationToken> {
    /// The handle on the root system.
    pub root: Subsystem<K, K, K>,
    /// The holder of the outcome of the run.
    pub crash: CrashHolder<K>,
    /// Whether signals stop the system.
    pub catch_signals: bool,
    /// How to handle standard input, if it is handled.
    pub stdin: Option<StdinHandler<C>>,
    /// How long the system may take to stop, if there is a limit.
    pub shutdown_timeout: Option<Duration>,
    /// The name of the task that runs the root system.
    pub task_name: String,
}

/// Takes note of the task that runs the root system. The result is the events to trace.
pub fn root_system_started<L: TokenNode, G: TokenNode, W: TokenNode>(
    root: &mut Subsystem<L, G, W>,
    task: Id,
) -> (events: (MetricsEvent, MetricsEvent))
    ensures
        final(root)@ == (SubsystemView {
            id: IdView { task_id: task::task_number(task), name: old(root)@.id.name },
            ..old(root)@
        }),
        events.0@ == EventView::TaskSpawned(
            TaskInfoView {
                id: task::task_number(task),
                task_type: TaskTypeView::RootSystem(final(root)@.id),
            },
        ),
        events.1@ == (EventView::RootSystemStarted { id: final(root)@.id }),
{
    root.assign_task(task);
    let id: SubsystemId = root.id().clone();
    (
        MetricsEvent::task_spawned(task, TaskType::RootSystem(id.clone())),
        MetricsEvent::RootSystemStarted { id },
    )
}

/// How the end of the root system is traced, from the exit code or the error that it ended with.
pub open spec fn root_outcome(ended: Result<ExitCode, error::GenericErrorView>) -> OutcomeView {
    match ended {
        Ok(code) => if code == ExitCode::success() {
            OutcomeView::TerminatedNormally
        } else {
            OutcomeView::TerminatedWithError("Root system exited with non-zero exit code."@)
        },
        Err(error) => OutcomeView::TerminatedWithError(error.display),
    }
}

/// The exit code or the error that a root system ended with, from what it returned.
pub open spec fn root_ended<R: IntoExitCodeResult>(returned: R) -> Result<
    ExitCode,
    error::GenericErrorView,
> {
    match returned.exit_code_result() {
        Ok(output) => Ok(output.exit_code()),
        Err(error) => Err(error.generic_error()),
    }
}

/// Handles that the root system has ended: what it returned is reported unless it is a success,
/// and the whole system is asked to stop. The result is the event to trace.
pub fn root_system_stopped<R: IntoExitCodeResult, K: Cancels>(
    returned: R,
    id: SubsystemId,
    crash: &mut CrashHolder,
    global: &mut K,
) -> (event: MetricsEvent)
    ensures
        event@ == (EventView::RootSystemStopped {
            id: id@,
            outcome: root_outcome(root_ended(returned)),
        }),
        match root_ended(returned) {
            Ok(code) => if code == ExitCode::success() {
                *final(crash) == *old(crash)
            } else {
                final(crash).outcome() == crash::reported(
                    old(crash).outcome(),
                    Report::ExitCode(code),
                ) && token::token_stopped(final(crash).token())
            },
            Err(error) => final(crash).outcome() == crash::reported(
                old(crash).outcome(),
                Report::Crash(SubsystemErrorView::Error(id@, error)),
            ) && token::token_stopped(final(crash).token()),
        },
        token::token_path(final(crash).token()) == token::token_path(old(crash).token()),
        token::token_stopped(final(global).token()),
        token::token_path(final(global).token()) == token::token_path(old(global).token()),
{
    let outcome: Outcome = match returned.into_exit_code_result() {
        Ok(output) => {
            let code: ExitCode = output.into_exit_code();
            if code == ExitCode::success() {
                Outcome::TerminatedNormally
            } else {
                crash.set_exit_code(code);
                Outcome::TerminatedWithError(
                    String::from("Root system exited with non-zero exit code."),
                )
            }
        },
        Err(failure) => {
            let generic_error: GenericError = failure.into_generic_error();
            let message: String = generic_error.to_string();
            crash.set_crash(SubsystemError::Error(id.clone(), generic_error));
            Outcome::TerminatedWithError(message)
        },
    };
    global.request();
    MetricsEvent::RootSystemStopped { id, outcome }
}

/// How the subsystems stopped after the root system had ended.
#[derive(Debug, Clone, Copy, PartialEq, Eq, Structural)]
pub enum Drained {
    /// All of them stopped; there was no limit.
    Unlimited,
    /// All of them stopped within the limit.
    InTime,
    /// The limit was reached while some of them were running.
    TimedOut,
}

/// How the subsystems stopped, from the limit and from whether it was reached. Without a limit there
/// is nothing to reach: however long they took, all of them stopped.
pub fn drained(limit: Option<Duration>, timed_out: bool) -> (drained: Drained)
    ensures
        drained == (if limit is None {
            Drained::Unlimited
        } else if timed_out {
            Drained::TimedOut
        } else {
            Drained::InTime
        }),
{
    match limit {
        None => Drained::Unlimited,
        Some(_) => {
            if timed_out {
                Drained::TimedOut
            } else {
                Drained::InTime
            }
        },
    }
}

/// What is reported at the end of a run: a forced shutdown if the limit was reached.
pub open spec fn drained_outcome(
    outcome: Result<ExitCode, SubsystemErrorView>,
    drained: Drained,
) -> Result<ExitCode, SubsystemErrorView> {
    if drained is TimedOut {
        crash::reported(outcome, Report::Crash(SubsystemErrorView::ForcedShutdown))
    } else {
        outcome
    }
}

/// Brings the run to its end. If the limit was reached, the subsystems that are still running are
/// aborted, which is reported as a crash. The result is the outcome of the run, and what those
/// who wait for the root system are told.
pub fn finish_shutdown<K: Cancels>(
    drained: Drained,
    crash: &mut CrashHolder,
    cancel_clean_global_shutdown: &mut K,
) -> (told: (SubsystemResult, SubsystemError))
    ensures
        error::subsystem_result_view(told.0) == drained_outcome(old(crash).outcome(), drained),
        told.1@ == (if drained is Unlimited {
            SubsystemErrorView::OrderlyShutdown
        } else {
            SubsystemErrorView::ForcedShutdown
        }),
        final(crash).outcome() == Ok::<ExitCode, SubsystemErrorView>(ExitCode::success()),
        token::token_path(final(crash).token()) == token::token_path(old(crash).token()),
        drained is TimedOut ==> token::token_stopped(final(crash).token()),
        !(drained is TimedOut) ==> final(crash).token() == old(crash).token(),
        drained is TimedOut ==> token::token_stopped(final(cancel_clean_global_shutdown).token()),
        !(drained is TimedOut) ==> *final(cancel_clean_global_shutdown) == *old(
            cancel_clean_global_shutdown,
        ),
        token::token_path(final(cancel_clean_global_shutdown).token()) == token::token_path(
            old(cancel_clean_global_shutdown).token(),
        ),
{
    match drained {
        Drained::Unlimited => (crash.take_crash(), SubsystemError::OrderlyShutdown),
        Drained::InTime => (crash.take_crash(), SubsystemError::ForcedShutdown),
        Drained::TimedOut => {
            cancel_clean_global_shutdown.request();
            crash.set_crash(SubsystemError::ForcedShutdown);
            (crash.take_crash(), SubsystemError::ForcedShutdown)
        },
    }
}

/// The result of a run: its outcome, or that it was forced to stop if it went away without one.
pub fn run_result(finished: Option<SubsystemResult>) -> (result: SubsystemResult)
    ensures
        match finished {
            Some(outcome) => result == outcome,
            None => result matches Err(error) && error@ == SubsystemErrorView::ForcedShutdown,
        },
{
    match finished {
        Some(outcome) => outcome,
        None => Err(SubsystemError::ForcedShutdown),
    }
}

/// How a run ends, from all that was reported in it: with the first crash; else with a forced
/// shutdown, if the time to stop ran out; else with the exit code that was reported last; else
/// with success.
pub proof fn lemma_run_result(reports: Seq<Report>, drained: Drained)
    ensures
        drained_outcome(crash::outcome_of(reports), drained) == match crash::first_crash(reports) {
            Some(error) => Err(error),
            None => if drained is TimedOut {
                Err(SubsystemErrorView::ForcedShutdown)
            } else if reports.len() == 0 {
                Ok(ExitCode::success())
            } else {
                Ok(reports.last()->ExitCode_0)
            },
        },
{
    crash::lemma_first_crash_wins(reports);
}

} // verus!
