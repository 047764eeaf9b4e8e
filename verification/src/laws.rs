//! What the operations of the library are for, stated of all inputs.
use tokio::task::JoinError;
use tokio_util::sync::CancellationToken;
use vstd::prelude::*;

#[allow(unused_imports)]
use crate::completion;
#[allow(unused_imports)]
use crate::crash::{self, CrashHolder, Report};
#[allow(unused_imports)]
use crate::error::{
    self, GenErr, GenericError, GenericErrorView, IntoGenericError, IntoGenericResult,
    IntoSubsystemResult, SubsystemError, SubsystemErrorView,
};
#[allow(unused_imports)]
use crate::exit::{ExitCode, IntoExitCode, IntoExitCodeResult};
#[allow(unused_imports)]
use crate::id::{IdView, SubsystemId};
#[allow(unused_imports)]
use crate::metrics::{
    EventView, MetricsEvent, Outcome, OutcomeView, TaskInfo, TaskInfoView, TaskType, TaskTypeView,
};
#[allow(unused_imports)]
use crate::registry;
#[allow(unused_imports)]
use crate::root::{self, Drained};
#[allow(unused_imports)]
use crate::signal::{self, UnixSignal};
#[allow(unused_imports)]
use crate::stdin::{StdinAction, StdinHandler, StdinInput};
#[allow(unused_imports)]
use crate::subsystem::{self, Ended, SubsystemView};
#[allow(unused_imports)]
use crate::task;
#[allow(unused_imports)]
use crate::token;
#[allow(unused_imports)]
use crate::wait::WaitView;

verus! {

/// Those who wait for a subsystem get its own value or its own error: whoever failed is named, and
/// the error that they failed with is kept. No two ways to end are told alike.
pub proof fn lemma_end_is_told_as_it_was<T>(id: IdView, value: T, error: GenericError)
    ensures
        Ended::Returned(value).result(id) == Ok::<T, SubsystemErrorView>(value),
        Ended::<T>::Failed(error).result(id) == Err::<T, SubsystemErrorView>(
            SubsystemErrorView::Error(id, error@),
        ),
        Ended::<T>::Panicked(error).result(id) == Err::<T, SubsystemErrorView>(
            SubsystemErrorView::Panic(id, error@),
        ),
        Ended::<T>::Aborted.result(id) == Err::<T, SubsystemErrorView>(
            SubsystemErrorView::ForcedShutdown,
        ),
{
}

/// The end of a subsystem is traced with the description of the error that it ended with.
pub proof fn lemma_end_is_traced_as_it_was<T>(value: T, error: GenericError)
    ensures
        Ended::Returned(value).outcome() == OutcomeView::TerminatedNormally,
        Ended::<T>::Failed(error).outcome() == OutcomeView::TerminatedWithError(error@.display),
        Ended::<T>::Panicked(error).outcome() == OutcomeView::TerminatedWithError(error@.display),
        Ended::<T>::Aborted.outcome() == OutcomeView::ShutdownForced,
{
}

/// What the runtime reports of a task is taken as it is: a value, an error, a panic with its own
/// description, or an abortion.
pub proof fn lemma_end_is_taken_as_reported<T>(
    value: T,
    error: GenericError,
    failure: JoinError,
    end: Ended<T>,
)
    ensures
        subsystem::ended_as(Ok(Ok(value)), end) ==> end == Ended::Returned(value),
        subsystem::ended_as(Ok(Err(error)), end) ==> end == Ended::<T>::Failed(error),
        subsystem::ended_as(Err(failure), end) && task::join_error_is_panic(failure) ==> (
        end matches Ended::Panicked(description) && description@.display
            == task::join_error_display(failure) && description@.debug == task::join_error_debug(
            failure,
        )),
        subsystem::ended_as(Err(failure), end) && !task::join_error_is_panic(failure) ==> end
            == Ended::<T>::Aborted,
{
}

/// A subsystem that has ended is no longer running, and nobody else is affected by that. If it
/// returned a value, the run goes on as before. If not, the whole system is asked to stop, and the
/// run ends with this error unless another one was there first.
pub proof fn lemma_end_is_handled<T, W>(
    end: Ended<T>,
    id: IdView,
    other: IdView,
    running: (Map<IdView, W>, Map<IdView, W>),
    holder: (CrashHolder, CrashHolder),
    told: (MetricsEvent, Result<T, SubsystemError>),
)
    requires
        subsystem::handled(end, id, running, holder, told),
    ensures
        !running.1.contains_key(id),
        other != id ==> running.1.contains_key(other) == running.0.contains_key(other),
        other != id && running.0.contains_key(other) ==> running.1[other] == running.0[other],
        told.0@ is SubsystemStopped,
        told.0@->SubsystemStopped_id == id,
        !told.0@->SubsystemStopped_all_running.contains(id),
        other != id ==> told.0@->SubsystemStopped_all_running.contains(other)
            == running.0.contains_key(other),
        end is Returned ==> told.1 == Ok::<T, SubsystemError>(end->Returned_0) && holder.1
            == holder.0 && told.0@->SubsystemStopped_outcome == OutcomeView::TerminatedNormally,
        end is Failed ==> (told.1 matches Err(SubsystemError::Error(who, error)) && who@ == id
            && error@ == end->Failed_0@) && told.0@->SubsystemStopped_outcome
            == OutcomeView::TerminatedWithError(end->Failed_0@.display),
        end is Panicked ==> (told.1 matches Err(SubsystemError::Panic(who, error)) && who@ == id
            && error@ == end->Panicked_0@) && told.0@->SubsystemStopped_outcome
            == OutcomeView::TerminatedWithError(end->Panicked_0@.display),
        end is Aborted ==> told.1 == Err::<T, SubsystemError>(SubsystemError::ForcedShutdown)
            && told.0@->SubsystemStopped_outcome == OutcomeView::ShutdownForced,
        !(end is Returned) ==> token::token_stopped(holder.1.token()) && told.1 is Err,
        !(end is Returned) && holder.0.outcome() is Ok ==> holder.1.outcome() == Err::<
            ExitCode,
            SubsystemErrorView,
        >(told.1->Err_0@),
        holder.0.outcome() is Err ==> holder.1.outcome() == holder.0.outcome(),
{
    assert(running.1.dom().contains(other) == running.1.contains_key(other));
    assert(running.1.dom().contains(id) == running.1.contains_key(id));
}

/// A report counts only while there was no crash: a crash replaces any exit code, an exit code
/// replaces an exit code, and a crash is replaced by nothing.
pub proof fn lemma_reports(before: ExitCode, code: ExitCode, first: SubsystemErrorView, report: Report)
    ensures
        crash::reported(Ok(before), Report::ExitCode(code)) == Ok::<ExitCode, SubsystemErrorView>(
            code,
        ),
        crash::reported(Ok(before), Report::Crash(first)) == Err::<ExitCode, SubsystemErrorView>(
            first,
        ),
        crash::reported(Err(first), report) == Err::<ExitCode, SubsystemErrorView>(first),
{
}

/// The first crash is the one before which only exit codes were reported.
pub proof fn lemma_first_crash_is_first(reports: Seq<Report>, i: int)
    requires
        0 <= i < reports.len(),
        reports[i] is Crash,
        forall|j: int| 0 <= j < i ==> #[trigger] reports[j] is ExitCode,
    ensures
        crash::first_crash(reports) == Some(reports[i]->Crash_0),
        crash::outcome_of(reports) == Err::<ExitCode, SubsystemErrorView>(reports[i]->Crash_0),
    decreases i,
{
    if i > 0 {
        let rest = reports.skip(1);
        assert(reports[0] is ExitCode);
        assert(rest[i - 1] == reports[i]);
        assert forall|j: int| 0 <= j < i - 1 implies #[trigger] rest[j] is ExitCode by {
            assert(rest[j] == reports[j + 1]);
        }
        lemma_first_crash_is_first(rest, i - 1);
    }
    crash::lemma_first_crash_wins(reports);
}

/// A root system ends with exactly the exit code or the error that it returned, and only success is
/// a success.
pub proof fn lemma_root_ends_with_what_it_returned<E: IntoGenericError>(code: ExitCode, error: E)
    ensures
        root::root_ended(code) == Ok::<ExitCode, GenericErrorView>(code),
        root::root_ended(()) == Ok::<ExitCode, GenericErrorView>(ExitCode { code: 0 }),
        root::root_ended(Ok::<(), E>(())) == Ok::<ExitCode, GenericErrorView>(ExitCode { code: 0 }),
        root::root_ended(Err::<(), E>(error)) == Err::<ExitCode, GenericErrorView>(
            error.generic_error(),
        ),
{
}

/// The end of a root system is traced as normal if and only if its exit code is 0; an error is
/// traced with its description.
pub proof fn lemma_root_end_is_traced(code: ExitCode, failed: GenericErrorView)
    ensures
        root::root_outcome(Ok(code)) == OutcomeView::TerminatedNormally <==> code.code == 0,
        code.code != 0 ==> root::root_outcome(Ok(code)) == OutcomeView::TerminatedWithError(
            "Root system exited with non-zero exit code."@,
        ),
        root::root_outcome(Err(failed)) == OutcomeView::TerminatedWithError(failed.display),
{
}

/// A run in which the limit is reached ends with a forced shutdown unless there was a crash; every
/// other run ends as it stood.
pub proof fn lemma_limit_forces_shutdown(
    outcome: Result<ExitCode, SubsystemErrorView>,
    drained: Drained,
)
    ensures
        outcome is Ok && drained is TimedOut ==> root::drained_outcome(outcome, drained) == Err::<
            ExitCode,
            SubsystemErrorView,
        >(SubsystemErrorView::ForcedShutdown),
        outcome is Err || !(drained is TimedOut) ==> root::drained_outcome(outcome, drained)
            == outcome,
{
}

/// Of a root system of which only the name was said, nothing is switched on.
pub proof fn lemma_plain_root<C>(name: Seq<char>)
    ensures
        root::plain_root::<C>(name).name == name,
        !root::plain_root::<C>(name).catch_signals,
        !root::plain_root::<C>(name).shutdown_on_stdin_close,
        root::plain_root::<C>(name).shutdown_timeout is None,
        root::plain_root::<C>(name).stdin_consumer is None,
{
}

/// Whoever waits for a subsystem is told what was published, for every value and every error. Only
/// where nothing was published are they told of a forced shutdown.
pub proof fn lemma_join_gives_what_was_published<T: Clone>(
    value: T,
    failed: SubsystemError,
    result: Result<T, SubsystemError>,
)
    ensures
        completion::joined(Some(Err::<T, SubsystemError>(failed)), result) ==> result == Err::<
            T,
            SubsystemError,
        >(failed),
        completion::joined(Some(Ok::<T, SubsystemError>(value)), result) ==> result is Ok && cloned(
            value,
            result->Ok_0,
        ),
        completion::joined(None::<Result<T, SubsystemError>>, result) ==> result == Err::<
            T,
            SubsystemError,
        >(SubsystemError::ForcedShutdown),
{
}

/// The first result is published, and no other one after it.
pub proof fn lemma_first_result_is_published<T>(
    first: Result<T, SubsystemError>,
    later: Result<T, SubsystemError>,
)
    ensures
        completion::published(None, first) == Some(first),
        completion::published(Some(first), later) == Some(first),
{
}

/// Exit codes keep their numbers.
pub proof fn lemma_exit_codes(number: u8, code: ExitCode)
    ensures
        ExitCode::success().code == 0,
        ExitCode::failure().code == 1,
        code.exit_code() == code,
        ().exit_code().code == 0,
        <ExitCode as vstd::std_specs::convert::FromSpec<u8>>::from_spec(number).code == number,
{
}

/// What a root system may return stands for itself.
pub proof fn lemma_exit_code_results<C: IntoExitCode, E: IntoGenericError>(output: C, error: E)
    ensures
        output.exit_code_result() is Ok,
        output.exit_code_result()->Ok_0 == output,
        Ok::<(), E>(()).exit_code_result() == Ok::<ExitCode, E>(ExitCode { code: 0 }),
        Err::<(), E>(error).exit_code_result() == Err::<ExitCode, E>(error),
{
}

/// A result keeps its value, or its error with both descriptions; as that of a subsystem, the error
/// is that subsystem's.
pub proof fn lemma_results_keep_what_they_hold<T: Send + Sync + 'static, E: IntoGenericError>(
    value: T,
    failed: E,
    id: IdView,
)
    ensures
        Ok::<T, E>(value).generic_result() == Ok::<T, GenericErrorView>(value),
        Err::<T, E>(failed).generic_result() == Err::<T, GenericErrorView>(failed.generic_error()),
        ().generic_result() == Ok::<(), GenericErrorView>(()),
        Ok::<T, E>(value).subsystem_result(id) == Ok::<T, SubsystemErrorView>(value),
        Err::<T, E>(failed).subsystem_result(id) == Err::<T, SubsystemErrorView>(
            SubsystemErrorView::Error(id, failed.generic_error()),
        ),
{
}

/// An error of any kind is described as it describes itself.
pub proof fn lemma_errors_keep_their_descriptions<E: GenErr>(
    any: E,
    generic: GenericError,
    failure: JoinError,
)
    ensures
        any.generic_error().display == any.display_text(),
        any.generic_error().debug == any.debug_text(),
        generic.display_text() == generic@.display,
        generic.debug_text() == generic@.debug,
        failure.display_text() == task::join_error_display(failure),
        failure.debug_text() == task::join_error_debug(failure),
{
}

/// The message of an error says what became of which subsystem.
pub proof fn lemma_messages(id: IdView, source: GenericErrorView)
    ensures
        SubsystemErrorView::Error(id, source).message() == "Subsystem '"@ + id.display()
            + "' terminated with error"@,
        SubsystemErrorView::Panic(id, source).message() == "Subsystem '"@ + id.display()
            + "' panicked"@,
        SubsystemErrorView::OrderlyShutdown.message()
            == "Subsystem did not complete because it was asked to shut down"@,
        SubsystemErrorView::ForcedShutdown.message()
            == "Subsystem did not complete because it was forced to shut down"@,
{
}

/// The error behind an error is the one that the subsystem failed with.
pub proof fn lemma_sources(id: IdView, source: GenericErrorView)
    ensures
        SubsystemErrorView::Error(id, source).source() == Some(source),
        SubsystemErrorView::Panic(id, source).source() == Some(source),
        SubsystemErrorView::OrderlyShutdown.source() is None,
        SubsystemErrorView::ForcedShutdown.source() is None,
{
}

/// Nothing that an error or a result holds is lost in what it stands for.
pub proof fn lemma_errors_stand_for_themselves<T>(
    id: SubsystemId,
    source: GenericError,
    value: T,
    failed: SubsystemError,
)
    ensures
        SubsystemError::Error(id, source)@ == SubsystemErrorView::Error(id@, source@),
        SubsystemError::Panic(id, source)@ == SubsystemErrorView::Panic(id@, source@),
        SubsystemError::OrderlyShutdown@ == SubsystemErrorView::OrderlyShutdown,
        SubsystemError::ForcedShutdown@ == SubsystemErrorView::ForcedShutdown,
        error::subsystem_result_view(Ok::<T, SubsystemError>(value)) == Ok::<
            T,
            SubsystemErrorView,
        >(value),
        error::subsystem_result_view(Err::<T, SubsystemError>(failed)) == Err::<
            T,
            SubsystemErrorView,
        >(failed@),
        error::generic_result_view(Ok::<T, GenericError>(value)) == Ok::<T, GenericErrorView>(
            value,
        ),
        error::generic_result_view(Err::<T, GenericError>(source)) == Err::<T, GenericErrorView>(
            source@,
        ),
{
}

/// Nothing that an event holds is lost in what it stands for.
pub proof fn lemma_events_stand_for_themselves(
    id: SubsystemId,
    text: String,
    info: TaskInfo,
    outcome: Outcome,
    running: Vec<SubsystemId>,
    i: int,
)
    ensures
        Outcome::TerminatedNormally@ == OutcomeView::TerminatedNormally,
        Outcome::TerminatedWithError(text)@ == OutcomeView::TerminatedWithError(text@),
        Outcome::ShutdownForced@ == OutcomeView::ShutdownForced,
        TaskType::RootSystem(id)@ == TaskTypeView::RootSystem(id@),
        TaskType::Subsystem(id)@ == TaskTypeView::Subsystem(id@),
        TaskType::CancellationTask(id)@ == TaskTypeView::CancellationTask(id@),
        TaskType::JoinSignal(id)@ == TaskTypeView::JoinSignal(id@),
        TaskType::SignalHandler(text)@ == TaskTypeView::SignalHandler(text@),
        TaskType::LocalShutdownTimeout(id)@ == TaskTypeView::LocalShutdownTimeout(id@),
        TaskType::MetricsLogger@ == TaskTypeView::MetricsLogger,
        info@.id == info.id,
        info@.task_type == info.task_type@,
        MetricsEvent::TaskSpawned(info)@ == EventView::TaskSpawned(info@),
        (MetricsEvent::RootSystemStarted { id })@ == (EventView::RootSystemStarted { id: id@ }),
        (MetricsEvent::RootSystemStopped { id, outcome })@ == (EventView::RootSystemStopped {
            id: id@,
            outcome: outcome@,
        }),
        (MetricsEvent::SubsystemStarted { id, all_running: running })@ == (
        EventView::SubsystemStarted { id: id@, all_running: registry::id_views(running@) }),
        (MetricsEvent::SubsystemStopped { id, outcome, all_running: running })@ == (
        EventView::SubsystemStopped {
            id: id@,
            outcome: outcome@,
            all_running: registry::id_views(running@),
        }),
        registry::id_views(running@).len() == running@.len(),
        0 <= i < running@.len() ==> registry::id_views(running@)[i] == running@[i]@,
{
}

/// A listing holds exactly the ids of the set, and holds them in order.
pub proof fn lemma_listing_is_exact(ids: Seq<IdView>, set: Set<IdView>, id: IdView, i: int, j: int)
    requires
        registry::is_listing(ids, set),
    ensures
        ids.contains(id) == set.contains(id),
        0 <= i < j < ids.len() ==> ids[i].before(ids[j]) && ids[i] != ids[j],
{
    if 0 <= i < j < ids.len() {
        assert(ids[i].before(ids[j]));
        crate::id::lemma_id_order(ids[i], ids[i], ids[i]);
    }
}

/// The signals have the numbers and names that Unix gives them, and a process that one of them
/// stopped exits with 128 more than its number.
pub proof fn lemma_signals(number: i32)
    ensures
        UnixSignal::Hangup.spec_number() == 1,
        UnixSignal::Interrupt.spec_number() == 2,
        UnixSignal::Quit.spec_number() == 3,
        UnixSignal::Terminate.spec_number() == 15,
        UnixSignal::Hangup.spec_name() == "SIGHUP"@,
        UnixSignal::Interrupt.spec_name() == "SIGINT"@,
        UnixSignal::Quit.spec_name() == "SIGQUIT"@,
        UnixSignal::Terminate.spec_name() == "SIGTERM"@,
        signal::signal_status(number) - number == 128,
{
}

/// Every line is handed to the consumer as it was read, if there is one, and reading goes on; it
/// stops when nothing more can be read.
pub proof fn lemma_lines_are_handed_on<C>(handler: StdinHandler<C>, line: String)
    ensures
        handler.consumer is Some ==> handler.action(StdinInput::Line(line)) == StdinAction::Consume(
            line,
        ),
        handler.consumer is None ==> handler.action(StdinInput::Line(line)) == StdinAction::ReadOn,
        handler.action(StdinInput::Failed) == StdinAction::Stop,
        handler.action(StdinInput::Closed) == StdinAction::Stop,
{
}

/// A wait is over when nothing is left and nothing is awaited. It hands out the first of what is
/// left, keeps the others in order, and does not change its limit.
pub proof fn lemma_wait_steps<W>(wait: WaitView<W>)
    ensures
        wait.over() <==> wait.left.len() == 0 && !wait.awaiting,
        wait.left.len() == 0 ==> wait.handed() is None && wait.advanced().over(),
        wait.left.len() > 0 ==> wait.handed() == Some(wait.left[0]) && wait.advanced().awaiting
            && seq![wait.left[0]] + wait.advanced().left == wait.left,
        wait.advanced().limit == wait.limit,
{
    if wait.left.len() > 0 {
        assert(seq![wait.left[0]] + wait.advanced().left =~= wait.left);
    }
}

/// A subsystem is known to be asked to stop if and only if its own token or that of the whole system
/// is known to be cancelled.
pub proof fn lemma_who_is_asked(handle: SubsystemView, other: SubsystemView)
    ensures
        handle.asked_to_stop() <==> token::token_stopped(handle.local) || token::token_stopped(
            handle.global,
        ),
        handle.stopped_with(other) <==> (token::token_stopped(other.local) && token::token_path(
            other.local,
        ) == token::token_path(handle.local)) || (token::token_stopped(other.global)
            && token::token_path(other.global) == token::token_path(handle.global)),
{
}

/// A subsystem that is spawned continues the name of the one above it, has a token of its own
/// directly below that one's, shares the token of the whole system and the limit, and is waited for
/// by itself.
pub proof fn lemma_child(child: SubsystemView, parent: SubsystemView, name: Seq<char>)
    requires
        child.is_child_of(parent, name),
    ensures
        child.id.name == parent.id.name + "/"@ + name,
        token::token_path(child.local).len() == token::token_path(parent.local).len() + 1,
        forall|i: int|
            0 <= i < token::token_path(parent.local).len() ==> token::token_path(child.local)[i]
                == token::token_path(parent.local)[i],
        token::token_path(child.global) == token::token_path(parent.global),
        token::token_path(child.cancel_clean_global_shutdown) == token::token_path(
            parent.cancel_clean_global_shutdown,
        ),
        token::token_path(child.cancel_clean_local_shutdown)[0] != token::token_path(
            parent.cancel_clean_local_shutdown,
        )[0],
        child.shutdown_timeout == parent.shutdown_timeout,
{
    let (up, down) = (token::token_path(parent.local), token::token_path(child.local));
    assert forall|i: int| 0 <= i < up.len() implies down[i] == up[i] by {
        assert(down.drop_last()[i] == down[i]);
    }
}

/// The token of the whole system is the root of its tree, and the tokens that end the waits belong
/// to trees of their own.
pub proof fn lemma_places(handle: SubsystemView)
    requires
        handle.well_formed(),
    ensures
        token::token_path(handle.global).len() == 1,
        token::token_path(handle.local).len() > 1,
        token::token_path(handle.local)[0] == token::token_path(handle.global)[0],
        token::token_path(handle.cancel_clean_global_shutdown)[0] != token::token_path(
            handle.global,
        )[0],
        token::token_path(handle.cancel_clean_local_shutdown)[0] != token::token_path(
            handle.global,
        )[0],
        token::token_path(handle.cancel_clean_local_shutdown)[0] != token::token_path(
            handle.cancel_clean_global_shutdown,
        )[0],
{
    let (up, down) = (token::token_path(handle.global), token::token_path(handle.local));
    assert(up[0] == down.subrange(0, 1)[0]);
}

/// Handles on the same subsystem agree on who it is, where its tokens stand and what limit it has;
/// a shared handle knows of the same requests.
pub proof fn lemma_same_subsystem(a: SubsystemView, b: SubsystemView)
    ensures
        a.same_places(b) ==> a.id == b.id && a.shutdown_timeout == b.shutdown_timeout
            && token::token_path(a.local) == token::token_path(b.local) && token::token_path(
            a.global,
        ) == token::token_path(b.global) && token::token_path(a.cancel_clean_global_shutdown)
            == token::token_path(b.cancel_clean_global_shutdown) && token::token_path(
            a.cancel_clean_local_shutdown,
        ) == token::token_path(b.cancel_clean_local_shutdown),
        a.same_requests(b) ==> token::token_stopped(a.local) == token::token_stopped(b.local)
            && token::token_stopped(a.global) == token::token_stopped(b.global)
            && token::token_stopped(a.cancel_clean_global_shutdown) == token::token_stopped(
            b.cancel_clean_global_shutdown,
        ) && token::token_stopped(a.cancel_clean_local_shutdown) == token::token_stopped(
            b.cancel_clean_local_shutdown,
        ),
        a.leaves_alone(b) ==> !token::token_path(a.local).is_prefix_of(token::token_path(b.local))
            && token::token_path(a.cancel_clean_local_shutdown)[0] != token::token_path(
            b.cancel_clean_local_shutdown,
        )[0],
{
}

/// A token reaches those at or below its own place, and no others. Tokens of different trees do not
/// reach each other.
pub proof fn lemma_reach(above: CancellationToken, below: CancellationToken)
    ensures
        token::reaches(above, below) <==> token::token_path(above).is_prefix_of(
            token::token_path(below),
        ),
        token::apart(above, below) && token::token_path(above).len() > 0 ==> !token::reaches(
            above,
            below,
        ),
        token::stops(above, below) <==> token::token_path(above) == token::token_path(below) || (
        token::token_path(above).len() == 1 && token::reaches(above, below)),
{
    if token::reaches(above, below) && token::token_path(above).len() > 0 {
        let (x, y) = (token::token_path(above), token::token_path(below));
        assert(x[0] == y.subrange(0, x.len() as int)[0]);
    }
}

} // verus!
