//! How the run of the whole system ends: the exit code or the crash that was reported.
use tokio_util::sync::CancellationToken;
use vstd::prelude::*;

use crate::error::SubsystemError;
#[allow(unused_imports)]
use crate::error::{self, SubsystemErrorView};
use crate::exit::ExitCode;
use crate::token;
use crate::token::{Cancels, TokenNode};

verus! {

/// How the run of the whole system ends.
pub type SubsystemResult = Result<ExitCode, SubsystemError>;

/// What can be reported of a run.
pub enum Report {
    /// The exit code to end with.
    ExitCode(ExitCode),
    /// The error that a part of the system failed with.
    Crash(SubsystemErrorView),
}

/// What a report makes of the outcome so far: a crash stays, an exit code gives way.
pub open spec fn reported(
    outcome: Result<ExitCode, SubsystemErrorView>,
    report: Report,
) -> Result<ExitCode, SubsystemErrorView> {
    match (outcome, report) {
        (Ok(_), Report::ExitCode(code)) => Ok(code),
        (Ok(_), Report::Crash(error)) => Err(error),
        (Err(error), _) => Err(error),
    }
}

/// The outcome of a run of which all of `reports` were made, one after the other.
pub open spec fn outcome_of(reports: Seq<Report>) -> Result<ExitCode, SubsystemErrorView>
    decreases reports.len(),
{
    if reports.len() == 0 {
        Ok(ExitCode::success())
    } else {
        reported(outcome_of(reports.drop_last()), reports.last())
    }
}

/// Holds the outcome of the run, and the token by which the whole system is asked to stop.
pub struct CrashHolder<K: TokenNode = CancellationToken> {
    crash: SubsystemResult,
    cancel: K,
}

impl<K: TokenNode> CrashHolder<K> {
    /// The outcome so far.
    pub closed spec fn outcome(&self) -> Result<ExitCode, SubsystemErrorView> {
        error::subsystem_result_view(self.crash)
    }

    /// The token by which the whole system is asked to stop.
    pub closed spec fn token(&self) -> CancellationToken {
        self.cancel.token()
    }

    /// A crash is never held while the system has not been asked to stop.
    #[verifier::type_invariant]
    spec fn crash_stops(self) -> bool {
        self.crash is Err ==> token::token_stopped(self.cancel.token())
    }

    /// Holds a successful outcome until something is reported.
    pub fn new(cancel: K) -> (holder: Self)
        ensures
            holder.outcome() == Ok::<ExitCode, SubsystemErrorView>(ExitCode::success()),
            holder.token() == cancel.token(),
    {
        CrashHolder { crash: Ok(ExitCode::success()), cancel }
    }

    /// Takes the outcome, and leaves a successful one.
    pub fn take_crash(&mut self) -> (result: SubsystemResult)
        ensures
            error::subsystem_result_view(result) == old(self).outcome(),
            final(self).outcome() == Ok::<ExitCode, SubsystemErrorView>(ExitCode::success()),
            final(self).token() == old(self).token(),
    {
        let mut result: SubsystemResult = Ok(ExitCode::success());
        std::mem::swap(&mut result, &mut self.crash);
        result
    }
}

impl<K: TokenNode + Cancels> CrashHolder<K> {
    /// Reports an exit code, and asks the system to stop. It is dropped if there was a crash.
    pub fn set_exit_code(&mut self, code: ExitCode)
        ensures
            final(self).outcome() == reported(old(self).outcome(), Report::ExitCode(code)),
            token::token_stopped(final(self).token()),
            token::token_path(final(self).token()) == token::token_path(old(self).token()),
            old(self).outcome() is Err ==> *final(self) == *old(self),
    {
        proof {
            use_type_invariant(&*self);
        }
        if self.crash.is_ok() {
            let mut cancel: K = self.cancel.share();
            cancel.request();
            *self = CrashHolder { crash: Ok(code), cancel };
        }
    }

    /// Reports a crash, and asks the system to stop. It is dropped if there was a crash before.
    pub fn set_crash(&mut self, err: SubsystemError)
        ensures
            final(self).outcome() == reported(old(self).outcome(), Report::Crash(err@)),
            token::token_stopped(final(self).token()),
            token::token_path(final(self).token()) == token::token_path(old(self).token()),
            old(self).outcome() is Err ==> *final(self) == *old(self),
    {
        proof {
            use_type_invariant(&*self);
        }
        if self.crash.is_ok() {
            let mut cancel: K = self.cancel.share();
            cancel.request();
            *self = CrashHolder { crash: Err(err), cancel };
        }
    }
}

/// The first crash among reports.
pub open spec fn first_crash(reports: Seq<Report>) -> Option<SubsystemErrorView>
    decreases reports.len(),
{
    if reports.len() == 0 {
        None
    } else {
        match reports[0] {
            Report::Crash(error) => Some(error),
            Report::ExitCode(_) => first_crash(reports.skip(1)),
        }
    }
}

proof fn lemma_first_crash_last(reports: Seq<Report>)
    requires
        reports.len() > 0,
    ensures
        first_crash(reports) == match first_crash(reports.drop_last()) {
            Some(error) => Some(error),
            None => match reports.last() {
                Report::Crash(error) => Some(error),
                Report::ExitCode(_) => None,
            },
        },
    decreases reports.len(),
{
    if reports.len() == 1 {
        assert(first_crash(reports.skip(1)) is None);
    } else if reports[0] is ExitCode {
        lemma_first_crash_last(reports.skip(1));
        assert(reports.skip(1).drop_last() =~= reports.drop_last().skip(1));
        assert(reports.skip(1).last() == reports.last());
    }
}

/// A run ends with the first crash that was reported. Without a crash it ends with the exit code
/// that was reported last, and without any report it ends successfully.
pub proof fn lemma_first_crash_wins(reports: Seq<Report>)
    ensures
        outcome_of(reports) == match first_crash(reports) {
            Some(error) => Err(error),
            None => if reports.len() == 0 {
                Ok(ExitCode::success())
            } else {
                Ok(reports.last()->ExitCode_0)
            },
        },
        first_crash(reports) is None && reports.len() > 0 ==> reports.last() is ExitCode,
    decreases reports.len(),
{
    if reports.len() > 0 {
        lemma_first_crash_wins(reports.drop_last());
        lemma_first_crash_last(reports);
    }
}

/// A crash, once reported, is the outcome whatever is reported later.
pub proof fn lemma_crash_stays(
    outcome: Result<ExitCode, SubsystemErrorView>,
    first: SubsystemErrorView,
    later: Report,
)
    ensures
        reported(reported(outcome, Report::Crash(first)), later) == reported(
            outcome,
            Report::Crash(first),
        ),
{
}

} // verus!
