//! The result of a subsystem, as those who wait for it are told it.
use vstd::prelude::*;

use crate::error::SubsystemError;
#[allow(unused_imports)]
use crate::error::SubsystemErrorView;

verus! {

/// The result of a subsystem once it was published. It is published once and never changes.
pub struct Completion<T> {
    told: Option<Result<T, SubsystemError>>,
}

impl<T> View for Completion<T> {
    type V = Option<Result<T, SubsystemError>>;

    closed spec fn view(&self) -> Option<Result<T, SubsystemError>> {
        self.told
    }
}

/// What is published after `result` was published as well: what was published first.
pub open spec fn published<T>(
    told: Option<Result<T, SubsystemError>>,
    result: Result<T, SubsystemError>,
) -> Option<Result<T, SubsystemError>> {
    match told {
        Some(first) => Some(first),
        None => Some(result),
    }
}

/// Whether `result` is what someone who waits is told: a copy of what was published, or that the
/// subsystem was forced to stop if it went away without a result.
pub open spec fn joined<T: Clone>(
    told: Option<Result<T, SubsystemError>>,
    result: Result<T, SubsystemError>,
) -> bool {
    match told {
        Some(Ok(value)) => result matches Ok(copy) && cloned(value, copy),
        Some(Err(error)) => result == Err::<T, SubsystemError>(error),
        None => result matches Err(error) && error@ == SubsystemErrorView::ForcedShutdown,
    }
}

impl<T> Completion<T> {
    /// Nothing was published yet.
    pub fn new() -> (completion: Self)
        ensures
            completion@ is None,
    {
        Completion { told: None }
    }

    /// Publishes a result, unless there is one already.
    pub fn publish(&mut self, result: Result<T, SubsystemError>)
        ensures
            final(self)@ == published(old(self)@, result),
            old(self)@ is Some ==> final(self)@ == old(self)@,
            old(self)@ is None ==> final(self)@ == Some(result),
    {
        if self.told.is_none() {
            self.told = Some(result);
        }
    }

    /// Whether a result was published.
    pub fn is_completed(&self) -> (completed: bool)
        ensures
            completed == self@ is Some,
    {
        self.told.is_some()
    }
}

impl<T: Clone> Completion<T> {
    /// What someone who waits is told. Nothing is taken away.
    pub fn join(&self) -> (result: Result<T, SubsystemError>)
        ensures
            joined(self@, result),
            self@ matches Some(Err(error)) ==> result == Err::<T, SubsystemError>(error),
            self@ matches Some(Ok(value)) ==> (result matches Ok(copy) && cloned(value, copy)),
            self@ is None ==> result == Err::<T, SubsystemError>(SubsystemError::ForcedShutdown),
    {
        match &self.told {
            Some(Ok(value)) => Ok(value.clone()),
            Some(Err(error)) => Err(error.clone()),
            None => Err(SubsystemError::ForcedShutdown),
        }
    }
}

/// What was published stays: whatever is published later, all who wait are told the same, and a
/// completed subsystem never goes back to running.
pub proof fn lemma_completion_is_final<T>(
    told: Option<Result<T, SubsystemError>>,
    first: Result<T, SubsystemError>,
    later: Result<T, SubsystemError>,
)
    ensures
        published(told, first) is Some,
        published(published(told, first), later) == published(told, first),
        told is None ==> published(told, first) == Some(first),
{
}

} // verus!
