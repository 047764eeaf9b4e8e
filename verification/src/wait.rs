//! The wait for the subsystems that are still running when the root system has ended.
use std::time::Duration;
use vstd::prelude::*;

#[allow(unused_imports)]
use crate::id::IdView;
#[allow(unused_imports)]
use crate::registry;
use crate::registry::SubsystemMap;
use crate::root;
use crate::root::Drained;

verus! {

/// What a [`ShutdownWait`] stands for.
pub struct WaitView<W> {
    /// What is still to be waited for, in order.
    pub left: Seq<W>,
    /// Whether one was handed out that has not ended yet.
    pub awaiting: bool,
    /// How long the wait may take, if there is a limit.
    pub limit: Option<Duration>,
}

impl<W> WaitView<W> {
    /// Whether all subsystems have ended.
    pub open spec fn over(self) -> bool {
        self.left.len() == 0 && !self.awaiting
    }

    /// What to wait for next.
    pub open spec fn handed(self) -> Option<W> {
        if self.left.len() > 0 {
            Some(self.left[0])
        } else {
            None
        }
    }

    /// The wait when the one that was handed out last has ended and the next one is handed out.
    pub open spec fn advanced(self) -> WaitView<W> {
        WaitView {
            left: if self.left.len() > 0 {
                self.left.skip(1)
            } else {
                self.left
            },
            awaiting: self.left.len() > 0,
            limit: self.limit,
        }
    }

    /// The wait after that many steps.
    pub open spec fn after(self, steps: nat) -> WaitView<W>
        decreases steps,
    {
        if steps == 0 {
            self
        } else {
            self.after((steps - 1) as nat).advanced()
        }
    }
}

/// The wait for subsystems to end, one after the other.
pub struct ShutdownWait<W> {
    left: Vec<W>,
    awaiting: bool,
    limit: Option<Duration>,
}

impl<W> View for ShutdownWait<W> {
    type V = WaitView<W>;

    closed spec fn view(&self) -> WaitView<W> {
        WaitView { left: self.left@, awaiting: self.awaiting, limit: self.limit }
    }
}

impl<W> ShutdownWait<W> {
    /// Waits for all of `subsystems`, in ascending order of their ids.
    pub fn new(subsystems: SubsystemMap<W>, limit: Option<Duration>) -> (wait: Self)
        ensures
            exists|ids: Seq<IdView>|
                #[trigger] registry::is_listing(ids, subsystems@.dom()) && wait@.left
                    == ids.map_values(|id: IdView| subsystems@[id]),
            !wait@.awaiting,
            wait@.limit == limit,
    {
        ShutdownWait { left: subsystems.into_values(), awaiting: false, limit }
    }

    /// What to wait for next, or nothing when all of them have ended. It is asked for at first, and
    /// then each time that what was handed out before has ended.
    pub fn next(&mut self) -> (waiter: Option<W>)
        ensures
            waiter == old(self)@.handed(),
            final(self)@ == old(self)@.advanced(),
    {
        if self.left.len() == 0 {
            self.awaiting = false;
            None
        } else {
            self.awaiting = true;
            let waiter: W = self.left.remove(0);
            proof {
                assert(self.left@ =~= old(self)@.left.skip(1));
            }
            Some(waiter)
        }
    }

    /// How the wait ended, or nothing while it goes on: it ends when all subsystems have ended or
    /// when its limit is reached. Without a limit, only the former ends it.
    pub fn drained(&self, timed_out: bool) -> (drained: Option<Drained>)
        ensures
            drained == (if self@.limit is Some && timed_out {
                Some(Drained::TimedOut)
            } else if !self@.over() {
                None
            } else if self@.limit is Some {
                Some(Drained::InTime)
            } else {
                Some(Drained::Unlimited)
            }),
    {
        let over: bool = self.left.len() == 0 && !self.awaiting;
        if over || (self.limit.is_some() && timed_out) {
            Some(root::drained(self.limit, timed_out))
        } else {
            None
        }
    }
}

proof fn lemma_after<W>(wait: WaitView<W>, steps: nat)
    requires
        steps <= wait.left.len(),
    ensures
        wait.after(steps).left == wait.left.skip(steps as int),
        wait.after(steps).limit == wait.limit,
        steps > 0 ==> wait.after(steps).awaiting,
    decreases steps,
{
    if steps == 0 {
        assert(wait.left.skip(0) =~= wait.left);
    } else {
        lemma_after(wait, (steps - 1) as nat);
        assert(wait.left.skip(steps - 1).skip(1) =~= wait.left.skip(steps as int));
    }
}

/// A wait that has just begun hands out each subsystem once and in order, and is over when all of
/// them were handed out and the last one has ended, and not before.
pub proof fn lemma_all_are_waited_for<W>(wait: WaitView<W>, steps: nat)
    requires
        !wait.awaiting,
        steps <= wait.left.len(),
    ensures
        steps < wait.left.len() ==> wait.after(steps).handed() == Some(wait.left[steps as int]),
        steps == wait.left.len() ==> wait.after(steps).handed() is None,
        wait.after(steps).over() == (wait.left.len() == 0),
        wait.after(wait.left.len() + 1).over(),
        wait.after(steps).limit == wait.limit,
{
    lemma_after(wait, steps);
    lemma_after(wait, wait.left.len());
}

} // verus!
