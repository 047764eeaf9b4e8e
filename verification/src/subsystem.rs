//! The handle on a subsystem: who it is, and by which tokens it is asked or forced to stop.
use std::time::Duration;
use tokio::task::{Id, JoinError};
use tokio_util::sync::CancellationToken;
use vstd::prelude::*;

use crate::completion::Completion;
#[allow(unused_imports)]
use crate::completion;
use crate::crash::CrashHolder;
#[allow(unused_imports)]
use crate::crash::{self, Report};
use crate::error::{GenericError, IntoGenericError, SubsystemError};
#[allow(unused_imports)]
use crate::error::{self, GenericErrorView, SubsystemErrorView};
#[allow(unused_imports)]
use crate::exit::ExitCode;
#[allow(unused_imports)]
use crate::id::IdView;
use crate::id::SubsystemId;
use crate::metrics::{MetricsEvent, Outcome, TaskType};
#[allow(unused_imports)]
use crate::metrics::{EventView, OutcomeView, TaskInfoView, TaskTypeView};
#[allow(unused_imports)]
use crate::registry;
use crate::registry::SubsystemMap;
use crate::task;
use crate::token;
use crate::token::{Cancels, TokenNode, TokenRef};

verus! {

/// What a [`Subsystem`] stands for.
pub struct SubsystemView {
    /// Who the subsystem is.
    pub id: IdView,
    /// Asks the subsystem, and those below it, to stop.
    pub local: CancellationToken,
    /// Asks the whole system to stop.
    pub global: CancellationToken,
    /// Ends the wait for the whole system to stop by itself.
    pub cancel_clean_global_shutdown: CancellationToken,
    /// Ends the wait for the subsystem to stop by itself.
    pub cancel_clean_local_shutdown: CancellationToken,
    /// How long a subsystem that was asked to stop may take, if there is a limit.
    pub shutdown_timeout: Option<Duration>,
}

impl SubsystemView {
    /// The token of the whole system is the root of a tree, in which the subsystem's own token lies
    /// below it. The waits for a clean shutdown are ended by tokens of other trees.
    pub open spec fn well_formed(self) -> bool {
        &&& token::token_path(self.global).len() == 1
        &&& token::reaches(self.global, self.local)
        &&& token::token_path(self.global).len() < token::token_path(self.local).len()
        &&& token::apart(self.cancel_clean_global_shutdown, self.global)
        &&& token::apart(self.cancel_clean_local_shutdown, self.global)
        &&& token::apart(self.cancel_clean_local_shutdown, self.cancel_clean_global_shutdown)
    }

    /// Whether the subsystem is known to have been asked to stop, by itself or with the whole
    /// system.
    pub open spec fn asked_to_stop(self) -> bool {
        token::token_stopped(self.local) || token::token_stopped(self.global)
    }

    /// Whether the subsystem is known to have been asked to stop by what the handle `asked` is known
    /// to have asked: the same subsystem, or the whole system that both belong to.
    pub open spec fn stopped_with(self, asked: SubsystemView) -> bool {
        ||| token::token_stopped(asked.local) && token::token_path(asked.local)
            == token::token_path(self.local)
        ||| token::token_stopped(asked.global) && token::token_path(asked.global)
            == token::token_path(self.global)
    }

    /// Whether this subsystem leaves the subsystem `other` alone: a request to stop is not passed on
    /// to it, and the end of the wait for the one is not that for the other.
    pub open spec fn leaves_alone(self, other: SubsystemView) -> bool {
        &&& !token::reaches(self.local, other.local)
        &&& token::apart(self.cancel_clean_local_shutdown, other.cancel_clean_local_shutdown)
    }

    /// Whether the handles are on the same subsystem, apart from what it is known to be asked.
    pub open spec fn same_places(self, other: SubsystemView) -> bool {
        &&& self.id == other.id
        &&& token::token_path(self.local) == token::token_path(other.local)
        &&& token::token_path(self.global) == token::token_path(other.global)
        &&& token::token_path(self.cancel_clean_global_shutdown) == token::token_path(
            other.cancel_clean_global_shutdown,
        )
        &&& token::token_path(self.cancel_clean_local_shutdown) == token::token_path(
            other.cancel_clean_local_shutdown,
        )
        &&& self.shutdown_timeout == other.shutdown_timeout
    }

    /// Whether the same is known of what the handles' tokens were asked.
    pub open spec fn same_requests(self, other: SubsystemView) -> bool {
        &&& token::token_stopped(self.local) == token::token_stopped(other.local)
        &&& token::token_stopped(self.global) == token::token_stopped(other.global)
        &&& token::token_stopped(self.cancel_clean_global_shutdown) == token::token_stopped(
            other.cancel_clean_global_shutdown,
        )
        &&& token::token_stopped(self.cancel_clean_local_shutdown) == token::token_stopped(
            other.cancel_clean_local_shutdown,
        )
    }

    /// Whether this is a subsystem that was made directly below `parent` under the given name.
    pub open spec fn is_child_of(self, parent: SubsystemView, name: Seq<char>) -> bool {
        &&& self.id.name == parent.id.name + "/"@ + name
        &&& token::token_path(self.local).len() == token::token_path(parent.local).len() + 1
        &&& token::token_path(self.local).drop_last() == token::token_path(parent.local)
        &&& token::token_path(self.global) == token::token_path(parent.global)
        &&& token::token_path(self.cancel_clean_global_shutdown) == token::token_path(
            parent.cancel_clean_global_shutdown,
        )
        &&& token::apart(self.cancel_clean_local_shutdown, parent.cancel_clean_local_shutdown)
        &&& self.shutdown_timeout == parent.shutdown_timeout
    }
}

/// A handle on a subsystem. `L` is the type of the token that asks the subsystem to stop, `G` that
/// of the token that asks the whole system, and `W` that of the tokens that end the waits for a
/// clean shutdown. An operation asks only for what it is said to ask for: of the other tokens it
/// knows no more than that they are nodes of a tree, which cannot be cancelled.
pub struct Subsystem<
    L: TokenNode = CancellationToken,
    G: TokenNode = CancellationToken,
    W: TokenNode = CancellationToken,
> {
    id: SubsystemId,
    local: L,
    global: G,
    cancel_clean_global_shutdown: W,
    cancel_clean_local_shutdown: W,
    shutdown_timeout: Option<Duration>,
}

impl<L: TokenNode, G: TokenNode, W: TokenNode> View for Subsystem<L, G, W> {
    type V = SubsystemView;

    closed spec fn view(&self) -> SubsystemView {
        SubsystemView {
            id: self.id@,
            local: self.local.token(),
            global: self.global.token(),
            cancel_clean_global_shutdown: self.cancel_clean_global_shutdown.token(),
            cancel_clean_local_shutdown: self.cancel_clean_local_shutdown.token(),
            shutdown_timeout: self.shutdown_timeout,
        }
    }
}

impl<L: TokenNode, G: TokenNode, W: TokenNode> Clone for Subsystem<L, G, W> {
    fn clone(&self) -> (handle: Self)
        ensures
            handle@.same_places(self@),
            handle@.same_requests(self@),
            handle@.well_formed(),
    {
        proof {
            use_type_invariant(self);
        }
        Subsystem {
            id: self.id.clone(),
            local: self.local.share(),
            global: self.global.share(),
            cancel_clean_global_shutdown: self.cancel_clean_global_shutdown.share(),
            cancel_clean_local_shutdown: self.cancel_clean_local_shutdown.share(),
            shutdown_timeout: self.shutdown_timeout,
        }
    }
}

/// How to go on with a subsystem that was asked to stop and may take a limited time.
pub struct LocalShutdown<W: TokenNode = CancellationToken> {
    /// The subsystem.
    pub id: SubsystemId,
    /// How long it may take.
    pub timeout: Duration,
    /// The name of the task that waits for it.
    pub task_name: String,
    /// What to cancel if it takes longer.
    pub cancel_clean_shutdown: W,
}

impl<W: TokenNode> LocalShutdown<W> {
    /// The event that a task was spawned that waits for the subsystem to stop.
    pub fn task_spawned(&self, task: Id) -> (event: MetricsEvent)
        ensures
            event@ == EventView::TaskSpawned(
                TaskInfoView {
                    id: task::task_number(task),
                    task_type: TaskTypeView::LocalShutdownTimeout(self.id@),
                },
            ),
    {
        MetricsEvent::task_spawned(task, TaskType::LocalShutdownTimeout(self.id.clone()))
    }
}

/// What is needed to run a new subsystem.
pub struct SpawnPlan<
    L: TokenNode = CancellationToken,
    G: TokenNode = CancellationToken,
    W: TokenNode = CancellationToken,
> {
    /// The handle on the new subsystem.
    pub handle: Subsystem<L, G, W>,
    /// The name of the task that runs the subsystem.
    pub subsystem_task: String,
    /// The name of the task that waits for the subsystem to end or to be aborted.
    pub cancellation_task: String,
    /// The name of the task that tells that the subsystem has ended.
    pub join_task: String,
}

impl<K: TokenNode> Subsystem<K, K, K> {
    /// The handle on the root system, which is stopped with the whole system by `global`.
    pub(crate) fn root(
        name: String,
        global: &K,
        shutdown_timeout: Option<Duration>,
    ) -> (handle: Subsystem<K, K, K>)
        requires
            token::token_path(global.token()).len() == 1,
        ensures
            handle@.well_formed(),
            handle@.id == (IdView { task_id: 0, name: name@ }),
            token::token_path(handle@.global) == token::token_path(global.token()),
            token::token_path(handle@.local).len() == 2,
            handle@.asked_to_stop() == token::token_stopped(global.token()),
            token::token_path(handle@.cancel_clean_global_shutdown).len() == 1,
            token::token_path(handle@.cancel_clean_local_shutdown).len() == 1,
            !token::token_stopped(handle@.cancel_clean_global_shutdown),
            !token::token_stopped(handle@.cancel_clean_local_shutdown),
            handle@.shutdown_timeout == shutdown_timeout,
    {
        let beside: Vec<TokenRef<'_>> = Vec::new();
        let local: K = global.child(&beside);
        let beside: Vec<TokenRef<'_>> = vec![global.mention()];
        let cancel_clean_global_shutdown: K = K::fresh(&beside);
        proof {
            assert(beside@[0]@ == global.token());
        }
        let beside: Vec<TokenRef<'_>> = vec![
            global.mention(),
            cancel_clean_global_shutdown.mention(),
        ];
        let cancel_clean_local_shutdown: K = K::fresh(&beside);
        proof {
            assert(beside@[0]@ == global.token());
            assert(beside@[1]@ == cancel_clean_global_shutdown.token());
            let (up, down) = (token::token_path(global.token()), token::token_path(local.token()));
            assert(up =~= down.subrange(0, 1)) by {
                assert(down.drop_last()[0] == down[0]);
            }
        }
        Subsystem {
            id: SubsystemId::unassigned(name),
            local,
            global: global.share(),
            cancel_clean_global_shutdown,
            cancel_clean_local_shutdown,
            shutdown_timeout,
        }
    }
}

impl<L: TokenNode, G: TokenNode, W: TokenNode> Subsystem<L, G, W> {
    #[verifier::type_invariant]
    spec fn places(self) -> bool {
        self@.well_formed()
    }

    /// The full name of the subsystem.
    pub fn name(&self) -> (name: &str)
        ensures
            name@ == self@.id.name,
    {
        self.id.name()
    }

    /// Who the subsystem is.
    pub fn id(&self) -> (id: &SubsystemId)
        ensures
            id@ == self@.id,
    {
        &self.id
    }

    /// Whether the subsystem was asked to stop, by itself or with the whole system: what its own
    /// token answers. Others may ask the subsystem at any time through handles of their own, so
    /// the answer is known beforehand only where this handle is known to have asked.
    pub fn is_shut_down(&self) -> (shut_down: bool)
        ensures
            token::answered(self@.local, shut_down),
            self@.asked_to_stop() ==> shut_down,
    {
        proof {
            use_type_invariant(self);
        }
        let known: Vec<TokenRef<'_>> = vec![self.global.mention()];
        let shut_down: bool = self.local.is_stopped(&known);
        proof {
            assert(known@[0]@ == self@.global);
        }
        shut_down
    }

    /// Whether the subsystem was asked to stop, be it through this handle or through the handle
    /// `asked`: one on the same subsystem, or one on any part of the same system that asked the
    /// whole system to stop.
    pub fn is_shut_down_with(&self, asked: &Subsystem<L, G, W>) -> (shut_down: bool)
        ensures
            token::answered(self@.local, shut_down),
            self@.asked_to_stop() ==> shut_down,
            self@.stopped_with(asked@) ==> shut_down,
    {
        proof {
            use_type_invariant(self);
            use_type_invariant(asked);
        }
        let known: Vec<TokenRef<'_>> = vec![
            self.global.mention(),
            asked.local.mention(),
            asked.global.mention(),
        ];
        let shut_down: bool = self.local.is_stopped(&known);
        proof {
            assert(known@[0]@ == self@.global);
            assert(known@[1]@ == asked@.local);
            assert(known@[2]@ == asked@.global);
        }
        shut_down
    }

    /// Whether the subsystem was asked to stop, as `is_shut_down` says it. If so, whoever asked it,
    /// this handle takes note of it, and so do the handles that are made from it. Nobody is asked
    /// anything new.
    pub fn note_shut_down(&mut self) -> (shut_down: bool)
        ensures
            token::answered(old(self)@.local, shut_down),
            old(self)@.asked_to_stop() ==> shut_down,
            shut_down ==> token::token_stopped(final(self)@.local),
            shut_down ==> final(self)@.asked_to_stop(),
            !shut_down ==> *final(self) == *old(self),
            final(self)@ == (SubsystemView { local: final(self)@.local, ..old(self)@ }),
            final(self)@.same_places(old(self)@),
            final(self)@.well_formed(),
    {
        proof {
            use_type_invariant(&*self);
        }
        let known: Vec<TokenRef<'_>> = vec![self.global.mention()];
        proof {
            assert(known@[0]@ == self@.global);
        }
        match self.local.noted(&known) {
            Some(local) => {
                self.local = local;
                true
            },
            None => false,
        }
    }

    /// The token that asks the subsystem to stop.
    pub fn local(&self) -> (token: &L)
        ensures
            token.token() == self@.local,
    {
        &self.local
    }

    /// The token that asks the whole system to stop.
    pub fn global(&self) -> (token: &G)
        ensures
            token.token() == self@.global,
    {
        &self.global
    }

    /// The token that ends the wait for the whole system to stop by itself.
    pub fn cancel_clean_global_shutdown(&self) -> (token: &W)
        ensures
            token.token() == self@.cancel_clean_global_shutdown,
    {
        &self.cancel_clean_global_shutdown
    }

    /// The token that ends the wait for the subsystem to stop by itself.
    pub fn cancel_clean_local_shutdown(&self) -> (token: &W)
        ensures
            token.token() == self@.cancel_clean_local_shutdown,
    {
        &self.cancel_clean_local_shutdown
    }

    /// A subsystem directly below this one.
    fn create_child(
        &self,
        name: &str,
        cancel_clean_global_shutdown: W,
        cancel_clean_local_shutdown: W,
        beside: &Vec<TokenRef<'_>>,
    ) -> (child: Self)
        requires
            token::token_path(cancel_clean_global_shutdown.token()) == token::token_path(
                self@.cancel_clean_global_shutdown,
            ),
            token::apart(cancel_clean_local_shutdown.token(), self@.global),
            token::apart(cancel_clean_local_shutdown.token(), self@.cancel_clean_global_shutdown),
            token::apart(cancel_clean_local_shutdown.token(), self@.cancel_clean_local_shutdown),
        ensures
            child@.well_formed(),
            child@.is_child_of(self@, name@),
            child@.id.task_id == 0,
            token::token_stopped(child@.local) == token::token_stopped(self@.local),
            token::token_stopped(child@.global) == token::token_stopped(self@.global),
            child@.cancel_clean_global_shutdown == cancel_clean_global_shutdown.token(),
            child@.cancel_clean_local_shutdown == cancel_clean_local_shutdown.token(),
            forall|i: int|
                0 <= i < beside@.len() ==> !token::reaches(child@.local, (#[trigger] beside@[i])@),
    {
        proof {
            use_type_invariant(self);
        }
        let full_name: String = String::from_str(self.name()).concat("/").concat(name);
        let local: L = self.local.child(beside);
        proof {
            let (parent, child) = (token::token_path(self@.local), token::token_path(local.token()));
            assert(parent =~= child.subrange(0, parent.len() as int));
            token::lemma_reaches_transitive(self@.global, self@.local, local.token());
        }
        Subsystem {
            id: SubsystemId::unassigned(full_name),
            local,
            global: self.global.share(),
            cancel_clean_global_shutdown,
            cancel_clean_local_shutdown,
            shutdown_timeout: self.shutdown_timeout,
        }
    }

    /// Prepares a new subsystem directly below this one. It is asked to stop with this one, and
    /// has a token of its own that ends the wait for it to stop by itself.
    pub fn spawn(&self, name: &str) -> (plan: SpawnPlan<L, G, W>)
        ensures
            plan.handle@.well_formed(),
            plan.handle@.is_child_of(self@, name@),
            plan.handle@.id.task_id == 0,
            token::token_stopped(plan.handle@.local) == token::token_stopped(self@.local),
            token::token_stopped(plan.handle@.global) == token::token_stopped(self@.global),
            plan.handle@.asked_to_stop() == self@.asked_to_stop(),
            token::token_stopped(plan.handle@.cancel_clean_global_shutdown)
                == token::token_stopped(self@.cancel_clean_global_shutdown),
            token::token_path(plan.handle@.cancel_clean_local_shutdown).len() == 1,
            !token::token_stopped(plan.handle@.cancel_clean_local_shutdown),
            plan.subsystem_task@ == "Subsystem: "@ + plan.handle@.id.name,
            plan.cancellation_task@ == "Cancellation monitor: "@ + plan.handle@.id.name,
            plan.join_task@ == "Join: "@ + plan.handle@.id.name,
    {
        let others: Vec<&Self> = Vec::new();
        self.spawn_beside(name, &others)
    }

    /// Prepares a new subsystem directly below this one, as `spawn` does, while the subsystems
    /// `others` are there. The new one leaves all of them alone.
    pub fn spawn_beside(&self, name: &str, others: &Vec<&Subsystem<L, G, W>>) -> (plan:
        SpawnPlan<L, G, W>)
        ensures
            plan.handle@.well_formed(),
            plan.handle@.is_child_of(self@, name@),
            plan.handle@.id.task_id == 0,
            token::token_stopped(plan.handle@.local) == token::token_stopped(self@.local),
            token::token_stopped(plan.handle@.global) == token::token_stopped(self@.global),
            plan.handle@.asked_to_stop() == self@.asked_to_stop(),
            token::token_stopped(plan.handle@.cancel_clean_global_shutdown)
                == token::token_stopped(self@.cancel_clean_global_shutdown),
            token::token_path(plan.handle@.cancel_clean_local_shutdown).len() == 1,
            !token::token_stopped(plan.handle@.cancel_clean_local_shutdown),
            plan.subsystem_task@ == "Subsystem: "@ + plan.handle@.id.name,
            plan.cancellation_task@ == "Cancellation monitor: "@ + plan.handle@.id.name,
            plan.join_task@ == "Join: "@ + plan.handle@.id.name,
            forall|i: int|
                0 <= i < others@.len() ==> plan.handle@.leaves_alone((#[trigger] others@[i])@),
    {
        let mut waits: Vec<TokenRef<'_>> = vec![
            self.global.mention(),
            self.cancel_clean_global_shutdown.mention(),
            self.cancel_clean_local_shutdown.mention(),
        ];
        let mut locals: Vec<TokenRef<'_>> = Vec::new();
        let mut i: usize = 0;
        while i < others.len()
            invariant
                i <= others@.len(),
                waits@.len() == i + 3,
                locals@.len() == i,
                waits@[0]@ == self@.global,
                waits@[1]@ == self@.cancel_clean_global_shutdown,
                waits@[2]@ == self@.cancel_clean_local_shutdown,
                forall|k: int|
                    0 <= k < i ==> waits@[k + 3]@ == (
                    #[trigger] others@[k])@.cancel_clean_local_shutdown,
                forall|k: int| 0 <= k < i ==> locals@[k]@ == (#[trigger] others@[k])@.local,
            decreases others@.len() - i,
        {
            waits.push(others[i].cancel_clean_local_shutdown.mention());
            locals.push(others[i].local.mention());
            i = i + 1;
        }
        let cancel_clean_local_shutdown: W = W::fresh(&waits);
        proof {
            assert(token::apart(cancel_clean_local_shutdown.token(), waits@[0]@));
            assert(token::apart(cancel_clean_local_shutdown.token(), waits@[1]@));
            assert(token::apart(cancel_clean_local_shutdown.token(), waits@[2]@));
        }
        let handle: Self = self.create_child(
            name,
            self.cancel_clean_global_shutdown.share(),
            cancel_clean_local_shutdown,
            &locals,
        );
        proof {
            assert forall|k: int| 0 <= k < others@.len() implies handle@.leaves_alone(
                (#[trigger] others@[k])@,
            ) by {
                assert(token::apart(cancel_clean_local_shutdown.token(), waits@[k + 3]@));
                assert(!token::reaches(handle@.local, locals@[k]@));
            }
        }
        let subsystem_task: String = String::from_str("Subsystem: ").concat(handle.name());
        let cancellation_task: String = String::from_str("Cancellation monitor: ").concat(
            handle.name(),
        );
        let join_task: String = String::from_str("Join: ").concat(handle.name());
        SpawnPlan { handle, subsystem_task, cancellation_task, join_task }
    }

    /// Takes note of the task that runs the subsystem.
    pub fn assign_task(&mut self, task: Id)
        ensures
            final(self)@ == (SubsystemView {
                id: IdView { task_id: task::task_number(task), name: old(self)@.id.name },
                ..old(self)@
            }),
            final(self)@.well_formed(),
    {
        proof {
            use_type_invariant(&*self);
        }
        let mut id: SubsystemId = self.id.clone();
        id.set_task_id(task::to_u64(task));
        self.id = id;
    }

    /// Takes note of the task that runs the subsystem. The result is the event to trace.
    pub fn subsystem_task_spawned(&mut self, task: Id) -> (event: MetricsEvent)
        ensures
            final(self)@ == (SubsystemView {
                id: IdView { task_id: task::task_number(task), name: old(self)@.id.name },
                ..old(self)@
            }),
            final(self)@.well_formed(),
            event@ == EventView::TaskSpawned(
                TaskInfoView {
                    id: task::task_number(task),
                    task_type: TaskTypeView::Subsystem(final(self)@.id),
                },
            ),
    {
        self.assign_task(task);
        MetricsEvent::task_spawned(task, TaskType::Subsystem(self.id.clone()))
    }

    /// The event that a task was spawned that waits for the subsystem to end or to be aborted.
    pub fn cancellation_task_spawned(&self, task: Id) -> (event: MetricsEvent)
        ensures
            event@ == EventView::TaskSpawned(
                TaskInfoView {
                    id: task::task_number(task),
                    task_type: TaskTypeView::CancellationTask(self@.id),
                },
            ),
    {
        MetricsEvent::task_spawned(task, TaskType::CancellationTask(self.id.clone()))
    }

    /// The event that a task was spawned that tells that the subsystem has ended.
    pub fn join_task_spawned(&self, task: Id) -> (event: MetricsEvent)
        ensures
            event@ == EventView::TaskSpawned(
                TaskInfoView {
                    id: task::task_number(task),
                    task_type: TaskTypeView::JoinSignal(self@.id),
                },
            ),
    {
        MetricsEvent::task_spawned(task, TaskType::JoinSignal(self.id.clone()))
    }

    /// Adds the subsystem to those that are running.
    pub fn register<S>(&self, subsystems: &mut SubsystemMap<S>, waiter: S) -> (event: MetricsEvent)
        ensures
            final(subsystems)@ == old(subsystems)@.insert(self@.id, waiter),
            event@ matches EventView::SubsystemStarted { id, all_running } && id == self@.id
                && registry::is_listing(all_running, final(subsystems)@.dom()),
    {
        subsystems.insert(self.id.clone(), waiter);
        MetricsEvent::SubsystemStarted { id: self.id.clone(), all_running: subsystems.running() }
    }
}

impl<L: TokenNode, G: TokenNode + Cancels, W: TokenNode> Subsystem<L, G, W> {
    /// Asks the whole system to stop.
    pub fn request_global_shutdown(&mut self)
        ensures
            token::token_stopped(final(self)@.global),
            final(self)@.asked_to_stop(),
            final(self)@.same_places(old(self)@),
            final(self)@.well_formed(),
            final(self)@ == (SubsystemView { global: final(self)@.global, ..old(self)@ }),
    {
        proof {
            use_type_invariant(&*self);
        }
        let mut global: G = self.global.share();
        global.request();
        self.global = global;
    }
}

impl<L: TokenNode + Cancels, G: TokenNode, W: TokenNode> Subsystem<L, G, W> {
    /// Asks the subsystem, and those below it, to stop. If it may take a limited time, the result
    /// says how to go on.
    pub fn request_local_shutdown(&mut self) -> (plan: Option<LocalShutdown<W>>)
        ensures
            token::token_stopped(final(self)@.local),
            final(self)@.asked_to_stop(),
            final(self)@.same_places(old(self)@),
            final(self)@.well_formed(),
            final(self)@ == (SubsystemView { local: final(self)@.local, ..old(self)@ }),
            match old(self)@.shutdown_timeout {
                Some(timeout) => plan matches Some(plan) && plan.timeout == timeout && plan.id@
                    == old(self)@.id && plan.task_name@ == "Shutdown monitor: "@
                    + old(self)@.id.name && token::token_path(plan.cancel_clean_shutdown.token())
                    == token::token_path(old(self)@.cancel_clean_local_shutdown)
                    && token::token_stopped(plan.cancel_clean_shutdown.token()) == token::token_stopped(
                    old(self)@.cancel_clean_local_shutdown,
                ),
                None => plan is None,
            },
    {
        proof {
            use_type_invariant(&*self);
        }
        let mut local: L = self.local.share();
        local.request();
        self.local = local;
        match self.shutdown_timeout {
            Some(timeout) => {
                let task_name: String = String::from_str("Shutdown monitor: ");
                Some(
                    LocalShutdown {
                        id: self.id.clone(),
                        timeout,
                        task_name: task_name.concat(self.id.name()),
                        cancel_clean_shutdown: self.cancel_clean_local_shutdown.share(),
                    },
                )
            },
            None => None,
        }
    }
}

impl Subsystem<CancellationToken, CancellationToken, CancellationToken> {
    /// What someone who waits for a subsystem is told: its result, or that it was forced to stop if
    /// it went away without one.
    pub fn join<T: Clone>(completed: &Completion<T>) -> (result: Result<T, SubsystemError>)
        ensures
            completion::joined(completed@, result),
            completed@ matches Some(Err(error)) ==> result == Err::<T, SubsystemError>(error),
            completed@ matches Some(Ok(value)) ==> (result matches Ok(copy) && cloned(value, copy)),
            completed@ is None ==> result == Err::<T, SubsystemError>(
                SubsystemError::ForcedShutdown,
            ),
    {
        completed.join()
    }
}

/// How the task of a subsystem ended.
pub enum Ended<T> {
    /// The subsystem returned a value.
    Returned(T),
    /// The subsystem returned an error.
    Failed(GenericError),
    /// The subsystem panicked.
    Panicked(GenericError),
    /// The task was aborted.
    Aborted,
}

impl<T> Ended<T> {
    /// How the end of the subsystem is traced.
    pub open spec fn outcome(self) -> OutcomeView {
        match self {
            Ended::Returned(_) => OutcomeView::TerminatedNormally,
            Ended::Failed(error) => OutcomeView::TerminatedWithError(error@.display),
            Ended::Panicked(error) => OutcomeView::TerminatedWithError(error@.display),
            Ended::Aborted => OutcomeView::ShutdownForced,
        }
    }

    /// What those who wait for the subsystem `id` are told.
    pub open spec fn result(self, id: IdView) -> Result<T, SubsystemErrorView> {
        match self {
            Ended::Returned(value) => Ok(value),
            Ended::Failed(error) => Err(SubsystemErrorView::Error(id, error@)),
            Ended::Panicked(error) => Err(SubsystemErrorView::Panic(id, error@)),
            Ended::Aborted => Err(SubsystemErrorView::ForcedShutdown),
        }
    }
}

/// How a task ended, from what the runtime reports of it.
pub open spec fn ended_as<T>(res: Result<Result<T, GenericError>, JoinError>, ended: Ended<T>) -> bool {
    match res {
        Ok(Ok(value)) => ended == Ended::Returned(value),
        Ok(Err(error)) => ended == Ended::<T>::Failed(error),
        Err(failure) => if task::join_error_is_panic(failure) {
            ended matches Ended::Panicked(error) && error@ == (GenericErrorView {
                display: task::join_error_display(failure),
                debug: task::join_error_debug(failure),
            })
        } else {
            ended == Ended::<T>::Aborted
        },
    }
}

fn ended<T>(res: Result<Result<T, GenericError>, JoinError>) -> (end: Ended<T>)
    ensures
        ended_as(res, end),
{
    match res {
        Ok(Ok(value)) => Ended::Returned(value),
        Ok(Err(error)) => Ended::Failed(error),
        Err(failure) => {
            if failure.is_panic() {
                Ended::Panicked(failure.into_generic_error())
            } else {
                Ended::Aborted
            }
        },
    }
}

/// What becomes of a subsystem that has ended. It is no longer among those that are running, and
/// its end is traced. Those who wait for it are told its value or its error. An error is reported
/// as a crash, and the whole system is asked to stop; a value leaves the outcome of the run alone.
pub open spec fn handled<T, W>(
    end: Ended<T>,
    id: IdView,
    running: (Map<IdView, W>, Map<IdView, W>),
    holder: (CrashHolder, CrashHolder),
    told: (MetricsEvent, Result<T, SubsystemError>),
) -> bool {
    &&& running.1 == running.0.remove(id)
    &&& told.0@ matches EventView::SubsystemStopped { id: stopped, outcome, all_running }
        && stopped == id && outcome == end.outcome() && registry::is_listing(
        all_running,
        running.1.dom(),
    )
    &&& error::subsystem_result_view(told.1) == end.result(id)
    &&& match end.result(id) {
        Ok(_) => holder.1 == holder.0,
        Err(error) => {
            &&& holder.1.outcome() == crash::reported(holder.0.outcome(), Report::Crash(error))
            &&& token::token_stopped(holder.1.token())
            &&& token::token_path(holder.1.token()) == token::token_path(holder.0.token())
        },
    }
}

/// Handles that a subsystem has ended. The result is the event to trace and what those who wait
/// for the subsystem are told.
pub fn subsystem_ended<T, W>(
    end: Ended<T>,
    subsystems: &mut SubsystemMap<W>,
    id: SubsystemId,
    crash: &mut CrashHolder,
) -> (told: (MetricsEvent, Result<T, SubsystemError>))
    ensures
        handled(
            end,
            id@,
            (old(subsystems)@, final(subsystems)@),
            (*old(crash), *final(crash)),
            told,
        ),
        end matches Ended::Returned(value) ==> told.1 == Ok::<T, SubsystemError>(value)
            && *final(crash) == *old(crash),
        end matches Ended::Failed(failed) ==> (told.1 matches Err(SubsystemError::Error(who, error))
            && who@ == id@ && error@ == failed@),
        end matches Ended::Panicked(failed) ==> (told.1 matches Err(
            SubsystemError::Panic(who, error),
        ) && who@ == id@ && error@ == failed@),
        end is Aborted ==> told.1 == Err::<T, SubsystemError>(SubsystemError::ForcedShutdown),
        told.1 is Err && old(crash).outcome() is Ok ==> final(crash).outcome() == Err::<
            ExitCode,
            SubsystemErrorView,
        >(told.1->Err_0@),
        old(crash).outcome() is Err ==> final(crash).outcome() == old(crash).outcome(),
{
    subsystems.remove(&id);
    let all_running: Vec<SubsystemId> = subsystems.running();
    let (outcome, result): (Outcome, Result<T, SubsystemError>) = match end {
        Ended::Returned(value) => (Outcome::TerminatedNormally, Ok(value)),
        Ended::Failed(error) => (
            Outcome::TerminatedWithError(error.to_string()),
            Err(SubsystemError::Error(id.clone(), error)),
        ),
        Ended::Panicked(error) => (
            Outcome::TerminatedWithError(error.to_string()),
            Err(SubsystemError::Panic(id.clone(), error)),
        ),
        Ended::Aborted => (Outcome::ShutdownForced, Err(SubsystemError::ForcedShutdown)),
    };
    match &result {
        Ok(_) => {},
        Err(error) => crash.set_crash(error.clone()),
    }
    (MetricsEvent::SubsystemStopped { id, outcome, all_running }, result)
}

/// Handles that the task of a subsystem has ended, from what the runtime reports of it.
pub fn subsystem_joined<T, W>(
    res: Result<Result<T, GenericError>, JoinError>,
    subsystems: &mut SubsystemMap<W>,
    id: SubsystemId,
    crash: &mut CrashHolder,
) -> (told: (MetricsEvent, Result<T, SubsystemError>))
    ensures
        exists|end: Ended<T>| #[trigger]
            ended_as(res, end) && handled(
                end,
                id@,
                (old(subsystems)@, final(subsystems)@),
                (*old(crash), *final(crash)),
                told,
            ),
        match res {
            Ok(Ok(value)) => told.1 == Ok::<T, SubsystemError>(value) && *final(crash) == *old(
                crash,
            ),
            Ok(Err(failed)) => told.1 matches Err(SubsystemError::Error(who, error)) && who@ == id@
                && error@ == failed@,
            Err(failure) => if task::join_error_is_panic(failure) {
                told.1 matches Err(SubsystemError::Panic(who, error)) && who@ == id@
                    && error@.display == task::join_error_display(failure) && error@.debug
                    == task::join_error_debug(failure)
            } else {
                told.1 == Err::<T, SubsystemError>(SubsystemError::ForcedShutdown)
            },
        },
        told.1 is Err && old(crash).outcome() is Ok ==> final(crash).outcome() == Err::<
            ExitCode,
            SubsystemErrorView,
        >(told.1->Err_0@),
        old(crash).outcome() is Err ==> final(crash).outcome() == old(crash).outcome(),
{
    let end: Ended<T> = ended(res);
    subsystem_ended(end, subsystems, id, crash)
}

/// Handles that a subsystem that was asked to stop took too long and was aborted: it is taken out
/// of those that are running. The result is the event to trace and what those who wait for the
/// subsystem are told.
pub fn subsystem_timed_out<W>(subsystems: &mut SubsystemMap<W>, id: SubsystemId) -> (told: (
    MetricsEvent,
    SubsystemError,
))
    ensures
        final(subsystems)@ == old(subsystems)@.remove(id@),
        told.0@ matches EventView::SubsystemStopped { id: stopped, outcome, all_running }
            && stopped == id@ && outcome == OutcomeView::ShutdownForced && registry::is_listing(
            all_running,
            final(subsystems)@.dom(),
        ),
        told.1@ == SubsystemErrorView::ForcedShutdown,
{
    subsystems.remove(&id);
    let all_running: Vec<SubsystemId> = subsystems.running();
    (
        MetricsEvent::SubsystemStopped { id, outcome: Outcome::ShutdownForced, all_running },
        SubsystemError::ForcedShutdown,
    )
}

/// Handles that the whole system took too long to stop, for a subsystem that was aborted for it.
pub fn global_shutdown_timed_out<K: Cancels>(global: &mut K, crash: &mut CrashHolder)
    ensures
        token::token_stopped(final(global).token()),
        token::token_path(final(global).token()) == token::token_path(old(global).token()),
        final(crash).outcome() == crash::reported(
            old(crash).outcome(),
            Report::Crash(SubsystemErrorView::ForcedShutdown),
        ),
        token::token_stopped(final(crash).token()),
        token::token_path(final(crash).token()) == token::token_path(old(crash).token()),
{
    global.request();
    crash.set_crash(SubsystemError::ForcedShutdown);
}

/// What the task that watches over a subsystem was woken by.
pub enum MonitorEvent<T> {
    /// The task of the subsystem ended.
    Joined(Result<Result<T, GenericError>, JoinError>),
    /// The whole system, which is asked to stop by this token, took too long to do so.
    GlobalTimeout(CancellationToken),
    /// The subsystem was asked to stop and took too long.
    LocalTimeout,
}

impl<T> MonitorEvent<T> {
    /// Whether to abort the task of the subsystem: it did not end by itself.
    pub fn aborts(&self) -> (aborts: bool)
        ensures
            aborts == !(self is Joined),
    {
        match self {
            MonitorEvent::Joined(_) => false,
            MonitorEvent::GlobalTimeout(_) => true,
            MonitorEvent::LocalTimeout => true,
        }
    }
}

/// What is left to do for a subsystem that is no longer watched over.
pub struct MonitorAction<T> {
    /// The event to trace, if there is one.
    pub event: Option<MetricsEvent>,
    /// What to tell those who wait for the subsystem, if they are told anything.
    pub told: Option<Result<T, SubsystemError>>,
    /// The token by which the whole system was asked to stop, if it was.
    pub stopped: Option<CancellationToken>,
}

/// Handles what the task that watches over a subsystem was woken by. A subsystem that ended is
/// handled as such. One that took too long was aborted: if it was asked to stop by itself, those
/// who wait for it are told so and the rest of the system goes on; if the whole system was to stop,
/// the forced shutdown is reported as a crash.
pub fn monitor<T, W>(
    event: MonitorEvent<T>,
    subsystems: &mut SubsystemMap<W>,
    id: SubsystemId,
    crash: &mut CrashHolder,
) -> (action: MonitorAction<T>)
    ensures
        token::token_path(final(crash).token()) == token::token_path(old(crash).token()),
        match event {
            MonitorEvent::Joined(res) => {
                &&& action.event is Some && action.told is Some && action.stopped is None
                &&& exists|end: Ended<T>| #[trigger]
                    ended_as(res, end) && handled(
                        end,
                        id@,
                        (old(subsystems)@, final(subsystems)@),
                        (*old(crash), *final(crash)),
                        (action.event->0, action.told->0),
                    )
                &&& match res {
                    Ok(Ok(value)) => action.told->0 == Ok::<T, SubsystemError>(value)
                        && *final(crash) == *old(crash),
                    Ok(Err(failed)) => action.told->0 matches Err(SubsystemError::Error(who, error))
                        && who@ == id@ && error@ == failed@,
                    Err(failure) => if task::join_error_is_panic(failure) {
                        action.told->0 matches Err(SubsystemError::Panic(who, error)) && who@ == id@
                            && error@.display == task::join_error_display(failure) && error@.debug
                            == task::join_error_debug(failure)
                    } else {
                        action.told->0 == Err::<T, SubsystemError>(SubsystemError::ForcedShutdown)
                    },
                }
                &&& action.told->0 is Err && old(crash).outcome() is Ok ==> final(crash).outcome()
                    == Err::<ExitCode, SubsystemErrorView>(action.told->0->Err_0@)
            },
            MonitorEvent::GlobalTimeout(global) => {
                &&& action.event is None && action.told is None
                &&& action.stopped matches Some(stopped) && token::token_stopped(stopped)
                    && token::token_path(stopped) == token::token_path(global)
                &&& final(subsystems)@ == old(subsystems)@
                &&& final(crash).outcome() == crash::reported(
                    old(crash).outcome(),
                    Report::Crash(SubsystemErrorView::ForcedShutdown),
                )
                &&& token::token_stopped(final(crash).token())
            },
            MonitorEvent::LocalTimeout => {
                &&& final(subsystems)@ == old(subsystems)@.remove(id@)
                &&& action.event matches Some(event) && event@ matches EventView::SubsystemStopped {
                    id: stopped,
                    outcome,
                    all_running,
                } && stopped == id@ && outcome == OutcomeView::ShutdownForced
                    && registry::is_listing(all_running, final(subsystems)@.dom())
                &&& action.told matches Some(Err(error)) && error@
                    == SubsystemErrorView::ForcedShutdown
                &&& action.stopped is None
                &&& *final(crash) == *old(crash)
            },
        },
{
    match event {
        MonitorEvent::Joined(res) => {
            let (event, told): (MetricsEvent, Result<T, SubsystemError>) = subsystem_joined(
                res,
                subsystems,
                id,
                crash,
            );
            MonitorAction { event: Some(event), told: Some(told), stopped: None }
        },
        MonitorEvent::GlobalTimeout(handle) => {
            let mut global: CancellationToken = handle;
            global_shutdown_timed_out(&mut global, crash);
            MonitorAction { event: None, told: None, stopped: Some(global) }
        },
        MonitorEvent::LocalTimeout => {
            let (event, error): (MetricsEvent, SubsystemError) = subsystem_timed_out(
                subsystems,
                id,
            );
            MonitorAction { event: Some(event), told: Some(Err(error)), stopped: None }
        },
    }
}

/// Ends the wait for a subsystem to stop by itself, if it took too long.
pub fn local_shutdown_timeout<K: Cancels>(timed_out: bool, cancel_clean_shutdown: &mut K)
    ensures
        timed_out ==> token::token_stopped(final(cancel_clean_shutdown).token()),
        !timed_out ==> *final(cancel_clean_shutdown) == *old(cancel_clean_shutdown),
        token::token_path(final(cancel_clean_shutdown).token()) == token::token_path(
            old(cancel_clean_shutdown).token(),
        ),
{
    if timed_out {
        cancel_clean_shutdown.request();
    }
}

/// Whether `child` was made directly below `parent`, under some name.
pub open spec fn is_child(child: SubsystemView, parent: SubsystemView) -> bool {
    exists|name: Seq<char>| child.is_child_of(parent, name)
}

/// Whether each of `chain` was made directly below the one before it.
pub open spec fn is_lineage(chain: Seq<SubsystemView>) -> bool {
    forall|i: int| 0 < i < chain.len() ==> is_child(#[trigger] chain[i], chain[i - 1])
}

/// A request to stop is passed down. A subsystem that was made below another, at any distance,
/// is reached by a request to the other one and by one to the whole system. It does not pass a
/// request up, it has the same time to stop, and its name continues that of the other one.
pub proof fn lemma_shutdown_reaches_descendants(chain: Seq<SubsystemView>, i: int, j: int)
    requires
        is_lineage(chain),
        0 <= i < j < chain.len(),
        chain[i].well_formed(),
    ensures
        token::reaches(chain[i].local, chain[j].local),
        token::reaches(chain[i].global, chain[j].local),
        !token::reaches(chain[j].local, chain[i].local),
        !token::reaches(chain[j].local, chain[i].global),
        token::token_path(chain[j].global) == token::token_path(chain[i].global),
        token::token_path(chain[j].cancel_clean_global_shutdown) == token::token_path(
            chain[i].cancel_clean_global_shutdown,
        ),
        chain[j].shutdown_timeout == chain[i].shutdown_timeout,
        (chain[i].id.name + "/"@).is_prefix_of(chain[j].id.name),
    decreases j - i,
{
    let (a, b, c) = (chain[i], chain[j - 1], chain[j]);
    assert(is_child(c, b));
    let name = choose|name: Seq<char>| c.is_child_of(b, name);
    let (up, down) = (token::token_path(b.local), token::token_path(c.local));
    assert(up =~= down.subrange(0, up.len() as int));
    assert(token::reaches(b.local, c.local));
    let stem = a.id.name + "/"@;
    if i < j - 1 {
        lemma_shutdown_reaches_descendants(chain, i, j - 1);
        token::lemma_reaches_transitive(a.local, b.local, c.local);
        assert(stem =~= c.id.name.subrange(0, stem.len() as int)) by {
            assert(stem =~= b.id.name.subrange(0, stem.len() as int));
            assert(b.id.name =~= c.id.name.subrange(0, b.id.name.len() as int));
        }
    } else {
        assert(stem =~= c.id.name.subrange(0, stem.len() as int));
    }
    token::lemma_reaches_transitive(a.global, a.local, c.local);
}

/// What asks the whole system to stop asks every subsystem. `system` is a handle on the token of
/// the whole system, such as the holder of the outcome has: it reaches the root system, at the
/// head of `chain`, and all that was made below it.
pub proof fn lemma_whole_system_is_reached(
    chain: Seq<SubsystemView>,
    system: CancellationToken,
    j: int,
)
    requires
        is_lineage(chain),
        0 <= j < chain.len(),
        chain[0].well_formed(),
        token::token_path(system) == token::token_path(chain[0].global),
    ensures
        token::reaches(system, chain[j].local),
        token::token_path(system) == token::token_path(chain[j].global),
{
    if j > 0 {
        lemma_shutdown_reaches_descendants(chain, 0, j);
    }
}

/// A request through one handle on a subsystem is answered by every other handle on it.
pub proof fn lemma_request_is_shared(a: SubsystemView, b: SubsystemView)
    requires
        token::token_path(a.local) == token::token_path(b.local),
        token::token_path(a.global) == token::token_path(b.global),
    ensures
        a.asked_to_stop() ==> b.stopped_with(a),
        b.asked_to_stop() ==> a.stopped_with(b),
{
}

/// A request to the whole system, through a handle on any part of it, is answered by the handle on
/// every other part: those above it, beside it and below it. `a` and `b` lead from the root system
/// down to the two parts.
pub proof fn lemma_global_request_is_answered_by_all(
    a: Seq<SubsystemView>,
    b: Seq<SubsystemView>,
    i: int,
    j: int,
)
    requires
        is_lineage(a),
        is_lineage(b),
        0 <= i < a.len(),
        0 <= j < b.len(),
        a[0].well_formed(),
        b[0].well_formed(),
        token::token_path(a[0].global) == token::token_path(b[0].global),
        token::token_stopped(a[i].global),
    ensures
        b[j].stopped_with(a[i]),
{
    lemma_whole_system_is_reached(a, a[0].global, i);
    lemma_whole_system_is_reached(b, b[0].global, j);
}

/// Subsystems that were made below the same one, one of them beside the other, leave each other
/// alone: a request to one of them, or to any that was made below it, does not reach the other or
/// any that was made below that, nor the one above them, nor the whole system. `a` and `b` lead
/// from the two down.
pub proof fn lemma_siblings_are_left_alone(
    parent: SubsystemView,
    a: Seq<SubsystemView>,
    b: Seq<SubsystemView>,
    i: int,
    j: int,
)
    requires
        parent.well_formed(),
        is_lineage(a),
        is_lineage(b),
        0 <= i < a.len(),
        0 <= j < b.len(),
        a[0].well_formed(),
        b[0].well_formed(),
        is_child(a[0], parent),
        is_child(b[0], parent),
        a[0].leaves_alone(b[0]),
    ensures
        !token::reaches(a[i].local, b[j].local),
        !token::reaches(b[j].local, a[i].local),
        !token::reaches(a[i].local, parent.local),
        !token::reaches(b[j].local, parent.local),
        !token::reaches(a[i].local, parent.global),
        !token::reaches(b[j].local, parent.global),
{
    let (x, y) = (a[0].local, b[0].local);
    assert(token::token_path(x) =~= token::token_path(x).subrange(
        0,
        token::token_path(x).len() as int,
    ));
    assert(token::token_path(y) =~= token::token_path(y).subrange(
        0,
        token::token_path(y).len() as int,
    ));
    if i > 0 {
        lemma_shutdown_reaches_descendants(a, 0, i);
    }
    if j > 0 {
        lemma_shutdown_reaches_descendants(b, 0, j);
    }
    token::lemma_branches_are_separate(x, y, a[i].local, b[j].local);
}

} // verus!
