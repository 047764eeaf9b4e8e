//! What the operations leave alone.
//!
//! Any handle on a token can cancel it, and every handle on a subsystem can be shared. So what an
//! operation leaves alone cannot be read off the handles that it was given. It is said by the types
//! of their tokens instead: each function here is given tokens of which it knows that they can be
//! cancelled only where it says so. It can do nothing to the others but share them, ask them and
//! make tokens below them, and neither can the operations that it calls.
use vstd::prelude::*;

use crate::crash::{CrashHolder, SubsystemResult};
#[allow(unused_imports)]
use crate::error::{self, SubsystemErrorView};
#[allow(unused_imports)]
use crate::exit::ExitCode;
use crate::error::SubsystemError;
use crate::root::{self, Drained, Launch, RootBuilder};
use crate::stdin::{StdinAction, StdinHandler, StdinInput};
use crate::subsystem::{self, LocalShutdown, SpawnPlan, Subsystem};
#[allow(unused_imports)]
use crate::subsystem::SubsystemView;
use crate::token;
use crate::token::{Cancels, TokenNode, TokenParts, TokenRef};

verus! {

/// A request to one subsystem cancels the token of that subsystem and no other: the tokens of the
/// whole system and of the waits need not be ones that can be cancelled.
pub fn ask_one_subsystem<L: TokenNode + Cancels, G: TokenNode, W: TokenNode>(
    handle: &mut Subsystem<L, G, W>,
) -> (plan: Option<LocalShutdown<W>>)
    ensures
        token::token_stopped(final(handle)@.local),
        final(handle)@.same_places(old(handle)@),
        final(handle)@ == (SubsystemView { local: final(handle)@.local, ..old(handle)@ }),
        plan is Some == old(handle)@.shutdown_timeout is Some,
{
    handle.request_local_shutdown()
}

/// A request to the whole system cancels the token of the whole system and no other; the others are
/// cancelled with it only as far as it reaches them.
pub fn ask_whole_system<L: TokenNode, G: TokenNode + Cancels, W: TokenNode>(
    handle: &mut Subsystem<L, G, W>,
)
    ensures
        token::token_stopped(final(handle)@.global),
        final(handle)@.same_places(old(handle)@),
        final(handle)@ == (SubsystemView { global: final(handle)@.global, ..old(handle)@ }),
{
    handle.request_global_shutdown();
}

/// To spawn a subsystem asks nobody to stop, neither the new one nor those that are there: none of
/// the tokens need be one that can be cancelled. The new one is known to be asked exactly if the one
/// above it is.
pub fn spawn_quietly<L: TokenNode, G: TokenNode, W: TokenNode>(
    handle: &Subsystem<L, G, W>,
    name: &str,
    others: &Vec<&Subsystem<L, G, W>>,
) -> (plans: (SpawnPlan<L, G, W>, SpawnPlan<L, G, W>))
    ensures
        plans.0.handle@.is_child_of(handle@, name@),
        plans.0.handle@.asked_to_stop() == handle@.asked_to_stop(),
        plans.1.handle@.is_child_of(handle@, name@),
        plans.1.handle@.asked_to_stop() == handle@.asked_to_stop(),
        forall|i: int|
            0 <= i < others@.len() ==> plans.1.handle@.leaves_alone((#[trigger] others@[i])@),
{
    let plan: SpawnPlan<L, G, W> = handle.spawn(name);
    (plan, handle.spawn_beside(name, others))
}

/// To share a token, to ask it and to take note of the answer needs none that can be cancelled.
pub fn share_quietly<T: TokenParts>(handle: &T, known: &Vec<TokenRef<'_>>) -> (made: (
    T,
    bool,
    Option<T>,
))
    ensures
        token::token_path(made.0.token()) == token::token_path(handle.token()),
        token::token_stopped(made.0.token()) == token::token_stopped(handle.token()),
        token::answered(handle.token(), made.1),
        token::answered(handle.token(), made.2 is Some),
        token::token_stopped(handle.token()) ==> made.1 && made.2 is Some,
        made.2 matches Some(noted) ==> token::token_path(noted.token()) == token::token_path(
            handle.token(),
        ),
{
    (handle.share(), handle.is_stopped(known), handle.noted(known))
}

/// To share a handle and to ask whether a subsystem was asked to stop asks nobody to stop.
pub fn ask_quietly<L: TokenNode, G: TokenNode, W: TokenNode>(
    handle: &mut Subsystem<L, G, W>,
    other: &Subsystem<L, G, W>,
) -> (answers: (bool, bool, bool))
    ensures
        final(handle)@.same_places(old(handle)@),
        old(handle)@.asked_to_stop() ==> answers.0 && answers.1 && answers.2,
        old(handle)@.stopped_with(other@) ==> answers.1,
        !answers.2 ==> *final(handle) == *old(handle),
{
    let shared: Subsystem<L, G, W> = handle.clone();
    let first: bool = shared.is_shut_down();
    let second: bool = handle.is_shut_down_with(other);
    let third: bool = handle.note_shut_down();
    (first, second, third)
}

/// To start a root system, and to take the outcome of a run, asks nobody to stop.
pub fn start_quietly<C, K: TokenNode>(builder: RootBuilder<C, K>) -> (started: (
    Launch<C, K>,
    SubsystemResult,
))
    ensures
        !started.0.root@.asked_to_stop(),
        !token::token_stopped(started.0.crash.token()),
        started.0.root@.id.name == builder@.name,
        started.0.root@.shutdown_timeout == builder@.shutdown_timeout,
        error::subsystem_result_view(started.1) == Ok::<ExitCode, SubsystemErrorView>(
            ExitCode::success(),
        ),
{
    let mut launch: Launch<C, K> = builder.start();
    let outcome: SubsystemResult = take_quietly(&mut launch.crash);
    (launch, outcome)
}

fn take_quietly<K: TokenNode>(crash: &mut CrashHolder<K>) -> (outcome: SubsystemResult)
    ensures
        error::subsystem_result_view(outcome) == old(crash).outcome(),
        final(crash).token() == old(crash).token(),
{
    crash.take_crash()
}

/// Lines from standard input, and an end that does not stop the system, leave the token of the whole
/// system alone: the one handle on it that is given cannot be shared, and comes back as it was.
pub fn gobble_with_one_handle<C, K: Cancels>(
    handler: &StdinHandler<C>,
    input: StdinInput,
    crash: &mut CrashHolder,
    global: &mut K,
) -> (action: StdinAction)
    ensures
        input is Line || !handler.shutdown_on_stdin_close ==> *final(global) == *old(global)
            && *final(crash) == *old(crash),
        !(input is Line) && handler.shutdown_on_stdin_close ==> token::token_stopped(
            final(global).token(),
        ),
        input is Line ==> !(action is Stop),
{
    handler.gobble_stdin(input, crash, global)
}

/// A wait that did not reach its limit is not cut short: the one handle on the token that would do
/// so cannot be shared, and comes back as it was.
pub fn finish_with_one_handle<K: Cancels>(
    drained: Drained,
    timed_out: bool,
    crash: &mut CrashHolder,
    global_wait: &mut K,
    local_wait: &mut K,
) -> (told: (SubsystemResult, SubsystemError))
    ensures
        !(drained is TimedOut) ==> *final(global_wait) == *old(global_wait)
            && error::subsystem_result_view(told.0) == old(crash).outcome(),
        drained is TimedOut ==> token::token_stopped(final(global_wait).token()) && told.0 is Err,
        !timed_out ==> *final(local_wait) == *old(local_wait),
        timed_out ==> token::token_stopped(final(local_wait).token()),
{
    subsystem::local_shutdown_timeout(timed_out, local_wait);
    root::finish_shutdown(drained, crash, global_wait)
}

} // verus!
