//! Who is asked to stop by requests that were made one after the other.
use tokio_util::sync::CancellationToken;
use vstd::prelude::*;

#[allow(unused_imports)]
use crate::subsystem::SubsystemView;
#[allow(unused_imports)]
use crate::token;

verus! {

/// Whether the token is reached by one of the requests to cancel a token that were made.
pub open spec fn asked(requests: Seq<CancellationToken>, token: CancellationToken) -> bool {
    exists|i: int| 0 <= i < requests.len() && token::reaches(#[trigger] requests[i], token)
}

/// A further request changes what is asked of the tokens that it reaches, and of no others.
pub proof fn lemma_further_request(
    requests: Seq<CancellationToken>,
    request: CancellationToken,
    token: CancellationToken,
)
    ensures
        asked(requests.push(request), token) == (asked(requests, token) || token::reaches(
            request,
            token,
        )),
{
    let more = requests.push(request);
    if asked(requests, token) {
        let i = choose|i: int|
            0 <= i < requests.len() && token::reaches(#[trigger] requests[i], token);
        assert(more[i] == requests[i]);
    }
    if token::reaches(request, token) {
        assert(more[requests.len() as int] == request);
    }
    if asked(more, token) {
        let i = choose|i: int| 0 <= i < more.len() && token::reaches(#[trigger] more[i], token);
        if i < requests.len() {
            assert(more[i] == requests[i]);
        }
    }
}

/// A request to a subsystem asks the subsystem and all that it reaches, and leaves everyone else as
/// they were.
pub proof fn lemma_local_request(
    requests: Seq<CancellationToken>,
    subsystem: SubsystemView,
    other: SubsystemView,
)
    ensures
        asked(requests.push(subsystem.local), subsystem.local),
        token::reaches(subsystem.local, other.local) ==> asked(
            requests.push(subsystem.local),
            other.local,
        ),
        !token::reaches(subsystem.local, other.local) ==> asked(
            requests.push(subsystem.local),
            other.local,
        ) == asked(requests, other.local),
{
    let path = token::token_path(subsystem.local);
    assert(path =~= path.subrange(0, path.len() as int));
    lemma_further_request(requests, subsystem.local, subsystem.local);
    lemma_further_request(requests, subsystem.local, other.local);
}

/// A request to the whole system asks every subsystem of it.
pub proof fn lemma_global_request(
    requests: Seq<CancellationToken>,
    subsystem: SubsystemView,
    other: SubsystemView,
)
    requires
        other.well_formed(),
        token::token_path(subsystem.global) == token::token_path(other.global),
    ensures
        asked(requests.push(subsystem.global), other.local),
{
    lemma_further_request(requests, subsystem.global, other.local);
}

/// A subsystem that is spawned is asked to stop from the start if and only if the one above it was
/// asked, whoever asked that one. The new token reaches none of those that requests were made of
/// before.
pub proof fn lemma_spawned_is_asked_with_parent(
    requests: Seq<CancellationToken>,
    parent: SubsystemView,
    child: SubsystemView,
    name: Seq<char>,
)
    requires
        child.is_child_of(parent, name),
        forall|i: int|
            0 <= i < requests.len() ==> !token::reaches(child.local, #[trigger] requests[i]),
    ensures
        asked(requests, child.local) == asked(requests, parent.local),
{
    let (up, down) = (token::token_path(parent.local), token::token_path(child.local));
    assert(up =~= down.subrange(0, up.len() as int));
    if asked(requests, parent.local) {
        let i = choose|i: int|
            0 <= i < requests.len() && token::reaches(#[trigger] requests[i], parent.local);
        token::lemma_reaches_transitive(requests[i], parent.local, child.local);
    }
    if asked(requests, child.local) {
        let i = choose|i: int|
            0 <= i < requests.len() && token::reaches(#[trigger] requests[i], child.local);
        let path = token::token_path(requests[i]);
        if path.len() == down.len() {
            assert(path =~= down);
            assert(down =~= path.subrange(0, down.len() as int));
        } else {
            assert(path =~= up.subrange(0, path.len() as int));
        }
    }
}

} // verus!
