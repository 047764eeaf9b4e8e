//! What the runtime reports of a task: its number, and how it failed.
use tokio::task::{Id, JoinError};
use vstd::prelude::*;

use crate::text;

verus! {

/// Declares `tokio::task::Id`, the opaque id of a task.
#[verifier::external_type_specification]
#[verifier::external_body]
pub struct ExTaskId(Id);

/// Declares `tokio::task::JoinError`, the reason why a task did not run to its end.
#[verifier::external_type_specification]
#[verifier::external_body]
pub struct ExJoinError(JoinError);

/// The number that a task's id is made of.
pub uninterp spec fn task_number(id: Id) -> u64;

/// Whether a task failed because it panicked.
pub uninterp spec fn join_error_is_panic(error: JoinError) -> bool;

/// How a failed task is described to a user.
pub uninterp spec fn join_error_display(error: JoinError) -> Seq<char>;

/// How a failed task is described to a developer.
pub uninterp spec fn join_error_debug(error: JoinError) -> Seq<char>;

/// The `Display` text of a `tokio::task::Id` is its number, never 0, in decimal notation.
#[verifier::external_body]
fn task_id_text(id: Id) -> (out: String)
    ensures
        out@ == text::decimal(task_number(id) as nat),
        out@ != text::decimal(0),
{
    id.to_string()
}

/// `JoinError::is_panic` tells a task that panicked from one that was aborted.
pub assume_specification[ JoinError::is_panic ](failure: &JoinError) -> (panicked: bool)
    ensures
        panicked == join_error_is_panic(*failure),
;

/// The `Display` text of a `tokio::task::JoinError` depends on the error alone.
#[verifier::external_body]
pub(crate) fn join_error_display_text(error: &JoinError) -> (out: String)
    ensures
        out@ == join_error_display(*error),
{
    error.to_string()
}

/// The `Debug` text of a `tokio::task::JoinError` depends on the error alone.
#[verifier::external_body]
pub(crate) fn join_error_debug_text(error: &JoinError) -> (out: String)
    ensures
        out@ == join_error_debug(*error),
{
    format!("{error:?}")
}

/// The number of a task.
pub fn to_u64(id: Id) -> (number: u64)
    ensures
        number == task_number(id),
        number != 0,
{
    let out: String = task_id_text(id);
    proof {
        text::lemma_number_of_decimal(task_number(id));
    }
    match text::parse_u64(out.as_str()) {
        Some(number) => number,
        None => vstd::pervasive::unreached(),
    }
}

} // verus!
