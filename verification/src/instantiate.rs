//! Instantiating a template set into a freshly created topic directory.
//!
//! Instantiation is a two-stage machine. First the contents of the template
//! directory are copied into the topic directory (content-only: the
//! template's immediate entries become immediate entries of the topic; the
//! template directory's own name is not introduced as a nested level). Then
//! the rename pass personalizes the immediate entry names. The surrounding
//! program performs the copy, the listing, and the renames; the machine
//! plans the pass and decides what happens next. A copy failure, a rename
//! collision, and a rename failure are all fatal, with no cleanup of what
//! was already done.

use vstd::prelude::*;

use crate::rename::pass_result;
use crate::rename::plan_renames;
use crate::rename::rename_pairs;

verus! {

/// The state of one instantiation.
pub enum InstState {
    /// Waiting for the template contents to be copied into the topic.
    CopyPending,
    /// The renames are being applied; `expected` is the immediate listing
    /// the topic directory will show once they are done.
    Renaming { expected: Vec<String> },
    /// Instantiation is complete; `expected` as in `Renaming`.
    Done { expected: Vec<String> },
    /// The copy failed, a rename target was already taken, or a rename
    /// failed: the caller must exit non-zero.
    Failed,
}

/// What the outside world reports back to the machine.
pub enum InstEvent {
    /// The copy succeeded; `listing` is the immediate entry basenames of the
    /// topic directory right after it, in filesystem enumeration order.
    CopyOk { listing: Vec<String> },
    /// The copy failed.
    CopyFailed,
    /// All requested renames were applied.
    RenamesOk,
    /// A rename failed.
    RenameFailed,
}

/// What the machine asks the outside world to do next.
pub enum InstAction {
    /// Copy the contents of the template directory into the topic directory
    /// (content-only), then report the topic's immediate entries.
    CopyTemplate,
    /// Apply these renames of immediate entries, as (old name, new name)
    /// pairs, in order.
    DoRenames { renames: Vec<(String, String)> },
    /// Instantiation is complete.
    Finish,
    /// Terminate with a non-zero status. When the rename pass was stopped
    /// because a computed target name was already taken, `collision` names
    /// it; it is `None` for a copy or rename failure, which the outside
    /// world reported itself.
    Fail { collision: Option<String> },
}

/// Which events may arrive in which state.
pub open spec fn inst_admits(state: InstState, event: InstEvent) -> bool {
    match state {
        InstState::CopyPending => event is CopyOk || event is CopyFailed,
        InstState::Renaming { .. } => event is RenamesOk || event is RenameFailed,
        InstState::Done { .. } => false,
        InstState::Failed => false,
    }
}

/// The initial state and action of an instantiation: copy first.
pub fn inst_start() -> (r: (InstState, InstAction))
    ensures
        r.0 is CopyPending,
        r.1 is CopyTemplate,
{
    (InstState::CopyPending, InstAction::CopyTemplate)
}

/// Advance an instantiation by one event. `topic` is the basename of the
/// topic directory, substituted for the placeholder by the rename pass.
///
/// A failed copy is fatal and no rename is planned or attempted. After a
/// successful copy the rename pass is planned over the observed listing: a
/// collision makes the instantiation fail before any rename is issued;
/// otherwise the renames are handed out and, once applied, the
/// instantiation is done.
pub fn inst_step(state: InstState, event: InstEvent, topic: &str) -> (r: (InstState, InstAction))
    requires
        inst_admits(state, event),
    ensures
        state is CopyPending && event is CopyFailed ==> r.0 is Failed && (r.1
            matches InstAction::Fail { collision } && collision is None),
        (match (state, event) {
            (InstState::CopyPending, InstEvent::CopyOk { listing }) => {
                match pass_result(Seq::empty(), listing.deep_view(), topic@) {
                    Ok(names) => {
                        &&& (r.0 matches InstState::Renaming { expected } && expected.deep_view()
                            == names)
                        &&& (r.1 matches InstAction::DoRenames { renames } && renames.deep_view()
                            == rename_pairs(listing.deep_view(), topic@))
                    },
                    Err(taken) => r.0 is Failed && (r.1 matches InstAction::Fail { collision }
                        && collision matches Some(c) && c@ == taken),
                }
            },
            _ => true,
        }),
        (match state {
            InstState::Renaming { expected } => {
                &&& event is RenamesOk ==> (r.0 matches InstState::Done { expected: e }
                    && e.deep_view() == expected.deep_view()) && r.1 is Finish
                &&& event is RenameFailed ==> r.0 is Failed && (r.1
                    matches InstAction::Fail { collision } && collision is None)
            },
            _ => true,
        }),
{
    match (state, event) {
        (InstState::CopyPending, InstEvent::CopyOk { listing }) => {
            match plan_renames(&listing, topic) {
                Ok(plan) => (
                    InstState::Renaming { expected: plan.0 },
                    InstAction::DoRenames { renames: plan.1 },
                ),
                Err(taken) => (
                    InstState::Failed,
                    InstAction::Fail { collision: Some(taken) },
                ),
            }
        },
        (InstState::CopyPending, InstEvent::CopyFailed) => (
            InstState::Failed,
            InstAction::Fail { collision: None },
        ),
        (InstState::Renaming { expected }, InstEvent::RenamesOk) => (
            InstState::Done { expected },
            InstAction::Finish,
        ),
        (InstState::Renaming { .. }, InstEvent::RenameFailed) => (
            InstState::Failed,
            InstAction::Fail { collision: None },
        ),
        _ => (InstState::Failed, InstAction::Fail { collision: None }),
    }
}

/// The immediate entry basenames the topic directory shows right after the
/// content-only copy: exactly the template directory's immediate entry
/// basenames. This is the model of the copy collaborator's contract; the
/// machine takes the listing actually observed after the copy as an event,
/// since only the filesystem can confirm it.
pub open spec fn post_copy_listing(template_entries: Seq<Seq<char>>) -> Seq<Seq<char>> {
    template_entries
}

/// Content-only copy law: the set of immediate entry basenames of the topic
/// directory after the copy equals the set of immediate entry basenames of
/// the template directory before it, and the template directory's own
/// basename — unless it already named one of the template's entries — never
/// appears among them.
pub proof fn lemma_content_only_copy(template_entries: Seq<Seq<char>>, template_name: Seq<char>)
    requires
        !template_entries.contains(template_name),
    ensures
        post_copy_listing(template_entries).to_set() == template_entries.to_set(),
        !post_copy_listing(template_entries).contains(template_name),
{
}

} // verus!
