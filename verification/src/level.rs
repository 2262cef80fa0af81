//! Resolving one hierarchy level (subject or topic) to a child directory.
//!
//! One level of interaction is a small state machine. The surrounding
//! program lists the parent directory, runs the interactive chooser, creates
//! directories, and feeds the outcomes back as events; the machine decides
//! what happens next. Resolution ends either in `Resolved`, with the chosen
//! name and whether the directory was freshly created, or in `Fatal`, after
//! which the process must terminate with a non-zero status.

use vstd::prelude::*;

verus! {

/// The state of one level's resolution.
pub enum LevelState {
    /// Waiting for the chooser to return a name (existing or freely typed).
    Selecting,
    /// `name` does not exist yet; waiting for the create-new confirmation.
    ConfirmCreate { name: String },
    /// Creation of `name` was confirmed; waiting for the directory to be made.
    Creating { name: String },
    /// The level is resolved to the child `name`; `was_created` says whether
    /// it was freshly created during this resolution.
    Resolved { name: String, was_created: bool },
    /// The chooser failed or was cancelled at the selection prompt, or the
    /// directory could not be created: the caller must exit non-zero.
    Fatal,
}

/// What the outside world reports back to the machine.
pub enum LevelEvent {
    /// The chooser returned `name`; `exists` says whether `name` already
    /// names an immediate subdirectory of the parent.
    Chose { name: String, exists: bool },
    /// The chooser failed or was cancelled at the selection prompt.
    SelectCancelled,
    /// The create-new confirmation was answered "yes".
    ConfirmYes,
    /// The create-new confirmation was answered "no", or was cancelled:
    /// declining is normal control flow, not an error.
    ConfirmDeclined,
    /// The new directory was created.
    CreateOk,
    /// The new directory could not be created.
    CreateFailed,
}

/// What the machine asks the outside world to do next.
pub enum LevelAction {
    /// List the parent's immediate subdirectories and present the selection
    /// prompt with their basenames, in filesystem enumeration order.
    PromptSelect,
    /// Ask the create-new confirmation for `name`.
    PromptConfirm { name: String },
    /// Create the child directory `name` under the parent. This is the only
    /// action that mutates the parent directory.
    CreateDir { name: String },
    /// The level is resolved; nothing further to do here.
    Finish,
    /// Terminate with a non-zero status.
    Fail,
}

/// Which events may arrive in which state.
pub open spec fn level_admits(state: LevelState, event: LevelEvent) -> bool {
    match state {
        LevelState::Selecting => event is Chose || event is SelectCancelled,
        LevelState::ConfirmCreate { .. } => event is ConfirmYes || event is ConfirmDeclined,
        LevelState::Creating { .. } => event is CreateOk || event is CreateFailed,
        LevelState::Resolved { .. } => false,
        LevelState::Fatal => false,
    }
}

/// The transition function of one level's resolution:
/// - a chosen name that already exists resolves the level at once, with
///   `was_created` false and nothing created;
/// - a chosen name that does not exist leads to the create-new confirmation;
/// - declining the confirmation returns to the selection prompt, with no
///   directory created;
/// - confirming requests the creation; a created directory resolves the
///   level with `was_created` true; a failed creation is fatal;
/// - a failed or cancelled chooser at the selection prompt is fatal.
pub open spec fn level_next(state: LevelState, event: LevelEvent) -> (LevelState, LevelAction) {
    match (state, event) {
        (LevelState::Selecting, LevelEvent::Chose { name, exists }) => {
            if exists {
                (LevelState::Resolved { name, was_created: false }, LevelAction::Finish)
            } else {
                (
                    LevelState::ConfirmCreate { name: name },
                    LevelAction::PromptConfirm { name },
                )
            }
        },
        (LevelState::Selecting, LevelEvent::SelectCancelled) => (
            LevelState::Fatal,
            LevelAction::Fail,
        ),
        (LevelState::ConfirmCreate { name }, LevelEvent::ConfirmYes) => (
            LevelState::Creating { name: name },
            LevelAction::CreateDir { name },
        ),
        (LevelState::ConfirmCreate { .. }, LevelEvent::ConfirmDeclined) => (
            LevelState::Selecting,
            LevelAction::PromptSelect,
        ),
        (LevelState::Creating { name }, LevelEvent::CreateOk) => (
            LevelState::Resolved { name, was_created: true },
            LevelAction::Finish,
        ),
        (LevelState::Creating { .. }, LevelEvent::CreateFailed) => (
            LevelState::Fatal,
            LevelAction::Fail,
        ),
        _ => (LevelState::Fatal, LevelAction::Fail),
    }
}

/// The initial state and action of one level's resolution.
pub fn level_start() -> (r: (LevelState, LevelAction))
    ensures
        r == (LevelState::Selecting, LevelAction::PromptSelect),
{
    (LevelState::Selecting, LevelAction::PromptSelect)
}

/// Advance one level's resolution by one event.
pub fn level_step(state: LevelState, event: LevelEvent) -> (r: (LevelState, LevelAction))
    requires
        level_admits(state, event),
    ensures
        r == level_next(state, event),
{
    match (state, event) {
        (LevelState::Selecting, LevelEvent::Chose { name, exists }) => {
            if exists {
                (LevelState::Resolved { name, was_created: false }, LevelAction::Finish)
            } else {
                let prompt_name = name.clone();
                (
                    LevelState::ConfirmCreate { name },
                    LevelAction::PromptConfirm { name: prompt_name },
                )
            }
        },
        (LevelState::Selecting, LevelEvent::SelectCancelled) => (
            LevelState::Fatal,
            LevelAction::Fail,
        ),
        (LevelState::ConfirmCreate { name }, LevelEvent::ConfirmYes) => {
            let create_name = name.clone();
            (LevelState::Creating { name }, LevelAction::CreateDir { name: create_name })
        },
        (LevelState::ConfirmCreate { .. }, LevelEvent::ConfirmDeclined) => (
            LevelState::Selecting,
            LevelAction::PromptSelect,
        ),
        (LevelState::Creating { name }, LevelEvent::CreateOk) => (
            LevelState::Resolved { name, was_created: true },
            LevelAction::Finish,
        ),
        (LevelState::Creating { .. }, LevelEvent::CreateFailed) => (
            LevelState::Fatal,
            LevelAction::Fail,
        ),
        _ => (LevelState::Fatal, LevelAction::Fail),
    }
}

/// Resolving a name that already names an immediate subdirectory of the
/// parent never creates a directory: the level resolves at once to that
/// name with `was_created` false, and the machine issues no `CreateDir`.
pub proof fn lemma_existing_never_creates(name: String)
    ensures
        level_next(
            LevelState::Selecting,
            LevelEvent::Chose { name, exists: true },
        ) == (LevelState::Resolved { name, was_created: false }, LevelAction::Finish),
        !(level_next(LevelState::Selecting, LevelEvent::Chose { name, exists: true }).1
            is CreateDir),
{
}

/// Declining a creation confirmation returns control to the same selection
/// prompt: the machine goes back to `Selecting` and asks the outside world
/// only to re-list and re-prompt. No `CreateDir` — the sole action that
/// mutates the parent directory — is issued, so the listing presented next
/// is unchanged.
pub proof fn lemma_decline_restarts_selection(name: String)
    ensures
        level_next(
            LevelState::ConfirmCreate { name },
            LevelEvent::ConfirmDeclined,
        ) == (LevelState::Selecting, LevelAction::PromptSelect),
        !(level_next(LevelState::ConfirmCreate { name }, LevelEvent::ConfirmDeclined).1
            is CreateDir),
{
}

} // verus!
