use notes_manager::level::level_start;
use notes_manager::level::level_step;
use notes_manager::level::LevelAction;
use notes_manager::level::LevelEvent;
use notes_manager::level::LevelState;

#[test]
fn start_prompts_selection() {
    let (state, action) = level_start();
    assert!(matches!(state, LevelState::Selecting));
    assert!(matches!(action, LevelAction::PromptSelect));
}

#[test]
fn existing_selection_resolves_without_creating() {
    // A name that already names an immediate subdirectory resolves at once,
    // with was_created false and no directory created.
    let event = LevelEvent::Chose { name: "rust".to_string(), exists: true };
    let (state, action) = level_step(LevelState::Selecting, event);
    match state {
        LevelState::Resolved { name, was_created } => {
            assert_eq!(name, "rust");
            assert!(!was_created);
        },
        _ => panic!("expected Resolved"),
    }
    assert!(matches!(action, LevelAction::Finish));
    assert!(!matches!(action, LevelAction::CreateDir { .. }));
}

#[test]
fn new_name_asks_for_confirmation() {
    let event = LevelEvent::Chose { name: "linear-types".to_string(), exists: false };
    let (state, action) = level_step(LevelState::Selecting, event);
    match state {
        LevelState::ConfirmCreate { name } => assert_eq!(name, "linear-types"),
        _ => panic!("expected ConfirmCreate"),
    }
    match action {
        LevelAction::PromptConfirm { name } => assert_eq!(name, "linear-types"),
        _ => panic!("expected PromptConfirm"),
    }
}

#[test]
fn cancelled_selection_is_fatal() {
    let (state, action) = level_step(LevelState::Selecting, LevelEvent::SelectCancelled);
    assert!(matches!(state, LevelState::Fatal));
    assert!(matches!(action, LevelAction::Fail));
}

#[test]
fn declining_creation_returns_to_selection() {
    // Declining the confirmation goes back to the same selection prompt and
    // creates nothing, so the listing presented next is unchanged.
    let state = LevelState::ConfirmCreate { name: "linear-types".to_string() };
    let (state, action) = level_step(state, LevelEvent::ConfirmDeclined);
    assert!(matches!(state, LevelState::Selecting));
    assert!(matches!(action, LevelAction::PromptSelect));
    assert!(!matches!(action, LevelAction::CreateDir { .. }));
}

#[test]
fn confirming_creation_requests_the_directory() {
    let state = LevelState::ConfirmCreate { name: "linear-types".to_string() };
    let (state, action) = level_step(state, LevelEvent::ConfirmYes);
    match state {
        LevelState::Creating { name } => assert_eq!(name, "linear-types"),
        _ => panic!("expected Creating"),
    }
    match action {
        LevelAction::CreateDir { name } => assert_eq!(name, "linear-types"),
        _ => panic!("expected CreateDir"),
    }
}

#[test]
fn created_directory_resolves_as_new() {
    let state = LevelState::Creating { name: "linear-types".to_string() };
    let (state, action) = level_step(state, LevelEvent::CreateOk);
    match state {
        LevelState::Resolved { name, was_created } => {
            assert_eq!(name, "linear-types");
            assert!(was_created);
        },
        _ => panic!("expected Resolved"),
    }
    assert!(matches!(action, LevelAction::Finish));
}

#[test]
fn failed_creation_is_fatal() {
    let state = LevelState::Creating { name: "linear-types".to_string() };
    let (state, action) = level_step(state, LevelEvent::CreateFailed);
    assert!(matches!(state, LevelState::Fatal));
    assert!(matches!(action, LevelAction::Fail));
}

#[test]
fn decline_then_reselect_existing() {
    // Decline, then pick an existing directory: the loop resolves it.
    let state = LevelState::ConfirmCreate { name: "typo".to_string() };
    let (state, _) = level_step(state, LevelEvent::ConfirmDeclined);
    let event = LevelEvent::Chose { name: "rust".to_string(), exists: true };
    let (state, _) = level_step(state, event);
    assert!(matches!(state, LevelState::Resolved { was_created: false, .. }));
}
