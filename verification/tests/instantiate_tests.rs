use notes_manager::instantiate::inst_start;
use notes_manager::instantiate::inst_step;
use notes_manager::instantiate::InstAction;
use notes_manager::instantiate::InstEvent;
use notes_manager::instantiate::InstState;

fn strings(v: &[&str]) -> Vec<String> {
    v.iter().map(|s| s.to_string()).collect()
}

#[test]
fn start_copies_first() {
    let (state, action) = inst_start();
    assert!(matches!(state, InstState::CopyPending));
    assert!(matches!(action, InstAction::CopyTemplate));
}

#[test]
fn copy_failure_is_fatal_and_skips_renames() {
    // A failed template copy ends the instantiation with a non-zero exit;
    // no rename pass is attempted.
    let (state, action) = inst_step(InstState::CopyPending, InstEvent::CopyFailed, "foo");
    assert!(matches!(state, InstState::Failed));
    assert!(matches!(action, InstAction::Fail { collision: None }));
    assert!(!matches!(action, InstAction::DoRenames { .. }));
}

#[test]
fn copy_ok_plans_the_rename_pass() {
    let listing = strings(&["a.txt", "[topicname].md"]);
    let (state, action) = inst_step(InstState::CopyPending, InstEvent::CopyOk { listing }, "foo");
    match state {
        InstState::Renaming { expected } => assert_eq!(expected, strings(&["a.txt", "foo.md"])),
        _ => panic!("expected Renaming"),
    }
    match action {
        InstAction::DoRenames { renames } => {
            assert_eq!(renames, vec![("[topicname].md".to_string(), "foo.md".to_string())]);
        },
        _ => panic!("expected DoRenames"),
    }
}

#[test]
fn renames_done_finishes() {
    let state = InstState::Renaming { expected: strings(&["a.txt", "foo.md"]) };
    let (state, action) = inst_step(state, InstEvent::RenamesOk, "foo");
    match state {
        InstState::Done { expected } => assert_eq!(expected, strings(&["a.txt", "foo.md"])),
        _ => panic!("expected Done"),
    }
    assert!(matches!(action, InstAction::Finish));
}

#[test]
fn rename_failure_is_fatal() {
    let state = InstState::Renaming { expected: strings(&["foo.md"]) };
    let (state, action) = inst_step(state, InstEvent::RenameFailed, "foo");
    assert!(matches!(state, InstState::Failed));
    assert!(matches!(action, InstAction::Fail { collision: None }));
}

#[test]
fn rename_collision_fails_before_any_rename() {
    // `[topicname].md` would be renamed onto the already-present `foo.md`.
    let listing = strings(&["[topicname].md", "foo.md"]);
    let (state, action) = inst_step(InstState::CopyPending, InstEvent::CopyOk { listing }, "foo");
    assert!(matches!(state, InstState::Failed));
    match action {
        InstAction::Fail { collision } => assert_eq!(collision, Some("foo.md".to_string())),
        _ => panic!("expected Fail with the taken name"),
    }
}

#[test]
fn nested_template_renamed_at_depth_one_only() {
    // The template held `[topicname]/[topicname]-notes.md`; after the copy
    // the topic's immediate listing holds only the directory `[topicname]`.
    // The pass renames it to `bar` and issues no rename for the nested file,
    // which keeps the literal token in its name.
    let listing = strings(&["[topicname]"]);
    let (state, action) = inst_step(InstState::CopyPending, InstEvent::CopyOk { listing }, "bar");
    match state {
        InstState::Renaming { expected } => assert_eq!(expected, strings(&["bar"])),
        _ => panic!("expected Renaming"),
    }
    match action {
        InstAction::DoRenames { renames } => {
            assert_eq!(renames, vec![("[topicname]".to_string(), "bar".to_string())]);
            assert!(renames.iter().all(|(old, _)| old != "[topicname]-notes.md"));
        },
        _ => panic!("expected DoRenames"),
    }
}
