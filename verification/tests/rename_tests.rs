use notes_manager::rename::plan_renames;

fn strings(v: &[&str]) -> Vec<String> {
    v.iter().map(|s| s.to_string()).collect()
}

#[test]
fn plan_basic_instantiation() {
    // Template contained `a.txt` and `[topicname].md`; topic name `foo`:
    // afterwards the directory holds exactly `a.txt` and `foo.md`.
    let entries = strings(&["a.txt", "[topicname].md"]);
    let (listing, renames) = plan_renames(&entries, "foo").unwrap();
    assert_eq!(listing, strings(&["a.txt", "foo.md"]));
    assert_eq!(renames, vec![("[topicname].md".to_string(), "foo.md".to_string())]);
}

#[test]
fn plan_renames_only_immediate_entries() {
    // Template contained `[topicname]/[topicname]-notes.md`; topic name
    // `bar`. Only the immediate entry `[topicname]` is an input of the pass:
    // it becomes `bar`, while the file nested inside it keeps the literal
    // token in its name — the pass does not descend.
    let entries = strings(&["[topicname]"]);
    let (listing, renames) = plan_renames(&entries, "bar").unwrap();
    assert_eq!(listing, strings(&["bar"]));
    assert_eq!(renames, vec![("[topicname]".to_string(), "bar".to_string())]);
    let inner = "[topicname]-notes.md".to_string();
    assert!(renames.iter().all(|(old, _)| *old != inner));
}

#[test]
fn plan_without_token_renames_nothing() {
    let entries = strings(&["a.txt", "b.md", "sub"]);
    let (listing, renames) = plan_renames(&entries, "foo").unwrap();
    assert_eq!(listing, entries);
    assert!(renames.is_empty());
}

#[test]
fn plan_collision_with_existing_entry() {
    // `[topicname].md` would become `foo.md`, which another entry already
    // bears: the pass fails with the taken name.
    let entries = strings(&["[topicname].md", "foo.md"]);
    let err = plan_renames(&entries, "foo").unwrap_err();
    assert_eq!(err, "foo.md");
}

#[test]
fn plan_collision_with_already_renamed_entry() {
    // `foo.md` is processed first and keeps its name; the later rename of
    // `[topicname].md` then collides with it.
    let entries = strings(&["foo.md", "[topicname].md"]);
    let err = plan_renames(&entries, "foo").unwrap_err();
    assert_eq!(err, "foo.md");
}

#[test]
fn plan_two_entries_renamed_apart() {
    let entries = strings(&["[topicname].md", "[topicname]x.md"]);
    let (listing, _) = plan_renames(&entries, "q").unwrap();
    assert_eq!(listing, strings(&["q.md", "qx.md"]));
}

#[test]
fn plan_two_entries_collide_with_each_other() {
    // Both names come out as `aa.md`: the second rename finds the name
    // already taken by the first.
    let entries = strings(&["a[topicname].md", "[topicname]a.md"]);
    let err = plan_renames(&entries, "a").unwrap_err();
    assert_eq!(err, "aa.md");
}

#[test]
fn plan_rename_onto_itself_is_kept() {
    // Replacing the token with itself changes nothing: no rename, no
    // collision.
    let entries = strings(&["[topicname].md", "[topicname].md.bak"]);
    let (listing, renames) = plan_renames(&entries, "[topicname]").unwrap();
    assert_eq!(listing, entries);
    assert!(renames.is_empty());
}

#[test]
fn plan_empty_directory() {
    let entries: Vec<String> = Vec::new();
    let (listing, renames) = plan_renames(&entries, "foo").unwrap();
    assert!(listing.is_empty());
    assert!(renames.is_empty());
}
