use notes_manager::token::contains_token;
use notes_manager::token::placeholder_str;
use notes_manager::token::replace_token;

#[test]
fn placeholder_is_topicname() {
    assert_eq!(placeholder_str(), "[topicname]");
}

#[test]
fn contains_token_in_middle() {
    assert!(contains_token("notes-[topicname]-draft.md"));
}

#[test]
fn contains_token_whole_name() {
    assert!(contains_token("[topicname]"));
}

#[test]
fn contains_token_absent() {
    assert!(!contains_token("a.txt"));
}

#[test]
fn contains_token_partial_match_only() {
    assert!(!contains_token("[topicnam].md"));
}

#[test]
fn contains_token_empty_name() {
    assert!(!contains_token(""));
}

#[test]
fn replace_single_occurrence() {
    assert_eq!(replace_token("[topicname].md", "foo"), "foo.md");
}

#[test]
fn replace_multiple_occurrences() {
    assert_eq!(replace_token("[topicname]-[topicname].md", "foo"), "foo-foo.md");
}

#[test]
fn replace_whole_name() {
    assert_eq!(replace_token("[topicname]", "bar"), "bar");
}

#[test]
fn replace_at_end() {
    assert_eq!(replace_token("notes-[topicname]", "foo"), "notes-foo");
}

#[test]
fn replace_without_token_is_identity() {
    assert_eq!(replace_token("a.txt", "foo"), "a.txt");
}

#[test]
fn replace_empty_name() {
    assert_eq!(replace_token("", "foo"), "");
}

#[test]
fn replacement_text_is_not_rescanned() {
    assert_eq!(replace_token("[topicname].md", "x[topicname]x"), "x[topicname]x.md");
}

#[test]
fn replace_with_empty_topic() {
    assert_eq!(replace_token("[topicname]-notes.md", ""), "-notes.md");
}
