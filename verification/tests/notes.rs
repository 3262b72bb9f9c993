use exchange_requests::notes::append_note;

fn text(s: &str) -> String {
    String::from(s)
}

#[test]
fn first_note_becomes_the_trail() {
    assert_eq!(append_note(text(""), text("a")), "a");
}

#[test]
fn later_note_follows_the_separator() {
    assert_eq!(append_note(text("a"), text("b")), "a | b");
    assert_eq!(append_note(text("a | b"), text("c")), "a | b | c");
}

#[test]
fn empty_note_changes_nothing() {
    assert_eq!(append_note(text("a"), text("")), "a");
    assert_eq!(append_note(text(""), text("")), "");
}

#[test]
fn two_notes_on_an_empty_trail() {
    let once: String = append_note(text(""), text("a"));
    let twice: String = append_note(once, text("b"));
    assert_eq!(twice, "a | b");
}

#[test]
fn trail_only_grows() {
    let trail: String = text("reviewing");
    let longer: String = append_note(trail.clone(), text("received funds"));
    assert!(longer.starts_with(trail.as_str()));
    assert!(longer.ends_with("received funds"));
    assert_eq!(longer, "reviewing | received funds");
}

#[test]
fn notes_may_hold_any_text() {
    assert_eq!(append_note(text("a | b"), text(" | ")), "a | b |  | ");
    assert_eq!(append_note(text("żółć"), text("привет")), "żółć | привет");
}
