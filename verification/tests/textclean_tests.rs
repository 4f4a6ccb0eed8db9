use montecapcho::textclean::clean_text;

#[test]
fn default_cleanup_rejoins_hyphen_broken_word() {
    assert_eq!(clean_text("wor-\nld  foo"), "world foo");
}

#[test]
fn whitespace_runs_collapse_to_single_spaces() {
    assert_eq!(clean_text("a \t \n b"), "a b");
    assert_eq!(clean_text("one\n\ntwo"), "one two");
}

#[test]
fn isolated_bars_are_stripped() {
    assert_eq!(clean_text("foo | bar"), "foo bar");
    assert_eq!(clean_text("|"), "");
    assert_eq!(clean_text("| leading"), "leading");
}

#[test]
fn embedded_bars_are_kept() {
    assert_eq!(clean_text("a|b"), "a|b");
}

#[test]
fn hyphen_without_continuation_is_kept() {
    assert_eq!(clean_text("ab- -cd"), "ab- -cd");
    assert_eq!(clean_text("dash - alone"), "dash - alone");
}

#[test]
fn hyphen_before_spaced_line_break_rejoins() {
    assert_eq!(clean_text("wor-\n   ld"), "world");
    assert_eq!(clean_text("line1-\n2"), "line12");
}

#[test]
fn clean_text_keeps_plain_text() {
    assert_eq!(clean_text("HELLO 123"), "HELLO 123");
    assert_eq!(clean_text(""), "");
}
