use onagre::command::resolve_command;
use onagre::command::strip_field_codes;

#[test]
fn field_codes_are_dropped() {
    let argv = resolve_command("firefox %u --new-window").expect("well-formed exec line");
    assert_eq!(argv, vec!["firefox".to_string(), "--new-window".to_string()]);
}

#[test]
fn quoting_is_resolved() {
    // the split must undo shell quoting, not hand the line back
    let argv = resolve_command("\"my editor\" --file 'a b.txt'").expect("well-formed exec line");
    assert_eq!(argv, vec!["my editor".to_string(), "--file".to_string(), "a b.txt".to_string()]);
}

#[test]
fn malformed_exec_line_is_rejected() {
    assert_eq!(resolve_command("editor 'unclosed"), None);
}

#[test]
fn strip_field_codes_keeps_order_and_plain_words() {
    let words = vec![
        "env".to_string(),
        "%F".to_string(),
        "run".to_string(),
        "%i".to_string(),
        "now".to_string(),
    ];
    let kept = strip_field_codes(&words);
    assert_eq!(kept, vec!["env".to_string(), "run".to_string(), "now".to_string()]);
}

#[test]
fn empty_exec_line_gives_empty_argv() {
    let argv = resolve_command("").expect("empty line splits");
    assert!(argv.is_empty());
}
