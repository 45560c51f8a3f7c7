use parrun::source::{normalize_line, split_command};

#[test]
fn normalize_trims_surrounding_whitespace() {
    assert_eq!(normalize_line("  ls -l  \n"), Some("ls -l".to_string()));
    assert_eq!(normalize_line("echo hi"), Some("echo hi".to_string()));
    assert_eq!(normalize_line("\ttabbed\r\n"), Some("tabbed".to_string()));
}

#[test]
fn normalize_skips_blank_lines() {
    assert_eq!(normalize_line(""), None);
    assert_eq!(normalize_line("\n"), None);
    assert_eq!(normalize_line("   \t \r\n"), None);
}

#[test]
fn normalize_keeps_inner_whitespace() {
    assert_eq!(normalize_line(" a  b "), Some("a  b".to_string()));
}

#[test]
fn split_is_literal_single_space_split() {
    assert_eq!(split_command("ls"), vec!["ls".to_string()]);
    assert_eq!(
        split_command("sleep 5 && true"),
        vec![
            "sleep".to_string(),
            "5".to_string(),
            "&&".to_string(),
            "true".to_string(),
        ]
    );
    // consecutive spaces yield empty parts: no shell-style collapsing
    assert_eq!(
        split_command("a  b"),
        vec!["a".to_string(), "".to_string(), "b".to_string()]
    );
    assert_eq!(split_command(""), vec!["".to_string()]);
}

#[test]
fn split_does_not_understand_quoting() {
    assert_eq!(
        split_command("echo \"two words\""),
        vec![
            "echo".to_string(),
            "\"two".to_string(),
            "words\"".to_string(),
        ]
    );
}
