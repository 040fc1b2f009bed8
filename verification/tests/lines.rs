use tree_painter::lines::split_lines;

#[test]
fn split_after_each_line_feed() {
    assert_eq!(split_lines("a\nb\n"), vec!["a\n", "b\n"]);
}

#[test]
fn text_after_the_last_line_feed_is_a_line() {
    assert_eq!(split_lines("a\nb"), vec!["a\n", "b"]);
    assert_eq!(split_lines("a"), vec!["a"]);
}

#[test]
fn empty_text_has_no_line() {
    assert!(split_lines("").is_empty());
}

#[test]
fn line_feeds_alone_are_lines() {
    assert_eq!(split_lines("\n"), vec!["\n"]);
    assert_eq!(split_lines("\n\n\n"), vec!["\n", "\n", "\n"]);
    assert_eq!(split_lines("\na\n\n"), vec!["\n", "a\n", "\n"]);
}

#[test]
fn carriage_returns_are_ordinary_characters() {
    assert_eq!(split_lines("a\r\nb\r"), vec!["a\r\n", "b\r"]);
}

#[test]
fn lines_joined_give_the_text() {
    let text = "fn main() {\n    \u{2713}\n\n}\nend";
    let lines = split_lines(text);
    assert_eq!(lines.len(), 5);
    assert_eq!(lines.concat(), text);
}
