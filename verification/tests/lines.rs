use release_export::lines::split_lines;

fn split_as_std(text: &str) -> Vec<String> {
    text.split('\n').map(|piece| piece.to_string()).collect()
}

#[test]
fn empty_text_is_one_empty_line() {
    assert_eq!(split_lines(""), vec![String::new()]);
}

#[test]
fn text_without_newline_is_one_line() {
    assert_eq!(split_lines("abc"), vec!["abc".to_string()]);
}

#[test]
fn one_newline_gives_two_lines() {
    assert_eq!(split_lines("a\nb"), vec!["a".to_string(), "b".to_string()]);
}

#[test]
fn newline_alone_gives_two_empty_lines() {
    assert_eq!(split_lines("\n"), vec![String::new(), String::new()]);
}

#[test]
fn newline_at_the_end_gives_an_empty_last_line() {
    assert_eq!(split_lines("a\n"), vec!["a".to_string(), String::new()]);
}

#[test]
fn newline_at_the_start_gives_an_empty_first_line() {
    assert_eq!(split_lines("\na"), vec![String::new(), "a".to_string()]);
}

#[test]
fn empty_lines_in_the_middle_are_kept() {
    assert_eq!(
        split_lines("a\n\n\nb"),
        vec!["a".to_string(), String::new(), String::new(), "b".to_string()]
    );
}

#[test]
fn carriage_returns_stay_in_their_lines() {
    assert_eq!(split_lines("a\r\nb\r"), vec!["a\r".to_string(), "b\r".to_string()]);
}

#[test]
fn characters_beyond_ascii_are_kept_whole() {
    assert_eq!(
        split_lines("größe\n日本語\n🚀 launch"),
        vec!["größe".to_string(), "日本語".to_string(), "🚀 launch".to_string()]
    );
}

#[test]
fn there_is_one_line_more_than_newlines() {
    for text in ["", "x", "\n", "a\nb\nc", "\n\n\n", "tail\n", "\nhead"] {
        let newlines = text.chars().filter(|c| *c == '\n').count();
        assert_eq!(split_lines(text).len(), newlines + 1);
    }
}

#[test]
fn no_line_holds_a_newline_and_joining_gives_the_text_back() {
    for text in ["", "x", "\n", "a\nb\nc", "\n\n\n", "tail\n", "\nhead", "a, b\nc, d\n"] {
        let lines = split_lines(text);
        assert!(lines.iter().all(|line| !line.contains('\n')));
        assert_eq!(lines.join("\n"), text);
    }
}

#[test]
fn lines_joined_and_split_again_are_the_same_lines() {
    let lines = vec!["one".to_string(), String::new(), "three".to_string(), String::new()];
    assert_eq!(split_lines(&lines.join("\n")), lines);
}

#[test]
fn splitting_agrees_with_the_standard_library() {
    for text in [
        "",
        "\n",
        "\n\n",
        "plain",
        "a\nb",
        "a\nb\n",
        "\na\n\nb\n\n",
        "## Changes\n* one\n* two\n\n**Full log**: link",
        "tabs\tand spaces \n next\r\n",
    ] {
        assert_eq!(split_lines(text), split_as_std(text));
    }
}
