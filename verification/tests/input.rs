use release_export::input::trim_line;

#[test]
fn line_as_read_loses_its_newline() {
    assert_eq!(trim_line("1\n"), "1");
}

#[test]
fn white_space_goes_at_both_ends() {
    assert_eq!(trim_line("  \t owner-name \r\n"), "owner-name");
}

#[test]
fn white_space_inside_stays() {
    assert_eq!(trim_line(" a \t b  c \n"), "a \t b  c");
}

#[test]
fn empty_line_stays_empty() {
    assert_eq!(trim_line(""), "");
}

#[test]
fn white_space_alone_gives_an_empty_line() {
    assert_eq!(trim_line(" \t\r\n  "), "");
}

#[test]
fn line_without_white_space_is_unchanged() {
    assert_eq!(trim_line("ghp_token"), "ghp_token");
}

#[test]
fn white_space_beyond_ascii_goes_too() {
    assert_eq!(trim_line("\u{a0}\u{3000}path\u{2003}\u{2028}"), "path");
}

#[test]
fn other_characters_beyond_ascii_stay() {
    assert_eq!(trim_line(" 越 \n"), "越");
}

#[test]
fn trimming_twice_changes_nothing_more() {
    for raw in ["", " x ", "\t\ty z\n", "   ", "none"] {
        let once = trim_line(raw);
        assert_eq!(trim_line(&once), once);
    }
}

#[test]
fn trimming_agrees_with_the_standard_library() {
    for raw in [
        "",
        " ",
        "\n",
        "1\n",
        "2\r\n",
        "  leading",
        "trailing  ",
        "  both  ",
        " in side ",
        "\u{85}next line\u{85}",
        "\u{1680}ogham\u{1680}",
        "\u{200b}zero width stays\u{200b}",
        "\u{feff}mark stays",
        " \u{2009}thin\u{202f}narrow\u{205f} ",
    ] {
        assert_eq!(trim_line(raw), raw.trim());
    }
}
