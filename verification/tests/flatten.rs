use release_export::flatten::{body_lines, flatten_releases, header_line, push_release};
use release_export::{Author, Release};

fn author(login: &str) -> Author {
    Author {
        login: login.to_string(),
        id: 7,
        node_id: "MDQ6VXNlcjc=".to_string(),
        avatar_url: "https://avatars.example/u/7".to_string(),
        gravatar_id: String::new(),
        url: "https://api.example/users/7".to_string(),
        html_url: "https://example/7".to_string(),
        followers_url: String::new(),
        following_url: String::new(),
        gists_url: String::new(),
        starred_url: String::new(),
        subscriptions_url: String::new(),
        organizations_url: String::new(),
        repos_url: String::new(),
        events_url: String::new(),
        received_events_url: String::new(),
        type_field: "User".to_string(),
        site_admin: false,
    }
}

fn release(name: &str, created_at: &str, login: &str, body: &str) -> Release {
    Release {
        url: "https://api.example/releases/1".to_string(),
        assets_url: String::new(),
        upload_url: String::new(),
        html_url: String::new(),
        id: 1,
        author: author(login),
        node_id: "RE_1".to_string(),
        tag_name: "tag".to_string(),
        target_commitish: "main".to_string(),
        name: name.to_string(),
        draft: false,
        prerelease: false,
        created_at: created_at.to_string(),
        published_at: "2024-01-02T00:00:00Z".to_string(),
        tarball_url: String::new(),
        zipball_url: String::new(),
        body: body.to_string(),
    }
}

fn strings(lines: &[&str]) -> Vec<String> {
    lines.iter().map(|line| line.to_string()).collect()
}

#[test]
fn five_lines_keep_the_middle_three() {
    assert_eq!(body_lines("A\nB\nC\nD\nE"), strings(&["B", "C", "D"]));
}

#[test]
fn empty_body_keeps_nothing() {
    assert_eq!(body_lines(""), Vec::<String>::new());
}

#[test]
fn body_without_newline_keeps_nothing() {
    assert_eq!(body_lines("the only line, with content"), Vec::<String>::new());
}

#[test]
fn body_with_one_newline_keeps_nothing() {
    assert_eq!(body_lines("first\nlast"), Vec::<String>::new());
    assert_eq!(body_lines("\n"), Vec::<String>::new());
    assert_eq!(body_lines("first\n"), Vec::<String>::new());
}

#[test]
fn three_lines_keep_the_middle_one() {
    assert_eq!(body_lines("first\nmiddle\nlast"), strings(&["middle"]));
}

#[test]
fn newline_at_the_end_counts_as_a_last_line() {
    assert_eq!(body_lines("x\ny\n"), strings(&["y"]));
}

#[test]
fn empty_lines_in_the_middle_are_kept_as_empty_lines() {
    assert_eq!(body_lines("top\n\nitem\n\nbottom"), strings(&["", "item", ""]));
}

#[test]
fn kept_lines_are_all_but_the_first_and_the_last() {
    for count in 0usize..8 {
        let pieces: Vec<String> = (0..count.max(1)).map(|i| format!("line {}", i)).collect();
        let body = pieces.join("\n");
        let kept = body_lines(&body);
        assert_eq!(kept.len(), pieces.len().saturating_sub(2));
        if pieces.len() > 2 {
            assert_eq!(kept.as_slice(), &pieces[1..pieces.len() - 1]);
        }
    }
}

#[test]
fn header_line_has_comma_comma_space() {
    let subject = release("v1.0", "2024-01-01T00:00:00Z", "alice", "");
    assert_eq!(header_line(&subject), "v1.0,2024-01-01T00:00:00Z, alice");
}

#[test]
fn header_line_with_empty_name() {
    let subject = release("", "2024-05-06T07:08:09Z", "bob", "notes");
    assert_eq!(header_line(&subject), ",2024-05-06T07:08:09Z, bob");
}

#[test]
fn header_line_with_all_fields_empty() {
    let subject = release("", "", "", "");
    assert_eq!(header_line(&subject), ",, ");
}

#[test]
fn header_line_does_not_escape_commas() {
    let subject = release("fast, small", "now", "carol", "");
    assert_eq!(header_line(&subject), "fast, small,now, carol");
}

#[test]
fn block_of_one_release() {
    let subject = release("v2", "2024-02-03T04:05:06Z", "bob", "intro\nfix a\nfix b\noutro");
    assert_eq!(flatten_releases(&vec![subject]), "v2,2024-02-03T04:05:06Z, bob\nfix a\nfix b\n");
}

#[test]
fn block_of_a_release_with_short_body_is_its_header_line() {
    for body in ["", "content that is lost", "first\nlast"] {
        let subject = release("v3", "t", "dave", body);
        assert_eq!(flatten_releases(&vec![subject]), "v3,t, dave\n");
    }
}

#[test]
fn push_release_adds_behind_what_is_there() {
    let mut out = String::from("kept\n");
    push_release(&mut out, &release("v4", "t", "erin", "\nchange\n"));
    assert_eq!(out, "kept\nv4,t, erin\nchange\n");
}

#[test]
fn no_releases_give_an_empty_export() {
    assert_eq!(flatten_releases(&Vec::new()), "");
}

#[test]
fn releases_keep_their_order() {
    let first = release("one", "t1", "a", "x\nfirst body\ny");
    let second = release("two", "t2", "b", "");
    let third = release("three", "t3", "c", "\nthird body\nmore\n");
    assert_eq!(
        flatten_releases(&vec![first, second, third]),
        "one,t1, a\nfirst body\ntwo,t2, b\nthree,t3, c\nthird body\nmore\n"
    );
}

#[test]
fn export_is_the_blocks_one_after_another() {
    let bodies = ["a\nb\nc", "", "\n\n\n", "p\nq\nr\ns"];
    let mut expected = String::new();
    let mut all = Vec::new();
    for (index, body) in bodies.iter().enumerate() {
        let name = format!("r{}", index);
        expected.push_str(&flatten_releases(&vec![release(&name, "t", "u", body)]));
        all.push(release(&name, "t", "u", body));
    }
    assert_eq!(flatten_releases(&all), expected);
}

#[test]
fn same_release_twice_gives_its_block_twice() {
    let text = flatten_releases(&vec![
        release("v", "t", "u", "a\nb\nc"),
        release("v", "t", "u", "a\nb\nc"),
    ]);
    assert_eq!(text, "v,t, u\nb\nv,t, u\nb\n");
}
