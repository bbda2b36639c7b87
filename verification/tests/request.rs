use release_export::request::{releases_request, Header};

fn header(name: &str, value: &str) -> Header {
    Header { name: name.to_string(), value: value.to_string() }
}

#[test]
fn request_goes_to_the_releases_of_the_repository() {
    let request = releases_request("hello-world", "octocat", "secret");
    assert_eq!(request.url, "https://api.github.com/repos/octocat/hello-world/releases");
}

#[test]
fn request_carries_four_headers_in_order() {
    let request = releases_request("hello-world", "octocat", "secret");
    assert_eq!(
        request.headers,
        vec![
            header("Authorization", "Bearer secret"),
            header("User-Agent", "Awesome-Octocat-App"),
            header("X-GitHub-Api-Version", "2022-11-28"),
            header("Accept", "application/vnd.github+json"),
        ]
    );
}

#[test]
fn request_takes_its_texts_as_they_are() {
    let request = releases_request("", "a/b", "");
    assert_eq!(request.url, "https://api.github.com/repos/a/b//releases");
    assert_eq!(request.headers[0], header("Authorization", "Bearer "));
}
