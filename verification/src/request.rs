//! The one request that fetches the releases of a repository.

use vstd::prelude::*;

verus! {

/// One header of a request.
#[derive(Debug, PartialEq, Eq)]
pub struct Header {
    pub name: String,
    pub value: String,
}

/// A header as two texts.
pub struct HeaderView {
    pub name: Seq<char>,
    pub value: Seq<char>,
}

impl View for Header {
    type V = HeaderView;

    open spec fn view(&self) -> HeaderView {
        HeaderView { name: self.name@, value: self.value@ }
    }
}

impl DeepView for Header {
    type V = HeaderView;

    open spec fn deep_view(&self) -> HeaderView {
        self@
    }
}

/// A `GET` request: where it goes and the headers it carries.
#[derive(Debug, PartialEq, Eq)]
pub struct FetchRequest {
    pub url: String,
    pub headers: Vec<Header>,
}

/// A request as texts.
pub struct FetchRequestView {
    pub url: Seq<char>,
    pub headers: Seq<HeaderView>,
}

impl View for FetchRequest {
    type V = FetchRequestView;

    open spec fn view(&self) -> FetchRequestView {
        FetchRequestView { url: self.url@, headers: self.headers.deep_view() }
    }
}

/// The address that lists the releases of a repository.
pub open spec fn releases_url(repo_owner: Seq<char>, repo_name: Seq<char>) -> Seq<char> {
    "https://api.github.com/repos/"@ + repo_owner + "/"@ + repo_name + "/releases"@
}

/// The request for the releases of a repository: the address of the
/// listing, and four headers in this order: the bearer token, the name of
/// this client, the version of the interface, and the kind of answer
/// that is accepted.
pub open spec fn request_for(
    repo_name: Seq<char>,
    repo_owner: Seq<char>,
    token: Seq<char>,
) -> FetchRequestView {
    FetchRequestView {
        url: releases_url(repo_owner, repo_name),
        headers: seq![
            HeaderView { name: "Authorization"@, value: "Bearer "@ + token },
            HeaderView { name: "User-Agent"@, value: "Awesome-Octocat-App"@ },
            HeaderView { name: "X-GitHub-Api-Version"@, value: "2022-11-28"@ },
            HeaderView { name: "Accept"@, value: "application/vnd.github+json"@ },
        ],
    }
}

/// A header with the given name and value.
fn header(name: &str, value: String) -> (made: Header)
    ensures
        made@ == (HeaderView { name: name@, value: value@ }),
{
    Header { name: String::from_str(name), value }
}

/// Builds the request for the releases of the repository `repo_name` of
/// `repo_owner`, authorised by `token`. Nothing is asked of the three
/// texts: they go into the request as they are.
pub fn releases_request(repo_name: &str, repo_owner: &str, token: &str) -> (request: FetchRequest)
    ensures
        request@ == request_for(repo_name@, repo_owner@, token@),
{
    let mut url = String::from_str("https://api.github.com/repos/");
    url.append(repo_owner);
    url.append("/");
    url.append(repo_name);
    url.append("/releases");
    let mut bearer = String::from_str("Bearer ");
    bearer.append(token);
    let mut headers: Vec<Header> = Vec::new();
    headers.push(header("Authorization", bearer));
    headers.push(header("User-Agent", String::from_str("Awesome-Octocat-App")));
    headers.push(header("X-GitHub-Api-Version", String::from_str("2022-11-28")));
    headers.push(header("Accept", String::from_str("application/vnd.github+json")));
    let request = FetchRequest { url, headers };
    proof {
        assert(request@.headers =~= request_for(repo_name@, repo_owner@, token@).headers);
    }
    request
}

} // verus!
