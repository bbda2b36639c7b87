//! The release records that the hosting service reports.

use vstd::prelude::*;

verus! {

/// The account that published a release.
#[derive(Debug)]
pub struct Author {
    pub login: String,
    pub id: u64,
    pub node_id: String,
    pub avatar_url: String,
    pub gravatar_id: String,
    pub url: String,
    pub html_url: String,
    pub followers_url: String,
    pub following_url: String,
    pub gists_url: String,
    pub starred_url: String,
    pub subscriptions_url: String,
    pub organizations_url: String,
    pub repos_url: String,
    pub events_url: String,
    pub received_events_url: String,
    pub type_field: String,
    pub site_admin: bool,
}

/// One published release of a repository.
#[derive(Debug)]
pub struct Release {
    pub url: String,
    pub assets_url: String,
    pub upload_url: String,
    pub html_url: String,
    pub id: u64,
    pub author: Author,
    pub node_id: String,
    pub tag_name: String,
    pub target_commitish: String,
    pub name: String,
    pub draft: bool,
    pub prerelease: bool,
    pub created_at: String,
    pub published_at: String,
    pub tarball_url: String,
    pub zipball_url: String,
    pub body: String,
}

impl View for Author {
    type V = Seq<char>;

    /// Of an author the export reads the login alone.
    open spec fn view(&self) -> Seq<char> {
        self.login@
    }
}

/// What the export reads of a release: four texts, each taken as it
/// came. Nothing is asked of any of them; each may be empty.
pub struct ReleaseView {
    /// The display title.
    pub name: Seq<char>,
    /// The time of creation, in the service's own notation.
    pub created_at: Seq<char>,
    /// The login of the author.
    pub author_login: Seq<char>,
    /// The release notes, lines divided by newlines.
    pub body: Seq<char>,
}

impl View for Release {
    type V = ReleaseView;

    open spec fn view(&self) -> ReleaseView {
        ReleaseView {
            name: self.name@,
            created_at: self.created_at@,
            author_login: self.author@,
            body: self.body@,
        }
    }
}

impl DeepView for Release {
    type V = ReleaseView;

    open spec fn deep_view(&self) -> ReleaseView {
        self@
    }
}

} // verus!
