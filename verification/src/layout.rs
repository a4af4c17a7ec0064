//! Where things lie: the place of each mirror and archive below the
//! destination directory, and the addresses at the hosted service.

use vstd::prelude::*;
use vstd::string::*;
use crate::text::{decimal, decimal_text, join2, join3};

verus! {

/// The address that the account's repositories are enumerated at.
pub const GRAPHQL_URL: &'static str = "https://api.github.com/graphql";

/// The address that export jobs are created at.
pub const MIGRATIONS_URL: &'static str = "https://api.github.com/user/migrations";

/// The media type that the service asks for in requests about export jobs.
pub const MIGRATIONS_ACCEPT: &'static str = "application/vnd.github.wyandotte-preview+json";

/// One mirror to bring up to date: its place below the destination
/// directory, the remote to fetch from, and the name and secret to answer
/// the remote's challenges with, if any.
#[derive(Clone, Debug, PartialEq, Eq)]
pub struct MirrorTarget {
    pub destination_subpath: String,
    pub remote_url: String,
    pub credentials: Option<(String, String)>,
}

/// One mirror to bring up to date by the characters of its texts.
pub struct MirrorTargetView {
    pub destination_subpath: Seq<char>,
    pub remote_url: Seq<char>,
    pub credentials: Option<(Seq<char>, Seq<char>)>,
}

impl View for MirrorTarget {
    type V = MirrorTargetView;

    open spec fn view(&self) -> MirrorTargetView {
        MirrorTargetView {
            destination_subpath: self.destination_subpath@,
            remote_url: self.remote_url@,
            credentials: match self.credentials {
                Some((name, secret)) => Some((name@, secret@)),
                None => None,
            },
        }
    }
}

/// The targets of a list, each by its characters.
pub open spec fn target_views(targets: Seq<MirrorTarget>) -> Seq<MirrorTargetView> {
    targets.map_values(|target: MirrorTarget| target@)
}

/// The mirror of a repository of the hosted service.
pub open spec fn repository_target(name: Seq<char>, user: Seq<char>, token: Seq<char>) -> MirrorTargetView {
    MirrorTargetView {
        destination_subpath: "github/clone/"@ + name,
        remote_url: "https://github.com/"@ + name + ".git"@,
        credentials: Some((user, token)),
    }
}

/// The mirror of a gist of the hosted service.
pub open spec fn gist_target(name: Seq<char>, user: Seq<char>, token: Seq<char>) -> MirrorTargetView {
    MirrorTargetView {
        destination_subpath: "github/gists/"@ + name,
        remote_url: "https://gist.github.com/"@ + name + ".git"@,
        credentials: Some((user, token)),
    }
}

/// The mirror of a plain remote.
pub open spec fn git_target(path: Seq<char>, url: Seq<char>) -> MirrorTargetView {
    MirrorTargetView { destination_subpath: "git/"@ + path, remote_url: url, credentials: None }
}

/// The place of the archive of a repository.
pub open spec fn archive_subpath(repository: Seq<char>) -> Seq<char> {
    "github/archive/"@ + repository + ".zip"@
}

/// The place that the archive of a repository is downloaded to, beside the
/// archive.
pub open spec fn download_subpath(repository: Seq<char>) -> Seq<char> {
    "github/archive/"@ + repository + ".zip.new"@
}

/// The address of the export job with the given number.
pub open spec fn migration_address(id: u64) -> Seq<char> {
    MIGRATIONS_URL@ + "/"@ + decimal(id as nat)
}

/// The address of the archive of the export job with the given number.
pub open spec fn migration_archive_address(id: u64) -> Seq<char> {
    MIGRATIONS_URL@ + "/"@ + decimal(id as nat) + "/archive"@
}

/// The mirror of a repository of the hosted service, fetched in the name
/// of the account.
pub fn repository_mirror(name: &str, user: &str, token: &str) -> (target: MirrorTarget)
    ensures
        target@ == repository_target(name@, user@, token@),
{
    MirrorTarget {
        destination_subpath: join2("github/clone/", name),
        remote_url: join3("https://github.com/", name, ".git"),
        credentials: Some((String::from_str(user), String::from_str(token))),
    }
}

/// The mirror of a gist of the hosted service, fetched in the name of the
/// account.
pub fn gist_mirror(name: &str, user: &str, token: &str) -> (target: MirrorTarget)
    ensures
        target@ == gist_target(name@, user@, token@),
{
    MirrorTarget {
        destination_subpath: join2("github/gists/", name),
        remote_url: join3("https://gist.github.com/", name, ".git"),
        credentials: Some((String::from_str(user), String::from_str(token))),
    }
}

/// The mirror of a plain remote, fetched without credentials.
pub fn git_mirror(path: &str, url: &str) -> (target: MirrorTarget)
    ensures
        target@ == git_target(path@, url@),
{
    MirrorTarget {
        destination_subpath: join2("git/", path),
        remote_url: String::from_str(url),
        credentials: None,
    }
}

/// The place of the archive of a repository below the destination
/// directory.
pub fn archive_file(repository: &str) -> (path: String)
    ensures
        path@ == archive_subpath(repository@),
{
    join3("github/archive/", repository, ".zip")
}

/// The place that the archive of a repository is downloaded to.
pub fn download_file(repository: &str) -> (path: String)
    ensures
        path@ == download_subpath(repository@),
{
    join3("github/archive/", repository, ".zip.new")
}

/// The address to ask for the state of an export job at.
pub fn migration_url(id: u64) -> (url: String)
    ensures
        url@ == migration_address(id),
{
    let number = decimal_text(id);
    join3(MIGRATIONS_URL, "/", number.as_str())
}

/// The address to download the archive of an export job from.
pub fn migration_archive_url(id: u64) -> (url: String)
    ensures
        url@ == migration_archive_address(id),
{
    let mut url = migration_url(id);
    url.append("/archive");
    url
}

/// Two texts between the same two others are the same only where they are
/// the same themselves.
pub proof fn lemma_framed_apart(
    before: Seq<char>,
    a: Seq<char>,
    b: Seq<char>,
    after: Seq<char>,
)
    requires
        a != b,
    ensures
        before + a + after != before + b + after,
        before + a != before + b,
{
    let left = before + a + after;
    let right = before + b + after;
    if left == right {
        assert(a.len() == b.len()) by {
            assert(left.len() == right.len());
        }
        assert(a =~= left.subrange(before.len() as int, (before.len() + a.len()) as int));
        assert(b =~= right.subrange(before.len() as int, (before.len() + b.len()) as int));
    }
}

/// Two repositories with different names are mirrored in different places
/// and from different addresses, and so are two gists; two repositories
/// with different names have different archives.
pub proof fn lemma_places_apart(a: Seq<char>, b: Seq<char>, user: Seq<char>, token: Seq<char>)
    requires
        a != b,
    ensures
        repository_target(a, user, token).destination_subpath != repository_target(
            b,
            user,
            token,
        ).destination_subpath,
        repository_target(a, user, token).remote_url != repository_target(
            b,
            user,
            token,
        ).remote_url,
        gist_target(a, user, token).destination_subpath != gist_target(
            b,
            user,
            token,
        ).destination_subpath,
        gist_target(a, user, token).remote_url != gist_target(b, user, token).remote_url,
        archive_subpath(a) != archive_subpath(b),
        download_subpath(a) != download_subpath(b),
{
    lemma_framed_apart("github/clone/"@, a, b, Seq::empty());
    lemma_framed_apart("https://github.com/"@, a, b, ".git"@);
    lemma_framed_apart("github/gists/"@, a, b, Seq::empty());
    lemma_framed_apart("https://gist.github.com/"@, a, b, ".git"@);
    lemma_framed_apart("github/archive/"@, a, b, ".zip"@);
    lemma_framed_apart("github/archive/"@, a, b, ".zip.new"@);
}

} // verus!
