//! The configuration of a run, as the caller has read it.

use vstd::prelude::*;
use vstd::string::*;

verus! {

/// The whole configuration.
#[derive(Clone, Debug, PartialEq, Eq)]
pub struct Config {
    pub version: u32,
    pub github: Option<GitHub>,
    pub git: Option<Git>,
}

/// The hosted account to mirror, and what of it.
#[derive(Clone, Debug, PartialEq, Eq)]
pub struct GitHub {
    pub user: String,
    pub token: String,
    pub archive: GitHubArchive,
    pub clone: GitHubClone,
}

/// Which repositories of the account are exported as archives.
#[derive(Clone, Copy, Debug, PartialEq, Eq)]
pub struct GitHubArchive {
    /// Whether the repositories that the account owns are.
    pub owned: bool,
}

/// Which repositories of the account are mirrored, beside those it owns.
#[derive(Clone, Debug, PartialEq, Eq)]
pub struct GitHubClone {
    /// Whether the repositories that the account has starred are.
    pub starred: bool,
    /// Whether the repositories that the account watches are.
    pub watched: bool,
    /// Whether the account's gists are.
    pub gists: bool,
    /// Repositories that are mirrored whatever the account has to do with
    /// them.
    pub repos: Vec<String>,
    pub ignored: Vec<String>,
}

/// One plain remote to mirror: where to, below the directory of such
/// mirrors, and where from.
#[derive(Clone, Debug, PartialEq, Eq)]
pub struct GitRemote {
    pub path: String,
    pub url: String,
}

/// The plain remotes to mirror.
#[derive(Clone, Debug, PartialEq, Eq)]
pub struct Git {
    pub repos: Vec<GitRemote>,
}

/// Why a configuration is refused.
#[derive(Clone, Copy, Debug, PartialEq, Eq)]
pub enum ConfigError {
    /// The plain remote at `index` has an address that is no text.
    RemoteWithoutAddress { index: usize },
}

/// Whether the plain remotes are those of the entries, in their order: each
/// entry's place, and the address that it holds.
pub open spec fn remotes_of(git: Git, entries: Seq<(String, Option<String>)>) -> bool {
    &&& git.repos@.len() == entries.len()
    &&& forall|i: int|
        0 <= i < entries.len() ==> (#[trigger] entries[i]).1 is Some && git.repos@[i].path@
            == entries[i].0@ && git.repos@[i].url@ == entries[i].1->0@
}

/// The first entry without an address, if there is one.
pub open spec fn first_without_address(entries: Seq<(String, Option<String>)>) -> Option<int>
    decreases entries.len(),
{
    if entries.len() == 0 {
        None
    } else {
        match first_without_address(entries.drop_last()) {
            Some(index) => Some(index),
            None => if entries.last().1 is None {
                Some(entries.len() - 1)
            } else {
                None
            },
        }
    }
}

/// Takes the plain remotes of a configuration from its entries, each the
/// place of a mirror and the address of its remote, which is `None` where
/// the configuration gives something else than text. The first entry
/// without an address has the configuration refused.
pub fn git_remotes(entries: &Vec<(String, Option<String>)>) -> (read: Result<Git, ConfigError>)
    ensures
        read is Ok ==> first_without_address(entries@) is None && remotes_of(
            read->Ok_0,
            entries@,
        ),
        read is Err ==> first_without_address(entries@) == Some(read->Err_0->index as int),
{
    let mut repos: Vec<GitRemote> = Vec::new();
    let mut i: usize = 0;
    while i < entries.len()
        invariant
            i <= entries.len(),
            first_without_address(entries@.take(i as int)) is None,
            remotes_of(Git { repos }, entries@.take(i as int)),
        decreases entries.len() - i,
    {
        proof {
            assert(entries@.take(i + 1).drop_last() =~= entries@.take(i as int));
        }
        let entry = &entries[i];
        match &entry.1 {
            Some(url) => {
                repos.push(GitRemote { path: entry.0.clone(), url: url.clone() });
            },
            None => {
                proof {
                    lemma_first_stays(entries@, i + 1);
                }
                return Err(ConfigError::RemoteWithoutAddress { index: i });
            },
        }
        i += 1;
    }
    proof {
        assert(entries@.take(i as int) =~= entries@);
    }
    Ok(Git { repos })
}

/// The first entry without an address among the first `n` is the first
/// among all.
proof fn lemma_first_stays(entries: Seq<(String, Option<String>)>, n: int)
    requires
        0 <= n <= entries.len(),
        first_without_address(entries.take(n)) is Some,
    ensures
        first_without_address(entries) == first_without_address(entries.take(n)),
    decreases entries.len() - n,
{
    if n == entries.len() {
        assert(entries.take(n) =~= entries);
    } else {
        assert(entries.take(n + 1).drop_last() =~= entries.take(n));
        lemma_first_stays(entries, n + 1);
    }
}

impl Default for GitHubArchive {
    /// Where the configuration says nothing of archives, the repositories
    /// that the account owns are exported.
    fn default() -> (archive: GitHubArchive)
        ensures
            archive.owned,
    {
        GitHubArchive { owned: true }
    }
}

impl Default for GitHubClone {
    /// Where the configuration says nothing of mirrors, the gists are
    /// mirrored beside the repositories that the account owns, and neither
    /// what it has starred nor what it watches.
    fn default() -> (clone: GitHubClone)
        ensures
            !clone.starred,
            !clone.watched,
            clone.gists,
            clone.repos@ == Seq::<String>::empty(),
            clone.ignored@ == Seq::<String>::empty(),
    {
        GitHubClone {
            starred: false,
            watched: false,
            gists: true,
            repos: Vec::new(),
            ignored: Vec::new(),
        }
    }
}

} // verus!
