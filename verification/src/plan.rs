//! The work of one run: which repositories are exported, and which mirrors
//! are brought up to date, each once.

use vstd::prelude::*;
use vstd::string::*;
use crate::config::{Git, GitHub, GitRemote};
use crate::github::{Repositories, RepositoriesView};
use crate::layout::{
    gist_mirror, gist_target, git_mirror, git_target, lemma_places_apart, repository_mirror,
    repository_target, target_views, MirrorTarget, MirrorTargetView,
};
use crate::targets::{
    archive_order, build_archive_set, build_clone_set, build_gist_set, clone_order, gist_order,
    lemma_clone_set_exact, TargetSet,
};
use crate::text::texts;

verus! {

/// The work that an account gives a run.
#[derive(Debug)]
pub struct GitHubPlan {
    /// The repositories to export, each once.
    pub archives: TargetSet,
    /// The gists to mirror, each once.
    pub gists: Vec<MirrorTarget>,
    /// The repositories to mirror, each once.
    pub clones: Vec<MirrorTarget>,
}

/// The repositories that a run exports, in order: those that the account
/// owns, where the configuration wants them exported, and none where the
/// run is to leave archives out.
pub open spec fn planned_archives(github: GitHub, repos: RepositoriesView, no_archive: bool) -> Seq<
    Seq<char>,
> {
    if no_archive {
        Seq::empty()
    } else {
        archive_order(repos, github.archive.owned, Seq::empty())
    }
}

/// The repositories that a run mirrors, in order.
pub open spec fn planned_clone_names(
    github: GitHub,
    repos: RepositoriesView,
    no_archive: bool,
) -> Seq<Seq<char>> {
    clone_order(
        repos,
        texts(github.clone.repos@),
        github.clone.starred,
        github.clone.watched,
        planned_archives(github, repos, no_archive),
    )
}

/// The mirrors of the repositories that a run mirrors, in order.
pub open spec fn planned_clones(github: GitHub, repos: RepositoriesView, no_archive: bool) -> Seq<
    MirrorTargetView,
> {
    planned_clone_names(github, repos, no_archive).map_values(
        |name: Seq<char>| repository_target(name, github.user@, github.token@),
    )
}

/// The mirrors of the gists that a run mirrors, in order.
pub open spec fn planned_gists(github: GitHub, repos: RepositoriesView) -> Seq<MirrorTargetView> {
    gist_order(repos, github.clone.gists).map_values(
        |name: Seq<char>| gist_target(name, github.user@, github.token@),
    )
}

/// The mirrors of the plain remotes of a configuration, in its order.
pub open spec fn planned_remotes(git: Git) -> Seq<MirrorTargetView> {
    git.repos@.map_values(|remote: GitRemote| git_target(remote.path@, remote.url@))
}

fn repository_mirrors(set: &TargetSet, user: &str, token: &str) -> (targets: Vec<MirrorTarget>)
    ensures
        target_views(targets@) == set.order().map_values(
            |name: Seq<char>| repository_target(name, user@, token@),
        ),
{
    let names = set.names();
    let mut targets: Vec<MirrorTarget> = Vec::new();
    let mut i: usize = 0;
    while i < names.len()
        invariant
            i <= names.len(),
            texts(names@) == set.order(),
            target_views(targets@) == set.order().take(i as int).map_values(
                |name: Seq<char>| repository_target(name, user@, token@),
            ),
        decreases names.len() - i,
    {
        let target = repository_mirror(names[i].as_str(), user, token);
        targets.push(target);
        proof {
            assert(set.order().take(i + 1).map_values(
                |name: Seq<char>| repository_target(name, user@, token@),
            ) =~= set.order().take(i as int).map_values(
                |name: Seq<char>| repository_target(name, user@, token@),
            ).push(repository_target(set.order()[i as int], user@, token@)));
        }
        i += 1;
    }
    targets
}

fn gist_mirrors(set: &TargetSet, user: &str, token: &str) -> (targets: Vec<MirrorTarget>)
    ensures
        target_views(targets@) == set.order().map_values(
            |name: Seq<char>| gist_target(name, user@, token@),
        ),
{
    let names = set.names();
    let mut targets: Vec<MirrorTarget> = Vec::new();
    let mut i: usize = 0;
    while i < names.len()
        invariant
            i <= names.len(),
            texts(names@) == set.order(),
            target_views(targets@) == set.order().take(i as int).map_values(
                |name: Seq<char>| gist_target(name, user@, token@),
            ),
        decreases names.len() - i,
    {
        let target = gist_mirror(names[i].as_str(), user, token);
        targets.push(target);
        proof {
            assert(set.order().take(i + 1).map_values(
                |name: Seq<char>| gist_target(name, user@, token@),
            ) =~= set.order().take(i as int).map_values(
                |name: Seq<char>| gist_target(name, user@, token@),
            ).push(gist_target(set.order()[i as int], user@, token@)));
        }
        i += 1;
    }
    targets
}

/// Lays out the work that an account gives a run: from the configuration
/// and the account's repositories, the repositories to export and the
/// mirrors to bring up to date.
///
/// The repositories that the account owns are mirrored in any case, and so
/// are those that are exported and those that the configuration names;
/// those that the account has starred or watches, and its gists, where the
/// configuration wants them.
pub fn plan_github(github: &GitHub, repos: &Repositories, no_archive: bool) -> (plan: GitHubPlan)
    ensures
        plan.archives.order() == planned_archives(*github, repos@, no_archive),
        target_views(plan.gists@) == planned_gists(*github, repos@),
        target_views(plan.clones@) == planned_clones(*github, repos@, no_archive),
{
    let none: Vec<String> = Vec::new();
    let archives = if no_archive {
        TargetSet::new()
    } else {
        build_archive_set(repos, github.archive.owned, &none)
    };
    let gist_set = build_gist_set(repos, github.clone.gists);
    let clone_set = build_clone_set(
        repos,
        &github.clone.repos,
        github.clone.starred,
        github.clone.watched,
        &archives,
    );
    let gists = gist_mirrors(&gist_set, github.user.as_str(), github.token.as_str());
    let clones = repository_mirrors(&clone_set, github.user.as_str(), github.token.as_str());
    GitHubPlan { archives, gists, clones }
}

/// Lays out the mirrors of the plain remotes of a configuration, one for
/// each remote, in the configuration's order.
pub fn plan_git(git: &Git) -> (targets: Vec<MirrorTarget>)
    ensures
        target_views(targets@) == planned_remotes(*git),
{
    let mut targets: Vec<MirrorTarget> = Vec::new();
    let mut i: usize = 0;
    while i < git.repos.len()
        invariant
            i <= git.repos.len(),
            target_views(targets@) == planned_remotes(*git).take(i as int),
        decreases git.repos.len() - i,
    {
        let remote = &git.repos[i];
        let target = git_mirror(remote.path.as_str(), remote.url.as_str());
        targets.push(target);
        proof {
            assert(planned_remotes(*git).take(i + 1) =~= planned_remotes(*git).take(
                i as int,
            ).push(git_target(remote.path@, remote.url@)));
        }
        i += 1;
    }
    targets
}

/// A run mirrors each repository of its set once: there are as many
/// mirrors as the set has names, and no two of them lie in the same place
/// or fetch from the same address.
pub proof fn lemma_each_mirrored_once(
    github: GitHub,
    repos: RepositoriesView,
    no_archive: bool,
    i: int,
    j: int,
)
    requires
        0 <= i < j < planned_clones(github, repos, no_archive).len(),
    ensures
        planned_clones(github, repos, no_archive).len() == planned_clone_names(
            github,
            repos,
            no_archive,
        ).to_set().len(),
        planned_clones(github, repos, no_archive)[i].destination_subpath != planned_clones(
            github,
            repos,
            no_archive,
        )[j].destination_subpath,
        planned_clones(github, repos, no_archive)[i].remote_url != planned_clones(
            github,
            repos,
            no_archive,
        )[j].remote_url,
{
    let names = planned_clone_names(github, repos, no_archive);
    lemma_clone_names_distinct(github, repos, no_archive);
    names.unique_seq_to_set();
    lemma_places_apart(names[i], names[j], github.user@, github.token@);
}

/// No repository is twice among those that a run mirrors.
pub proof fn lemma_clone_names_distinct(github: GitHub, repos: RepositoriesView, no_archive: bool)
    ensures
        planned_clone_names(github, repos, no_archive).no_duplicates(),
{
    lemma_clone_set_exact(
        repos,
        texts(github.clone.repos@),
        github.clone.starred,
        github.clone.watched,
        planned_archives(github, repos, no_archive),
    );
}

} // verus!
