use repo_mirror::config::{Git, GitHub, GitHubArchive, GitHubClone, GitRemote};
use repo_mirror::github::Repositories;
use repo_mirror::layout::MirrorTarget;
use repo_mirror::plan::{plan_git, plan_github};
use repo_mirror::targets::{build_archive_set, build_clone_set, build_gist_set, TargetSet};

fn names(list: &[&str]) -> Vec<String> {
    list.iter().map(|s| s.to_string()).collect()
}

fn repos(owned: &[&str], starred: &[&str], watched: &[&str], gists: &[&str]) -> Repositories {
    Repositories {
        owned: names(owned),
        starred: names(starred),
        watched: names(watched),
        gists: names(gists),
    }
}

fn account(clone: GitHubClone, archive_owned: bool) -> GitHub {
    GitHub {
        user: "me".to_string(),
        token: "t0ken".to_string(),
        archive: GitHubArchive { owned: archive_owned },
        clone,
    }
}

#[test]
fn overlapping_sources_give_each_name_once() {
    let found = repos(&["a/b", "c/d"], &[], &[], &[]);
    let set = build_clone_set(&found, &names(&["a/b"]), false, false, &TargetSet::new());
    assert_eq!(set.len(), 2);
    assert!(set.contains("a/b"));
    assert!(set.contains("c/d"));
    assert!(!set.contains("A/B"));
    assert_eq!(set.names(), &names(&["a/b", "c/d"]));
}

#[test]
fn clone_set_takes_starred_and_watched_where_wanted() {
    let found = repos(&["me/a"], &["you/s", "me/a"], &["we/w", "you/s"], &["g1"]);
    let configured = names(&["other/c"]);
    let none = TargetSet::new();
    let plain = build_clone_set(&found, &configured, false, false, &none);
    assert_eq!(plain.names(), &names(&["me/a", "other/c"]));
    let starred = build_clone_set(&found, &configured, true, false, &none);
    assert_eq!(starred.names(), &names(&["me/a", "other/c", "you/s"]));
    let watched = build_clone_set(&found, &configured, false, true, &none);
    assert_eq!(watched.names(), &names(&["me/a", "other/c", "we/w", "you/s"]));
    let both = build_clone_set(&found, &configured, true, true, &none);
    assert_eq!(both.names(), &names(&["me/a", "other/c", "you/s", "we/w"]));
    assert_eq!(both.len(), 4);
}

#[test]
fn clone_set_takes_the_archived() {
    let found = repos(&["me/a"], &[], &[], &[]);
    let archived = build_archive_set(&found, false, &names(&["old/x", "me/a"]));
    let set = build_clone_set(&found, &names(&[]), false, false, &archived);
    assert_eq!(set.names(), &names(&["me/a", "old/x"]));
}

#[test]
fn archive_set_is_owned_where_wanted_and_configured() {
    let found = repos(&["me/a", "me/b", "me/a"], &["you/s"], &[], &[]);
    let with_owned = build_archive_set(&found, true, &names(&["x/y", "me/b"]));
    assert_eq!(with_owned.names(), &names(&["me/a", "me/b", "x/y"]));
    let without = build_archive_set(&found, false, &names(&["x/y", "x/y"]));
    assert_eq!(without.names(), &names(&["x/y"]));
    let nothing = build_archive_set(&found, false, &names(&[]));
    assert_eq!(nothing.len(), 0);
}

#[test]
fn gist_set_is_empty_unless_wanted() {
    let found = repos(&[], &[], &[], &["g1", "g2", "g1"]);
    assert_eq!(build_gist_set(&found, true).names(), &names(&["g1", "g2"]));
    assert_eq!(build_gist_set(&found, false).len(), 0);
}

#[test]
fn names_differ_by_case() {
    let mut set = TargetSet::new();
    assert!(set.insert("a/b"));
    assert!(set.insert("A/b"));
    assert!(!set.insert("a/b"));
    assert_eq!(set.len(), 2);
    set.extend(&names(&["a/b", "c/d", "c/d", "A/b"]));
    assert_eq!(set.names(), &names(&["a/b", "A/b", "c/d"]));
}

#[test]
fn each_repository_of_the_set_is_mirrored_once() {
    let found = repos(&["x/y"], &[], &[], &[]);
    let clone = GitHubClone {
        starred: false,
        watched: false,
        gists: false,
        repos: names(&["z/w"]),
        ignored: vec![],
    };
    let plan = plan_github(&account(clone, true), &found, false);
    let credentials = Some(("me".to_string(), "t0ken".to_string()));
    assert_eq!(
        plan.clones,
        vec![
            MirrorTarget {
                destination_subpath: "github/clone/x/y".to_string(),
                remote_url: "https://github.com/x/y.git".to_string(),
                credentials: credentials.clone(),
            },
            MirrorTarget {
                destination_subpath: "github/clone/z/w".to_string(),
                remote_url: "https://github.com/z/w.git".to_string(),
                credentials,
            },
        ]
    );
    assert_eq!(plan.archives.names(), &names(&["x/y"]));
    assert_eq!(plan.gists, vec![]);
}

#[test]
fn plan_leaves_archives_out_on_request() {
    let found = repos(&["x/y"], &["s/t"], &["w/v"], &["g1"]);
    let plan = plan_github(&account(GitHubClone::default(), true), &found, true);
    assert_eq!(plan.archives.len(), 0);
    assert_eq!(plan.clones.len(), 1);
    assert_eq!(plan.clones[0].destination_subpath, "github/clone/x/y");
    assert_eq!(plan.gists.len(), 1);
    assert_eq!(plan.gists[0].destination_subpath, "github/gists/g1");
    assert_eq!(plan.gists[0].remote_url, "https://gist.github.com/g1.git");
    assert_eq!(plan.gists[0].credentials, Some(("me".to_string(), "t0ken".to_string())));
}

#[test]
fn plan_follows_the_flags() {
    let found = repos(&["x/y"], &["s/t", "x/y"], &["w/v"], &["g1"]);
    let clone = GitHubClone { starred: true, watched: true, gists: false, repos: vec![], ignored: vec![] };
    let plan = plan_github(&account(clone, false), &found, false);
    assert_eq!(plan.archives.len(), 0);
    let places: Vec<&str> = plan.clones.iter().map(|t| t.destination_subpath.as_str()).collect();
    assert_eq!(places, vec!["github/clone/x/y", "github/clone/s/t", "github/clone/w/v"]);
    assert_eq!(plan.gists.len(), 0);
}

#[test]
fn plain_remotes_are_mirrored_without_credentials() {
    let git = Git {
        repos: vec![
            GitRemote { path: "example".to_string(), url: "https://example.com/example.git".to_string() },
            GitRemote { path: "deep/er".to_string(), url: "git://host/r".to_string() },
        ],
    };
    assert_eq!(
        plan_git(&git),
        vec![
            MirrorTarget {
                destination_subpath: "git/example".to_string(),
                remote_url: "https://example.com/example.git".to_string(),
                credentials: None,
            },
            MirrorTarget {
                destination_subpath: "git/deep/er".to_string(),
                remote_url: "git://host/r".to_string(),
                credentials: None,
            },
        ]
    );
    assert_eq!(plan_git(&Git { repos: vec![] }), vec![]);
}
