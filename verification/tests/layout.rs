use repo_mirror::layout::{
    archive_file, download_file, gist_mirror, git_mirror, migration_archive_url, migration_url,
    repository_mirror, MirrorTarget, GRAPHQL_URL, MIGRATIONS_ACCEPT, MIGRATIONS_URL,
};
use repo_mirror::text::{decimal_text, join2, join3, same_text};

#[test]
fn repository_mirror_lies_below_clone() {
    assert_eq!(
        repository_mirror("owner/repo", "user", "secret"),
        MirrorTarget {
            destination_subpath: "github/clone/owner/repo".to_string(),
            remote_url: "https://github.com/owner/repo.git".to_string(),
            credentials: Some(("user".to_string(), "secret".to_string())),
        }
    );
}

#[test]
fn gist_mirror_lies_below_gists() {
    assert_eq!(
        gist_mirror("0123abcd", "user", "secret"),
        MirrorTarget {
            destination_subpath: "github/gists/0123abcd".to_string(),
            remote_url: "https://gist.github.com/0123abcd.git".to_string(),
            credentials: Some(("user".to_string(), "secret".to_string())),
        }
    );
}

#[test]
fn git_mirror_keeps_the_address() {
    assert_eq!(
        git_mirror("example", "https://example.com/example.git"),
        MirrorTarget {
            destination_subpath: "git/example".to_string(),
            remote_url: "https://example.com/example.git".to_string(),
            credentials: None,
        }
    );
}

#[test]
fn archive_and_download_lie_side_by_side() {
    assert_eq!(archive_file("owner/repo"), "github/archive/owner/repo.zip");
    assert_eq!(download_file("owner/repo"), "github/archive/owner/repo.zip.new");
}

#[test]
fn job_addresses_hold_the_number() {
    assert_eq!(GRAPHQL_URL, "https://api.github.com/graphql");
    assert_eq!(MIGRATIONS_URL, "https://api.github.com/user/migrations");
    assert_eq!(MIGRATIONS_ACCEPT, "application/vnd.github.wyandotte-preview+json");
    assert_eq!(migration_url(0), "https://api.github.com/user/migrations/0");
    assert_eq!(migration_url(79), "https://api.github.com/user/migrations/79");
    assert_eq!(
        migration_archive_url(1234567890),
        "https://api.github.com/user/migrations/1234567890/archive"
    );
}

#[test]
fn numbers_are_written_in_decimal() {
    assert_eq!(decimal_text(0), "0");
    assert_eq!(decimal_text(7), "7");
    assert_eq!(decimal_text(10), "10");
    assert_eq!(decimal_text(409), "409");
    assert_eq!(decimal_text(u64::MAX), "18446744073709551615");
}

#[test]
fn texts_are_joined_in_order() {
    assert_eq!(join2("ab", "cd"), "abcd");
    assert_eq!(join2("", ""), "");
    assert_eq!(join3("a", "", "ç/é"), "aç/é");
}

#[test]
fn texts_are_the_same_by_their_characters() {
    assert!(same_text("", ""));
    assert!(same_text("a/b", "a/b"));
    assert!(same_text("ç/é", "ç/é"));
    assert!(!same_text("a/b", "a/B"));
    assert!(!same_text("a/b", "a/bc"));
    assert!(!same_text("ab", "ba"));
}
