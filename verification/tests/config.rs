use repo_mirror::config::{
    git_remotes, Config, ConfigError, Git, GitHub, GitHubArchive, GitHubClone, GitRemote,
};
use repo_mirror::errors::{reply_body, classify_status, status_kind_of, ErrorKind, Reply};

#[test]
fn archives_default_to_owned() {
    assert_eq!(GitHubArchive::default(), GitHubArchive { owned: true });
}

#[test]
fn mirrors_default_to_gists_only() {
    assert_eq!(
        GitHubClone::default(),
        GitHubClone { starred: false, watched: false, gists: true, repos: vec![], ignored: vec![] }
    );
}

#[test]
fn configuration_holds_what_it_was_given() {
    let config = Config {
        version: 0,
        github: Some(GitHub {
            user: "user".to_string(),
            token: "token".to_string(),
            archive: GitHubArchive { owned: false },
            clone: GitHubClone {
                starred: true,
                watched: true,
                gists: false,
                repos: vec!["example/two".to_string()],
                ignored: vec![],
            },
        }),
        git: Some(Git {
            repos: vec![GitRemote {
                path: "example".to_string(),
                url: "https://example.com/example.git".to_string(),
            }],
        }),
    };
    assert_eq!(config.clone(), config);
    assert_ne!(config, Config { version: 0, github: None, git: None });
}

#[test]
fn statuses_are_classified() {
    assert_eq!(classify_status(200), None);
    assert_eq!(classify_status(201), None);
    assert_eq!(classify_status(299), None);
    assert_eq!(classify_status(199), Some(ErrorKind::Transport));
    assert_eq!(classify_status(300), Some(ErrorKind::Transport));
    assert_eq!(classify_status(401), Some(ErrorKind::Auth));
    assert_eq!(classify_status(403), Some(ErrorKind::Auth));
    assert_eq!(classify_status(404), Some(ErrorKind::Transport));
    assert_eq!(classify_status(500), Some(ErrorKind::Transport));
    assert_eq!(status_kind_of(401), ErrorKind::Auth);
    assert_eq!(status_kind_of(418), ErrorKind::Transport);
}

#[test]
fn replies_are_taken_apart() {
    assert_eq!(reply_body(Reply::Answered { status: 200, body: Some(7u8) }), Ok(7u8));
    assert_eq!(reply_body(Reply::Answered { status: 200, body: None::<u8> }), Err(ErrorKind::Protocol));
    assert_eq!(reply_body(Reply::Answered { status: 403, body: Some(7u8) }), Err(ErrorKind::Auth));
    assert_eq!(reply_body(Reply::Answered { status: 500, body: Some(7u8) }), Err(ErrorKind::Transport));
    assert_eq!(reply_body(Reply::<u8>::Unreachable), Err(ErrorKind::Transport));
}

#[test]
fn remotes_are_taken_in_order() {
    let entries = vec![
        ("example".to_string(), Some("https://example.com/example.git".to_string())),
        ("b/c".to_string(), Some("git://host/r".to_string())),
    ];
    assert_eq!(
        git_remotes(&entries),
        Ok(Git {
            repos: vec![
                GitRemote {
                    path: "example".to_string(),
                    url: "https://example.com/example.git".to_string(),
                },
                GitRemote { path: "b/c".to_string(), url: "git://host/r".to_string() },
            ],
        })
    );
    assert_eq!(git_remotes(&vec![]), Ok(Git { repos: vec![] }));
}

#[test]
fn remote_without_address_is_refused() {
    let entries = vec![
        ("a".to_string(), Some("u".to_string())),
        ("b".to_string(), None),
        ("c".to_string(), Some("v".to_string())),
        ("d".to_string(), None),
    ];
    assert_eq!(git_remotes(&entries), Err(ConfigError::RemoteWithoutAddress { index: 1 }));
}
