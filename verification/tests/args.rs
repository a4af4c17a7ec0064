use repo_mirror::args::{parse_args, Args, ArgsError};

fn line(args: &[&str]) -> Vec<String> {
    args.iter().map(|s| s.to_string()).collect()
}

fn plain(config: &str, destination: &str) -> Args {
    Args {
        config: config.to_string(),
        destination: destination.to_string(),
        verbose: false,
        no_archive: false,
        dry_run: false,
    }
}

#[test]
fn two_names_are_config_and_destination() {
    assert_eq!(parse_args(&line(&["backup.toml", "/srv/backup"])), Ok(plain("backup.toml", "/srv/backup")));
}

#[test]
fn options_stand_anywhere() {
    let expected = Args { verbose: true, dry_run: true, no_archive: true, ..plain("c", "d") };
    assert_eq!(parse_args(&line(&["-v", "--dry-run", "--no-archive", "c", "d"])), Ok(expected.clone()));
    assert_eq!(parse_args(&line(&["c", "--verbose", "d", "--no-archive", "--dry-run"])), Ok(expected.clone()));
    assert_eq!(parse_args(&line(&["c", "d", "--dry-run", "-v", "-v", "--no-archive"])), Ok(expected));
    assert_eq!(
        parse_args(&line(&["c", "--dry-run", "d"])),
        Ok(Args { dry_run: true, ..plain("c", "d") })
    );
}

#[test]
fn names_after_two_hyphens_are_names() {
    assert_eq!(parse_args(&line(&["--", "-v", "--dry-run"])), Ok(plain("-v", "--dry-run")));
    assert_eq!(
        parse_args(&line(&["-v", "c", "--", "--"])),
        Ok(Args { verbose: true, ..plain("c", "--") })
    );
}

#[test]
fn lone_hyphen_is_a_name() {
    assert_eq!(parse_args(&line(&["-", "d"])), Ok(plain("-", "d")));
    assert_eq!(parse_args(&line(&["", "d"])), Ok(plain("", "d")));
}

#[test]
fn missing_names_are_told_apart() {
    assert_eq!(parse_args(&line(&[])), Err(ArgsError::MissingConfig));
    assert_eq!(parse_args(&line(&["--verbose"])), Err(ArgsError::MissingConfig));
    assert_eq!(parse_args(&line(&["c"])), Err(ArgsError::MissingDestination));
    assert_eq!(parse_args(&line(&["c", "--dry-run", "--"])), Err(ArgsError::MissingDestination));
}

#[test]
fn unknown_option_is_refused_where_it_stands() {
    assert_eq!(parse_args(&line(&["c", "--force", "d"])), Err(ArgsError::UnknownOption { index: 1 }));
    assert_eq!(parse_args(&line(&["-vv", "c", "d"])), Err(ArgsError::UnknownOption { index: 0 }));
    assert_eq!(parse_args(&line(&["c", "d", "--verbose=yes"])), Err(ArgsError::UnknownOption { index: 2 }));
}

#[test]
fn third_name_is_refused_where_it_stands() {
    assert_eq!(parse_args(&line(&["c", "d", "e"])), Err(ArgsError::UnexpectedArgument { index: 2 }));
    assert_eq!(
        parse_args(&line(&["-v", "c", "d", "--", "-v"])),
        Err(ArgsError::UnexpectedArgument { index: 4 })
    );
}

#[test]
fn help_is_asked_for() {
    assert_eq!(parse_args(&line(&["-h"])), Err(ArgsError::Help));
    assert_eq!(parse_args(&line(&["c", "d", "--help"])), Err(ArgsError::Help));
}

#[test]
fn first_fault_decides() {
    assert_eq!(parse_args(&line(&["--bogus", "--help"])), Err(ArgsError::UnknownOption { index: 0 }));
    assert_eq!(parse_args(&line(&["--help", "--bogus"])), Err(ArgsError::Help));
    assert_eq!(parse_args(&line(&["a", "b", "c", "--bogus"])), Err(ArgsError::UnexpectedArgument { index: 2 }));
}
