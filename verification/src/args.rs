//! The command line of a run.
//!
//! A command line names the configuration file and the destination
//! directory, in this order, and may hold options anywhere among them:
//! `-v` or `--verbose`, `--dry-run`, `--no-archive`, and `-h` or `--help`.
//! After a lone `--` every argument is taken as a name, whatever it looks
//! like.

use vstd::prelude::*;
use vstd::string::*;
use crate::text::{same_text, text_of, texts};

verus! {

/// What a command line asks for.
#[derive(Clone, Debug, PartialEq, Eq)]
pub struct Args {
    /// Configuration file
    pub config: String,
    /// Backup directory
    pub destination: String,
    /// Enable verbose logging
    pub verbose: bool,
    /// Leave the export of archives out
    pub no_archive: bool,
    /// Print actions instead of performing them
    pub dry_run: bool,
}

/// Why a command line was not taken.
#[derive(Clone, Copy, Debug, PartialEq, Eq)]
pub enum ArgsError {
    /// The command line asks how it is to be written.
    Help,
    /// The argument at `index` looks like an option and is none.
    UnknownOption { index: usize },
    /// The argument at `index` is a name, and both names have been given.
    UnexpectedArgument { index: usize },
    /// The command line names no configuration file.
    MissingConfig,
    /// The command line names no destination directory.
    MissingDestination,
}

/// What a command line asks for, by the characters of its names.
pub struct ArgsView {
    pub config: Seq<char>,
    pub destination: Seq<char>,
    pub verbose: bool,
    pub no_archive: bool,
    pub dry_run: bool,
}

impl View for Args {
    type V = ArgsView;

    open spec fn view(&self) -> ArgsView {
        ArgsView {
            config: self.config@,
            destination: self.destination@,
            verbose: self.verbose,
            no_archive: self.no_archive,
            dry_run: self.dry_run,
        }
    }
}

/// What has been read of a command line.
pub struct Scan {
    pub config: Option<Seq<char>>,
    pub destination: Option<Seq<char>>,
    pub verbose: bool,
    pub no_archive: bool,
    pub dry_run: bool,
    /// Whether a lone `--` has been read.
    pub names_only: bool,
}

/// Whether an argument looks like an option: a hyphen and at least one
/// character more.
pub open spec fn looks_like_option(arg: Seq<char>) -> bool {
    arg.len() >= 2 && arg[0] == '-'
}

/// What has been read once the argument at `index` has been read too, or
/// why the command line is not taken.
pub open spec fn scan_one(scan: Scan, arg: Seq<char>, index: int) -> Result<Scan, ArgsError> {
    if !scan.names_only && arg == "--"@ {
        Ok(Scan { names_only: true, ..scan })
    } else if !scan.names_only && looks_like_option(arg) {
        if arg == "-v"@ || arg == "--verbose"@ {
            Ok(Scan { verbose: true, ..scan })
        } else if arg == "--dry-run"@ {
            Ok(Scan { dry_run: true, ..scan })
        } else if arg == "--no-archive"@ {
            Ok(Scan { no_archive: true, ..scan })
        } else if arg == "-h"@ || arg == "--help"@ {
            Err(ArgsError::Help)
        } else {
            Err(ArgsError::UnknownOption { index: index as usize })
        }
    } else if scan.config is None {
        Ok(Scan { config: Some(arg), ..scan })
    } else if scan.destination is None {
        Ok(Scan { destination: Some(arg), ..scan })
    } else {
        Err(ArgsError::UnexpectedArgument { index: index as usize })
    }
}

/// What has been read of a command line before any argument.
pub open spec fn scan_none() -> Scan {
    Scan {
        config: None,
        destination: None,
        verbose: false,
        no_archive: false,
        dry_run: false,
        names_only: false,
    }
}

/// What has been read once all arguments have been, from the first to the
/// last, or why the command line is not taken: the first argument that is
/// not decides.
pub open spec fn scan_all(args: Seq<Seq<char>>) -> Result<Scan, ArgsError>
    decreases args.len(),
{
    if args.len() == 0 {
        Ok(scan_none())
    } else {
        match scan_all(args.drop_last()) {
            Ok(scan) => scan_one(scan, args.last(), args.len() - 1),
            Err(error) => Err(error),
        }
    }
}

/// What a command line asks for, or why it is not taken. A command line
/// whose arguments are all taken must name both the configuration file and
/// the destination directory.
pub open spec fn parsed(args: Seq<Seq<char>>) -> Result<ArgsView, ArgsError> {
    match scan_all(args) {
        Err(error) => Err(error),
        Ok(scan) => if scan.config is None {
            Err(ArgsError::MissingConfig)
        } else if scan.destination is None {
            Err(ArgsError::MissingDestination)
        } else {
            Ok(
                ArgsView {
                    config: scan.config->0,
                    destination: scan.destination->0,
                    verbose: scan.verbose,
                    no_archive: scan.no_archive,
                    dry_run: scan.dry_run,
                },
            )
        },
    }
}

/// A reading of a command line by its characters.
pub open spec fn parsed_view(parsed: Result<Args, ArgsError>) -> Result<ArgsView, ArgsError> {
    match parsed {
        Ok(args) => Ok(args@),
        Err(error) => Err(error),
    }
}

fn is_option(arg: &str) -> (option: bool)
    ensures
        option == looks_like_option(arg@),
{
    arg.unicode_len() >= 2 && arg.get_char(0) == '-'
}

/// Reads a command line: the arguments of the program, without its name.
pub fn parse_args(args: &Vec<String>) -> (read: Result<Args, ArgsError>)
    ensures
        parsed_view(read) == parsed(texts(args@)),
{
    let ghost all = texts(args@);
    let mut config: Option<String> = None;
    let mut destination: Option<String> = None;
    let mut verbose = false;
    let mut no_archive = false;
    let mut dry_run = false;
    let mut names_only = false;
    let mut i: usize = 0;
    while i < args.len()
        invariant
            i <= args.len(),
            all == texts(args@),
            scan_all(all.take(i as int)) == Ok::<Scan, ArgsError>(
                Scan {
                    config: text_of(config),
                    destination: text_of(destination),
                    verbose,
                    no_archive,
                    dry_run,
                    names_only,
                },
            ),
        decreases args.len() - i,
    {
        let arg = args[i].as_str();
        proof {
            assert(all.take(i + 1).drop_last() =~= all.take(i as int));
        }
        if !names_only && same_text(arg, "--") {
            names_only = true;
        } else if !names_only && is_option(arg) {
            if same_text(arg, "-v") || same_text(arg, "--verbose") {
                verbose = true;
            } else if same_text(arg, "--dry-run") {
                dry_run = true;
            } else if same_text(arg, "--no-archive") {
                no_archive = true;
            } else if same_text(arg, "-h") || same_text(arg, "--help") {
                proof {
                    lemma_scan_fails(all, i + 1);
                }
                return Err(ArgsError::Help);
            } else {
                proof {
                    lemma_scan_fails(all, i + 1);
                }
                return Err(ArgsError::UnknownOption { index: i });
            }
        } else if config.is_none() {
            config = Some(String::from_str(arg));
        } else if destination.is_none() {
            destination = Some(String::from_str(arg));
        } else {
            proof {
                lemma_scan_fails(all, i + 1);
            }
            return Err(ArgsError::UnexpectedArgument { index: i });
        }
        i += 1;
    }
    proof {
        assert(all.take(i as int) =~= all);
    }
    match (config, destination) {
        (None, _) => Err(ArgsError::MissingConfig),
        (Some(_), None) => Err(ArgsError::MissingDestination),
        (Some(config), Some(destination)) => Ok(
            Args { config, destination, verbose, no_archive, dry_run },
        ),
    }
}

/// Once the reading of a command line has failed at an argument, the
/// arguments behind it change nothing.
proof fn lemma_scan_fails(args: Seq<Seq<char>>, n: int)
    requires
        0 <= n <= args.len(),
        scan_all(args.take(n)) is Err,
    ensures
        scan_all(args) == scan_all(args.take(n)),
    decreases args.len() - n,
{
    if n == args.len() {
        assert(args.take(n) =~= args);
    } else {
        assert(args.take(n + 1).drop_last() =~= args.take(n));
        lemma_scan_fails(args, n + 1);
    }
}

} // verus!
