//! How failures are classified, and the shape in which the outside world's
//! answers reach the library.

use vstd::prelude::*;

verus! {

/// The kinds of failure that a run can end in.
#[derive(Clone, Copy, Debug, PartialEq, Eq, Structural)]
pub enum ErrorKind {
    /// The network or the connection failed.
    Transport,
    /// The service rejected the credentials.
    Auth,
    /// A response was missing or did not have the expected shape.
    Protocol,
    /// The local bare repository or its remote could not be used.
    RepositoryState,
    /// An export job ended in its failure state.
    Job,
    /// A directory could not be created, or a file not removed or renamed.
    Filesystem,
}

/// What went wrong in an operation that the caller carried out.
#[derive(Clone, Copy, Debug, PartialEq, Eq, Structural)]
pub enum Fault {
    /// The network or the connection failed.
    Transport,
    /// The other side rejected the credentials.
    Auth,
    /// The service answered with this status.
    Status(u16),
    /// The local filesystem refused the operation.
    Filesystem,
    /// Anything else.
    Other,
}

/// The service's answer to one request.
#[derive(Clone, Debug, PartialEq, Eq)]
pub enum Reply<T> {
    /// No response arrived.
    Unreachable,
    /// A response arrived. `body` holds what could be decoded from it, and
    /// is `None` where nothing of the expected shape could.
    Answered { status: u16, body: Option<T> },
}

/// Whether a response status stands for success.
pub open spec fn is_success(status: u16) -> bool {
    200 <= status <= 299
}

/// The kind of failure that a status other than success stands for: rejected
/// credentials for 401 and 403, a failed exchange for every other.
pub open spec fn status_kind(status: u16) -> ErrorKind {
    if status == 401 || status == 403 {
        ErrorKind::Auth
    } else {
        ErrorKind::Transport
    }
}

/// The failure that a response status stands for, if any.
pub open spec fn status_failure(status: u16) -> Option<ErrorKind> {
    if is_success(status) {
        None
    } else {
        Some(status_kind(status))
    }
}

/// The kind of failure that a status other than success stands for.
pub fn status_kind_of(status: u16) -> (kind: ErrorKind)
    ensures
        kind == status_kind(status),
{
    if status == 401 || status == 403 {
        ErrorKind::Auth
    } else {
        ErrorKind::Transport
    }
}

/// Classifies a response status: `None` for success, else the kind of failure.
pub fn classify_status(status: u16) -> (failure: Option<ErrorKind>)
    ensures
        failure == status_failure(status),
{
    if 200 <= status && status <= 299 {
        None
    } else {
        Some(status_kind_of(status))
    }
}

/// The failure that a reply stands for, if any: no response is a transport
/// failure, a status other than success is classified by the status, and a
/// successful response without a usable body is a protocol failure.
pub open spec fn reply_failure<T>(reply: Reply<T>) -> Option<ErrorKind> {
    match reply {
        Reply::Unreachable => Some(ErrorKind::Transport),
        Reply::Answered { status, body } => if !is_success(status) {
            Some(status_kind(status))
        } else if body is None {
            Some(ErrorKind::Protocol)
        } else {
            None
        },
    }
}

/// Takes a reply apart: its body where it stands for success, else the kind
/// of failure.
pub fn reply_body<T>(reply: Reply<T>) -> (taken: Result<T, ErrorKind>)
    ensures
        taken is Ok ==> reply_failure(reply) is None && reply->body == Some(taken->Ok_0),
        taken is Err ==> reply_failure(reply) == Some(taken->Err_0),
{
    match reply {
        Reply::Unreachable => Err(ErrorKind::Transport),
        Reply::Answered { status, body } => {
            match classify_status(status) {
                Some(kind) => Err(kind),
                None => match body {
                    Some(body) => Ok(body),
                    None => Err(ErrorKind::Protocol),
                },
            }
        },
    }
}

} // verus!
