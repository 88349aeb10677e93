//! The filesystem requests that the engines issue, the replies they take back, and the
//! conversion of failed replies into path-annotated errors.
//!
//! An engine operation is a state machine: each step either asks for one filesystem
//! request to be carried out or finishes with a result. Whoever drives it performs the
//! request and hands the reply to the next step.

use vstd::prelude::*;

use crate::error::FpgadError;
use crate::text::{bytes_debug, bytes_to_debug};

verus! {

/// One filesystem request.
#[derive(Debug, Clone, PartialEq, Eq)]
pub enum SysfsRequest {
    /// Read a file whole, as text.
    Read { path: String },
    /// Write `data` to an existing file.
    Write { path: String, data: String },
    /// Create a directory and its missing parents.
    CreateDir { path: String },
    /// Remove an empty directory.
    RemoveDir { path: String },
    /// Whether a path exists.
    Exists { path: String },
    /// The names of the entries of a directory.
    ListDir { path: String },
}

/// The outcome of one request.
#[derive(Debug, Clone, PartialEq, Eq)]
pub enum SysfsReply {
    /// The text read.
    Contents(String),
    /// A write, creation or removal succeeded.
    Completed,
    /// Whether the path exists.
    Present(bool),
    /// The entry names of a directory.
    Entries(Vec<String>),
    /// The request failed; the operating system's error text.
    Failed(String),
}

/// What an operation asks for next.
#[derive(Debug, PartialEq, Eq)]
pub enum Step<T> {
    Request(SysfsRequest),
    Finished(Result<T, FpgadError>),
}

impl SysfsRequest {
    /// Whether carrying out the request can change the filesystem.
    pub open spec fn is_mutating(&self) -> bool {
        match self {
            SysfsRequest::Write { .. } => true,
            SysfsRequest::CreateDir { .. } => true,
            SysfsRequest::RemoveDir { .. } => true,
            _ => false,
        }
    }
}

/// The error for a reply that does not answer the request it follows.
pub fn unexpected_reply() -> (r: FpgadError)
    ensures
        r is Internal,
{
    FpgadError::Internal(String::from_str("the filesystem reply does not answer the request"))
}

/// The outcome of reading `path`: its contents, or an `IORead` error naming the path.
pub fn read_outcome(path: &str, reply: SysfsReply) -> (r: Result<String, FpgadError>)
    ensures
        match reply {
            SysfsReply::Contents(s) => r == Ok::<String, FpgadError>(s),
            SysfsReply::Failed(e) => r matches Err(FpgadError::IORead { file, e: m }) && file@
                == path@ && m@ == e@,
            _ => r matches Err(FpgadError::Internal(_)),
        },
{
    match reply {
        SysfsReply::Contents(s) => Ok(s),
        SysfsReply::Failed(e) => Err(FpgadError::IORead { file: String::from_str(path), e }),
        _ => Err(unexpected_reply()),
    }
}

/// The outcome of writing `data` to `path`.
pub fn write_outcome(path: &str, data: &str, reply: SysfsReply) -> (r: Result<(), FpgadError>)
    ensures
        match reply {
            SysfsReply::Completed => r is Ok,
            SysfsReply::Failed(e) => r matches Err(FpgadError::IOWrite { data: d, file, e: m })
                && file@ == path@ && d@ == data@ && m@ == e@,
            _ => r matches Err(FpgadError::Internal(_)),
        },
{
    match reply {
        SysfsReply::Completed => Ok(()),
        SysfsReply::Failed(e) => Err(
            FpgadError::IOWrite { data: String::from_str(data), file: String::from_str(path), e },
        ),
        _ => Err(unexpected_reply()),
    }
}

/// The outcome of creating the directory `path`.
pub fn create_outcome(path: &str, reply: SysfsReply) -> (r: Result<(), FpgadError>)
    ensures
        match reply {
            SysfsReply::Completed => r is Ok,
            SysfsReply::Failed(e) => r matches Err(FpgadError::IOCreate { file, e: m }) && file@
                == path@ && m@ == e@,
            _ => r matches Err(FpgadError::Internal(_)),
        },
{
    match reply {
        SysfsReply::Completed => Ok(()),
        SysfsReply::Failed(e) => Err(FpgadError::IOCreate { file: String::from_str(path), e }),
        _ => Err(unexpected_reply()),
    }
}

/// The outcome of removing the directory `path`.
pub fn remove_outcome(path: &str, reply: SysfsReply) -> (r: Result<(), FpgadError>)
    ensures
        match reply {
            SysfsReply::Completed => r is Ok,
            SysfsReply::Failed(e) => r matches Err(FpgadError::IODelete { file, e: m }) && file@
                == path@ && m@ == e@,
            _ => r matches Err(FpgadError::Internal(_)),
        },
{
    match reply {
        SysfsReply::Completed => Ok(()),
        SysfsReply::Failed(e) => Err(FpgadError::IODelete { file: String::from_str(path), e }),
        _ => Err(unexpected_reply()),
    }
}

/// The outcome of listing the directory `path`.
pub fn list_outcome(path: &str, reply: SysfsReply) -> (r: Result<Vec<String>, FpgadError>)
    ensures
        match reply {
            SysfsReply::Entries(v) => r == Ok::<Vec<String>, FpgadError>(v),
            SysfsReply::Failed(e) => r matches Err(FpgadError::IOReadDir { dir, e: m }) && dir@
                == path@ && m@ == e@,
            _ => r matches Err(FpgadError::Internal(_)),
        },
{
    match reply {
        SysfsReply::Entries(v) => Ok(v),
        SysfsReply::Failed(e) => Err(FpgadError::IOReadDir { dir: String::from_str(path), e }),
        _ => Err(unexpected_reply()),
    }
}

/// Whether a path exists, from the reply to an existence check. A failed check counts
/// as absence.
pub fn exists_outcome(reply: SysfsReply) -> (r: Result<bool, FpgadError>)
    ensures
        match reply {
            SysfsReply::Present(b) => r == Ok::<bool, FpgadError>(b),
            SysfsReply::Failed(_) => r == Ok::<bool, FpgadError>(false),
            _ => r matches Err(FpgadError::Internal(_)),
        },
{
    match reply {
        SysfsReply::Present(b) => Ok(b),
        SysfsReply::Failed(_) => Ok(false),
        _ => Err(unexpected_reply()),
    }
}

/// The outcome of writing the bytes `data` to `path`; the error names the bytes as
/// `{:?}` writes them.
pub fn write_bytes_outcome(path: &str, data: &Vec<u8>, reply: SysfsReply) -> (r: Result<
    (),
    FpgadError,
>)
    ensures
        match reply {
            SysfsReply::Completed => r is Ok,
            SysfsReply::Failed(e) => r matches Err(FpgadError::IOWrite { data: d, file, e: m })
                && file@ == path@ && d@ == bytes_debug(data@) && m@ == e@,
            _ => r matches Err(FpgadError::Internal(_)),
        },
{
    match reply {
        SysfsReply::Completed => Ok(()),
        SysfsReply::Failed(e) => Err(
            FpgadError::IOWrite { data: bytes_to_debug(data), file: String::from_str(path), e },
        ),
        _ => Err(unexpected_reply()),
    }
}

} // verus!
