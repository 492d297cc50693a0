//! Reading the tool's exit status.

use vstd::prelude::*;
use crate::command::Invocation;
use crate::error::{Error, ErrorKind};

verus! {

/// What a successful import leaves behind.
#[derive(Debug, Clone, PartialEq, Eq)]
pub enum ImportOutcome {
    /// The database was written to the file at this path.
    File(String),
}

impl ImportOutcome {
    /// The path of the database.
    pub open spec fn spec_path(&self) -> Seq<char> {
        match self {
            ImportOutcome::File(path) => path@,
        }
    }

    /// The path of the database.
    pub fn path(&self) -> (path: &str)
        ensures
            path@ == self.spec_path(),
    {
        match self {
            ImportOutcome::File(path) => path.as_str(),
        }
    }
}

/// The failure that an exit status stands for; `None` for the one status that
/// reports success. `status` is `None` where the process ended without an exit
/// code, as when a signal ended it.
pub open spec fn exit_status_failure(status: Option<i32>) -> Option<ErrorKind> {
    match status {
        Some(code) => if code == 100 {
            None
        } else if code == 101 {
            Some(ErrorKind::InputOutput)
        } else if code == 102 {
            Some(ErrorKind::Import)
        } else if code == 103 {
            Some(ErrorKind::Unsupported)
        } else if code == 104 {
            Some(ErrorKind::Rebase)
        } else {
            Some(ErrorKind::Failure)
        },
        None => Some(ErrorKind::Failure),
    }
}

/// Whether `e` is the failure of kind `kind`, for the kinds that an exit
/// status can stand for: these carry nothing besides their kind.
pub open spec fn is_reported(e: Error, kind: ErrorKind) -> bool {
    match kind {
        ErrorKind::InputOutput => e is InputOutput,
        ErrorKind::Import => e is Import,
        ErrorKind::Unsupported => e is Unsupported,
        ErrorKind::Rebase => e is Rebase,
        ErrorKind::Failure => e is Failure,
        _ => false,
    }
}

impl Invocation {
    /// Turns the exit status of the finished process into the result of the
    /// import: the output path for status 100, and otherwise the failure that
    /// [`exit_status_failure`] gives for the status.
    pub fn conclude(self, status: Option<i32>) -> (r: Result<ImportOutcome, Error>)
        ensures
            match r {
                Ok(outcome) => exit_status_failure(status) is None && outcome.spec_path()
                    == self@.output,
                Err(e) => exit_status_failure(status) is Some && is_reported(
                    e,
                    exit_status_failure(status)->0,
                ),
            },
    {
        match status {
            Some(100) => Ok(ImportOutcome::File(self.output)),
            Some(101) => Err(Error::InputOutput),
            Some(102) => Err(Error::Import),
            Some(103) => Err(Error::Unsupported),
            Some(104) => Err(Error::Rebase),
            _ => Err(Error::Failure),
        }
    }
}

/// The exit statuses 101 to 104 stand for four different failures, none of
/// them the generic one; 100 alone stands for success; every other status, and
/// the absence of one, stands for the generic failure.
pub proof fn lemma_exit_status_table(a: i32, b: i32, status: Option<i32>)
    ensures
        101 <= a <= 104 && 101 <= b <= 104 && a != b ==> exit_status_failure(Some(a))
            != exit_status_failure(Some(b)),
        101 <= a <= 104 ==> exit_status_failure(Some(a)) is Some && exit_status_failure(Some(a))
            != Some(ErrorKind::Failure),
        exit_status_failure(Some(101)) == Some(ErrorKind::InputOutput),
        exit_status_failure(Some(102)) == Some(ErrorKind::Import),
        exit_status_failure(Some(103)) == Some(ErrorKind::Unsupported),
        exit_status_failure(Some(104)) == Some(ErrorKind::Rebase),
        exit_status_failure(status) is None <==> status == Some(100i32),
        status is None || !(100 <= status->0 <= 104) ==> exit_status_failure(status) == Some(
            ErrorKind::Failure,
        ),
{
}

} // verus!
