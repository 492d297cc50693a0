//! The failures an import attempt can end in.

use vstd::prelude::*;

verus! {

/// `std::io::Error`, as reported by the operating system when a process could
/// not be started or a directory could not be created. Carried through unread.
#[verifier::external_type_specification]
#[verifier::external_body]
pub struct ExIoError(std::io::Error);

/// Why a lookup of an executable found nothing.
#[derive(Clone, Copy, Debug, PartialEq, Eq, Structural, Hash)]
pub enum LookupError {
    BadAbsolutePath,
    BadRelativePath,
    CannotFindBinaryPath,
    CannotGetCurrentDir,
    CannotCanonicalize,
}

/// The category of a failure, without its payload.
#[derive(Clone, Copy, Debug, PartialEq, Eq, Structural, Hash)]
pub enum ErrorKind {
    NotAvailable,
    InvalidPath,
    Launch,
    InputOutput,
    Import,
    Unsupported,
    Rebase,
    Failure,
    TempDirectory,
    UnsupportedScheme,
}

/// Why an import attempt, or the construction of a backend, failed.
#[derive(Debug)]
pub enum Error {
    /// No usable installation of the tool could be found.
    NotAvailable,
    /// A directory was named explicitly, and the tool is not in it.
    InvalidPath(LookupError),
    /// The operating system could not start the tool.
    Launch(std::io::Error),
    /// The tool reported an input/output error.
    InputOutput,
    /// The tool reported an error while importing.
    Import,
    /// The tool does not support the type of the input file.
    Unsupported,
    /// The tool failed to rebase the program.
    Rebase,
    /// The tool ended in a way that is not classified any further.
    Failure,
    /// The scratch directory could not be created.
    TempDirectory(std::io::Error),
    /// The input is not addressed by a local-file URL; holds its scheme.
    UnsupportedScheme(String),
}

impl Error {
    /// The category of this failure.
    pub open spec fn spec_kind(&self) -> ErrorKind {
        match self {
            Error::NotAvailable => ErrorKind::NotAvailable,
            Error::InvalidPath(_) => ErrorKind::InvalidPath,
            Error::Launch(_) => ErrorKind::Launch,
            Error::InputOutput => ErrorKind::InputOutput,
            Error::Import => ErrorKind::Import,
            Error::Unsupported => ErrorKind::Unsupported,
            Error::Rebase => ErrorKind::Rebase,
            Error::Failure => ErrorKind::Failure,
            Error::TempDirectory(_) => ErrorKind::TempDirectory,
            Error::UnsupportedScheme(_) => ErrorKind::UnsupportedScheme,
        }
    }

    /// The category of this failure.
    #[verifier::when_used_as_spec(spec_kind)]
    pub fn kind(&self) -> (k: ErrorKind)
        ensures
            k == self.spec_kind(),
    {
        match self {
            Error::NotAvailable => ErrorKind::NotAvailable,
            Error::InvalidPath(_) => ErrorKind::InvalidPath,
            Error::Launch(_) => ErrorKind::Launch,
            Error::InputOutput => ErrorKind::InputOutput,
            Error::Import => ErrorKind::Import,
            Error::Unsupported => ErrorKind::Unsupported,
            Error::Rebase => ErrorKind::Rebase,
            Error::Failure => ErrorKind::Failure,
            Error::TempDirectory(_) => ErrorKind::TempDirectory,
            Error::UnsupportedScheme(_) => ErrorKind::UnsupportedScheme,
        }
    }
}

} // verus!
