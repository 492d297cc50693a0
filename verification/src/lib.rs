//! Import backend that drives IDA Pro as a headless batch process.
//!
//! The backend locates the tool, decides whether it is the preferred importer
//! for a given input, builds the command line of a batch run and reads the
//! tool's exit status. Starting the process itself is left to the caller: the
//! library hands out an [`Invocation`] and takes the exit status back.

pub mod backend;
pub mod command;
pub mod discovery;
pub mod error;
pub mod import;
pub mod outcome;
pub mod path;
pub mod target;
pub mod text;

pub use backend::{Config, IDA};
pub use command::{CommandLine, Invocation, Mode};
pub use discovery::{Alias, Hint, Probe, Scope};
pub use error::{Error, ErrorKind, LookupError};
pub use outcome::ImportOutcome;
