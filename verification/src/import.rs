//! An import, from the URL of the input to the result.
//!
//! The library does not start processes. [`IDA::plan_import`] prepares the
//! run and hands out the command; the caller runs it and gives the exit status
//! to [`Invocation::conclude`]. [`IDA::import`] strings the two together
//! around a function that runs the command.

use vstd::prelude::*;
use url::Url;
use crate::backend::{Config, IDA};
use crate::command::{command_line, mode_for, needs_scratch, select_mode, CommandLine, Invocation, Mode};
use crate::error::Error;
use crate::outcome::{exit_status_failure, is_reported, ImportOutcome};
use crate::path::{extension, is_on_disk, path_extension};
use crate::target::{local_file, local_input, url_file_path, url_scheme};
use crate::text::opt_as_str;

verus! {

/// Calls `tempfile::tempdir`, which creates a directory with a fresh name
/// below the system's directory for temporary files, and `TempDir::keep`,
/// which hands out its path and leaves the directory in place. Whether the
/// directory can be created, and under which name, is up to the system, so
/// nothing is promised of the result.
#[verifier::external_body]
pub(crate) fn create_scratch_dir() -> Result<String, std::io::Error> {
    tempfile::tempdir().map(|dir| dir.keep().to_string_lossy().into_owned())
}

/// Whether `line` is a command line for importing the file `input` with a
/// backend configured as `config`: the one that [`command_line`] gives for the
/// mode of the input, be it on disk or not, and for some scratch directory.
pub open spec fn is_plan_for(config: Config, input: Seq<char>, line: CommandLine) -> bool {
    &&& config.tool_path is Some
    &&& exists|on_disk: bool, scratch: Seq<char>|
        line == #[trigger] command_line(
            config.tool_path->0,
            config,
            input,
            mode_for(on_disk, path_extension(input)),
            scratch,
        )
}

/// Whether `r` is the result of an import whose command `line` was run with
/// the outcome `ran`: a launch failure is handed on, and an exit status is
/// read as [`exit_status_failure`] says.
pub open spec fn is_result_of(
    line: CommandLine,
    ran: Result<Option<i32>, std::io::Error>,
    r: Result<ImportOutcome, Error>,
) -> bool {
    match ran {
        Err(cause) => r matches Err(Error::Launch(e)) && e == cause,
        Ok(status) => match r {
            Ok(outcome) => exit_status_failure(status) is None && outcome.spec_path()
                == line.output,
            Err(e) => exit_status_failure(status) is Some && is_reported(
                e,
                exit_status_failure(status)->0,
            ),
        },
    }
}

impl IDA {
    /// Whether a run in `mode` needs a scratch directory.
    pub fn needs_scratch(&self, mode: Mode) -> (needed: bool)
        ensures
            needed == needs_scratch(self@, mode),
    {
        self.output_path().is_none() || !mode.load_existing
    }

    /// Prepares the import of the program at `program`, up to the command
    /// that the caller is to run.
    ///
    /// A URL that addresses no local file is refused with *unsupported URL
    /// scheme*, whatever the backend; a backend without a tool then fails
    /// with *not available*. In both cases nothing is created and there is no
    /// command to run. Otherwise the mode is chosen from the input, a scratch
    /// directory is created if the run needs one, and the command is built.
    /// The scratch directory is never removed by the library.
    pub fn plan_import(&self, program: &Url) -> (r: Result<Invocation, Error>)
        ensures
            match local_input(url_scheme(*program), url_file_path(*program)) {
                None => r matches Err(Error::UnsupportedScheme(scheme)) && scheme@ == url_scheme(
                    *program,
                ),
                Some(input) => match r {
                    Ok(invocation) => is_plan_for(self@, input, invocation@),
                    Err(e) => if self@.tool_path is None {
                        e is NotAvailable
                    } else {
                        e is TempDirectory
                    },
                },
            },
    {
        let input = match local_file(program) {
            Ok(input) => input,
            Err(e) => { return Err(e); },
        };
        if !self.is_available() {
            return Err(Error::NotAvailable);
        }
        let on_disk = is_on_disk(input.as_str());
        let ext = extension(input.as_str());
        let mode = select_mode(on_disk, opt_as_str(&ext));
        let scratch = if self.needs_scratch(mode) {
            match create_scratch_dir() {
                Ok(dir) => dir,
                Err(e) => { return Err(Error::TempDirectory(e)); },
            }
        } else {
            String::new()
        };
        let r = self.command(input.as_str(), mode, scratch.as_str());
        proof {
            assert(r is Ok);
            assert(r->Ok_0@ == command_line(
                self@.tool_path->0,
                self@,
                input@,
                mode_for(on_disk, path_extension(input@)),
                scratch@,
            ));
        }
        r
    }

    /// Imports the program at `program`: prepares the run as
    /// [`IDA::plan_import`] does, has `run` start the command and wait for it,
    /// and reads the exit status as [`Invocation::conclude`] does.
    ///
    /// `run` returns the exit code of the finished process, `None` where it
    /// ended without one, or the error with which the process failed to
    /// start; that error comes back as a *launch failure*. `run` is only
    /// called once the run is prepared.
    pub fn import<R: FnOnce(&Invocation) -> Result<Option<i32>, std::io::Error>>(
        &self,
        program: &Url,
        run: R,
    ) -> (r: Result<ImportOutcome, Error>)
        requires
            forall|invocation: &Invocation| run.requires((invocation,)),
        ensures
            match local_input(url_scheme(*program), url_file_path(*program)) {
                None => r matches Err(Error::UnsupportedScheme(scheme)) && scheme@ == url_scheme(
                    *program,
                ),
                Some(input) => if self@.tool_path is None {
                    r matches Err(Error::NotAvailable)
                } else {
                    ||| r matches Err(Error::TempDirectory(_))
                    ||| (exists|invocation: Invocation, ran: Result<Option<i32>, std::io::Error>|
                        {
                            &&& is_plan_for(self@, input, invocation@)
                            &&& #[trigger] run.ensures((&invocation,), ran)
                            &&& is_result_of(invocation@, ran, r)
                        })
                },
            },
    {
        let invocation = match self.plan_import(program) {
            Ok(invocation) => invocation,
            Err(e) => { return Err(e); },
        };
        let ran = run(&invocation);
        let ghost planned = invocation;
        let r = match ran {
            Ok(status) => invocation.conclude(status),
            Err(cause) => Err(Error::Launch(cause)),
        };
        proof {
            assert(run.ensures((&planned,), ran));
            assert(is_result_of(planned@, ran, r));
        }
        r
    }
}

} // verus!
