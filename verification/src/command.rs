//! The command line of a batch run, and the mode it runs in.

use vstd::prelude::*;
use crate::backend::{Config, IDA};
use crate::error::Error;
use crate::path::{join, path_join, path_with_file_name, with_file_name};
use crate::text::{concat, opt_str_view};

verus! {

/// How the tool is asked to treat its input.
#[derive(Clone, Copy, Debug, PartialEq, Eq, Structural, Hash)]
pub struct Mode {
    /// The input is a saved database that is on disk: it is opened in place.
    pub load_existing: bool,
    /// The saved database is of the older kind, which only the 32-bit build of
    /// the tool opens.
    pub force_32bit: bool,
}

/// Whether `extension` is one of the two extensions of a saved database.
pub open spec fn is_saved_database(extension: Option<Seq<char>>) -> bool {
    extension == Some("i64"@) || extension == Some("idb"@)
}

/// Whether `extension` is the extension of the older kind of saved database.
pub open spec fn is_legacy_database(extension: Option<Seq<char>>) -> bool {
    extension == Some("idb"@)
}

/// The mode for an input with the given extension, which is or is not on disk.
pub open spec fn mode_for(on_disk: bool, extension: Option<Seq<char>>) -> Mode {
    Mode {
        load_existing: on_disk && is_saved_database(extension),
        force_32bit: on_disk && is_legacy_database(extension),
    }
}

/// Whether `extension` marks a saved database.
pub fn has_saved_database_extension(extension: Option<&str>) -> (saved: bool)
    ensures
        saved == is_saved_database(opt_str_view(extension)),
{
    match extension {
        Some(ext) => ext.eq("i64") || ext.eq("idb"),
        None => false,
    }
}

/// Chooses the mode of a run from what is known of the input: whether it is on
/// disk, and its extension.
pub fn select_mode(on_disk: bool, extension: Option<&str>) -> (mode: Mode)
    ensures
        mode == mode_for(on_disk, opt_str_view(extension)),
{
    let legacy = match extension {
        Some(ext) => ext.eq("idb"),
        None => false,
    };
    Mode {
        load_existing: on_disk && has_saved_database_extension(extension),
        force_32bit: on_disk && legacy,
    }
}

/// An input on disk with the newer extension is loaded in place by the regular
/// build; one with the older extension is loaded in place by the 32-bit build;
/// any other input is imported afresh. An input that is not on disk is always
/// imported afresh.
pub proof fn lemma_mode_by_extension(on_disk: bool, extension: Option<Seq<char>>)
    ensures
        on_disk && extension == Some("i64"@) ==> mode_for(on_disk, extension) == (Mode {
            load_existing: true,
            force_32bit: false,
        }),
        on_disk && extension == Some("idb"@) ==> mode_for(on_disk, extension) == (Mode {
            load_existing: true,
            force_32bit: true,
        }),
        extension != Some("i64"@) && extension != Some("idb"@) ==> mode_for(on_disk, extension)
            == (Mode { load_existing: false, force_32bit: false }),
        !on_disk ==> mode_for(on_disk, extension) == (Mode {
            load_existing: false,
            force_32bit: false,
        }),
        mode_for(on_disk, extension).force_32bit ==> mode_for(on_disk, extension).load_existing,
{
    reveal_strlit("i64");
    reveal_strlit("idb");
    assert("i64"@ != "idb"@) by {
        assert("i64"@[1] == '6');
        assert("idb"@[1] == 'd');
    }
}

/// A command for the caller to run: the program to start and its arguments,
/// with the path at which the tool will leave the database.
#[derive(Debug, Clone, PartialEq, Eq)]
pub struct Invocation {
    /// The program to start.
    pub program: String,
    /// Its arguments, in order.
    pub args: Vec<String>,
    /// Where the database is once the tool has succeeded.
    pub output: String,
}

/// An [`Invocation`] as contracts see it.
pub struct CommandLine {
    pub program: Seq<char>,
    pub args: Seq<Seq<char>>,
    pub output: Seq<char>,
}

impl View for Invocation {
    type V = CommandLine;

    open spec fn view(&self) -> CommandLine {
        CommandLine {
            program: self.program@,
            args: self.args.deep_view(),
            output: self.output@,
        }
    }
}

/// How a flag is written on the command line.
pub open spec fn flag_text(flag: bool) -> Seq<char> {
    if flag {
        "true"@
    } else {
        "false"@
    }
}

/// The executable of the tool that opens the input: the one that was found,
/// or, for the older kind of saved database, the 32-bit build beside it.
pub open spec fn tool_for(tool: Seq<char>, compat_layer: bool, mode: Mode) -> Seq<char> {
    if mode.force_32bit {
        path_with_file_name(
            tool,
            if compat_layer {
                "idat.exe"@
            } else {
                "idat"@
            },
        )
    } else {
        tool
    }
}

/// Whether a run in `mode` writes anything for which the caller named no
/// place, so that a scratch directory is needed.
pub open spec fn needs_scratch(config: Config, mode: Mode) -> bool {
    config.output_path is None || !mode.load_existing
}

/// Where the tool is asked to write the database.
pub open spec fn output_for(config: Config, scratch: Seq<char>) -> Seq<char> {
    match config.output_path {
        Some(path) => path,
        None => path_join(scratch, "fugue-temp-export.fdb"@),
    }
}

/// The command line of a batch run on `input`.
///
/// The tool is started directly, or as the first argument of `wine`. The
/// arguments that follow select batch mode, name the working database of a
/// fresh import (in the scratch directory), name the output database, say
/// whether it may be overwritten, and end with the input.
pub open spec fn command_line(
    tool: Seq<char>,
    config: Config,
    input: Seq<char>,
    mode: Mode,
    scratch: Seq<char>,
) -> CommandLine {
    let executable = tool_for(tool, config.compat_layer, mode);
    let output = output_for(config, scratch);
    let launched = if config.compat_layer {
        seq![executable]
    } else {
        seq![]
    };
    let working = if mode.load_existing {
        seq![]
    } else {
        seq!["-o"@ + path_join(scratch, "fugue-import-tmp.ida"@)]
    };
    CommandLine {
        program: if config.compat_layer {
            "wine"@
        } else {
            executable
        },
        args: launched + seq!["-A"@] + working + seq![
            "-OFugueOutput:"@ + output,
            "-OFugueForceOverwrite:"@ + flag_text(config.overwrite),
        ] + seq![input],
        output,
    }
}

impl IDA {
    /// Builds the command line of a batch run on the file `input` in `mode`.
    ///
    /// `scratch` is the directory for what the caller named no place for; it
    /// is only read where [`needs_scratch`] holds. Fails, with *not
    /// available*, exactly when the backend has no tool.
    pub fn command(&self, input: &str, mode: Mode, scratch: &str) -> (r: Result<Invocation, Error>)
        ensures
            match r {
                Ok(invocation) => self@.tool_path is Some && invocation@ == command_line(
                    self@.tool_path->0,
                    self@,
                    input@,
                    mode,
                    scratch@,
                ),
                Err(e) => self@.tool_path is None && e is NotAvailable,
            },
    {
        let tool = match self.tool_path() {
            Some(tool) => tool,
            None => { return Err(Error::NotAvailable); },
        };
        let compat_layer = self.compat_layer();
        let executable = if mode.force_32bit {
            with_file_name(
                tool,
                if compat_layer {
                    "idat.exe"
                } else {
                    "idat"
                },
            )
        } else {
            tool.to_owned()
        };
        let output = match self.output_path() {
            Some(path) => path.to_owned(),
            None => join(scratch, "fugue-temp-export.fdb"),
        };
        let mut args: Vec<String> = Vec::new();
        let program = if compat_layer {
            args.push(executable);
            "wine".to_owned()
        } else {
            executable
        };
        args.push("-A".to_owned());
        if !mode.load_existing {
            let working = join(scratch, "fugue-import-tmp.ida");
            args.push(concat("-o", working.as_str()));
        }
        args.push(concat("-OFugueOutput:", output.as_str()));
        args.push(
            concat(
                "-OFugueForceOverwrite:",
                if self.overwrite() {
                    "true"
                } else {
                    "false"
                },
            ),
        );
        args.push(input.to_owned());
        let invocation = Invocation { program, args, output };
        proof {
            let expected = command_line(self@.tool_path->0, self@, input@, mode, scratch@);
            assert(invocation@.args =~= expected.args);
        }
        Ok(invocation)
    }
}

} // verus!
