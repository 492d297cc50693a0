//! The configured backend.

use vstd::prelude::*;

verus! {

/// What a backend is configured with, as contracts see it.
pub struct Config {
    /// Where the tool's executable is; `None` when no tool was found.
    pub tool_path: Option<Seq<char>>,
    /// Where the produced database is to be written; `None` asks for a
    /// scratch location.
    pub output_path: Option<Seq<char>>,
    /// Whether a file that already is at `output_path` may be replaced.
    pub overwrite: bool,
    /// Whether the executable is a Windows build, to be started through the
    /// compatibility launcher.
    pub compat_layer: bool,
}

impl Config {
    /// The configuration of a backend for which no tool was found.
    pub open spec fn unavailable() -> Config {
        Config { tool_path: None, output_path: None, overwrite: false, compat_layer: false }
    }

    /// The configuration of a backend right after the tool was found at
    /// `tool_path`.
    pub open spec fn located(tool_path: Seq<char>, compat_layer: bool) -> Config {
        Config { tool_path: Some(tool_path), output_path: None, overwrite: false, compat_layer }
    }

    /// This configuration with the output path and the overwrite flag replaced.
    pub open spec fn with_export(self, path: Seq<char>, overwrite: bool) -> Config {
        Config { output_path: Some(path), overwrite, ..self }
    }
}

/// A backend that imports programs with IDA Pro.
#[derive(Debug, Clone, PartialEq, Eq, PartialOrd, Ord, Hash)]
pub struct IDA {
    ida_path: Option<String>,
    fdb_path: Option<String>,
    overwrite: bool,
    wine: bool,
}

impl View for IDA {
    type V = Config;

    closed spec fn view(&self) -> Config {
        Config {
            tool_path: match self.ida_path {
                Some(p) => Some(p@),
                None => None,
            },
            output_path: match self.fdb_path {
                Some(p) => Some(p@),
                None => None,
            },
            overwrite: self.overwrite,
            compat_layer: self.wine,
        }
    }
}

impl Default for IDA {
    /// A backend without a tool: every import it is asked for fails.
    fn default() -> (ida: IDA)
        ensures
            ida@ == Config::unavailable(),
    {
        IDA { ida_path: None, fdb_path: None, overwrite: false, wine: false }
    }
}

impl IDA {
    /// A backend for the executable at `tool_path`, with no output path set.
    pub fn located(tool_path: String, compat_layer: bool) -> (ida: IDA)
        ensures
            ida@ == Config::located(tool_path@, compat_layer),
    {
        IDA { ida_path: Some(tool_path), fdb_path: None, overwrite: false, wine: compat_layer }
    }

    /// Asks for the database to be written to `path`, and says whether a file
    /// that is already there may be replaced. An earlier choice is forgotten.
    pub fn export_path(self, path: &str, overwrite: bool) -> (ida: IDA)
        ensures
            ida@ == self@.with_export(path@, overwrite),
    {
        IDA { ida_path: self.ida_path, fdb_path: Some(path.to_owned()), overwrite, wine: self.wine }
    }

    /// The name under which the backend is registered.
    pub fn name(&self) -> (name: &'static str)
        ensures
            name@ == "fugue-idapro"@,
    {
        "fugue-idapro"
    }

    /// Whether a tool was found, so that imports can be attempted.
    pub fn is_available(&self) -> (available: bool)
        ensures
            available == self@.tool_path is Some,
    {
        self.ida_path.is_some()
    }

    /// Where the tool's executable is, if one was found.
    pub fn tool_path(&self) -> (path: Option<&str>)
        ensures
            path is Some == self@.tool_path is Some,
            path matches Some(p) ==> p@ == self@.tool_path->0,
    {
        match &self.ida_path {
            Some(p) => Some(p.as_str()),
            None => None,
        }
    }

    /// Where the database is to be written, if a place was asked for.
    pub fn output_path(&self) -> (path: Option<&str>)
        ensures
            path is Some == self@.output_path is Some,
            path matches Some(p) ==> p@ == self@.output_path->0,
    {
        match &self.fdb_path {
            Some(p) => Some(p.as_str()),
            None => None,
        }
    }

    /// Whether an existing file at the output path may be replaced.
    pub fn overwrite(&self) -> (overwrite: bool)
        ensures
            overwrite == self@.overwrite,
    {
        self.overwrite
    }

    /// Whether the tool is started through the compatibility launcher.
    pub fn compat_layer(&self) -> (compat_layer: bool)
        ensures
            compat_layer == self@.compat_layer,
    {
        self.wine
    }
}

/// Setting the output path twice leaves only the second choice in effect:
/// the first path and the first overwrite flag leave no trace.
pub proof fn lemma_export_path_last_wins(
    config: Config,
    first: Seq<char>,
    first_overwrite: bool,
    second: Seq<char>,
    second_overwrite: bool,
)
    ensures
        config.with_export(first, first_overwrite).with_export(second, second_overwrite)
            == config.with_export(second, second_overwrite),
        config.with_export(second, second_overwrite).output_path == Some(second),
        config.with_export(second, second_overwrite).overwrite == second_overwrite,
        config.with_export(second, second_overwrite).tool_path == config.tool_path,
        config.with_export(second, second_overwrite).compat_layer == config.compat_layer,
{
}

} // verus!
