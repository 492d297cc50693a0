//! Finding the tool's executable.
//!
//! The tool is looked for under two names, as a native build and as a Windows
//! build, in an installation directory or on the system search path. The
//! order of these lookups is a value of its own, [`search_order`], and the
//! search returns the first hit in that order.

use vstd::prelude::*;
use crate::backend::{Config, IDA};
use crate::error::{Error, LookupError};

verus! {

/// Where an executable is looked for.
#[derive(Clone, Copy, Debug, PartialEq, Eq, Structural, Hash)]
pub enum Scope {
    /// In the installation directory that the caller or the environment named.
    InstallRoot,
    /// In the directories of the system search path.
    SearchPath,
}

/// A file name under which the tool's executable goes.
#[derive(Clone, Copy, Debug, PartialEq, Eq, Structural, Hash)]
pub enum Alias {
    Idat64,
    Ida64,
    Idat64Exe,
    Ida64Exe,
}

impl Alias {
    /// The file name.
    pub open spec fn spec_file_name(self) -> Seq<char> {
        match self {
            Alias::Idat64 => "idat64"@,
            Alias::Ida64 => "ida64"@,
            Alias::Idat64Exe => "idat64.exe"@,
            Alias::Ida64Exe => "ida64.exe"@,
        }
    }

    /// The file name.
    pub fn file_name(self) -> (name: &'static str)
        ensures
            name@ == self.spec_file_name(),
    {
        match self {
            Alias::Idat64 => "idat64",
            Alias::Ida64 => "ida64",
            Alias::Idat64Exe => "idat64.exe",
            Alias::Ida64Exe => "ida64.exe",
        }
    }

    /// Whether the name is that of a Windows build, which runs under the
    /// compatibility layer.
    pub open spec fn spec_is_windows_build(self) -> bool {
        self is Idat64Exe || self is Ida64Exe
    }

    /// Whether the name is that of a Windows build, which runs under the
    /// compatibility layer.
    #[verifier::when_used_as_spec(spec_is_windows_build)]
    pub fn is_windows_build(self) -> (windows: bool)
        ensures
            windows == self.spec_is_windows_build(),
    {
        match self {
            Alias::Idat64 => false,
            Alias::Ida64 => false,
            Alias::Idat64Exe => true,
            Alias::Ida64Exe => true,
        }
    }
}

/// One lookup: a file name and the place to look for it.
#[derive(Clone, Copy, Debug, PartialEq, Eq, Structural, Hash)]
pub struct Probe {
    pub scope: Scope,
    pub alias: Alias,
}

/// What the caller knows of the installation.
#[derive(Clone, Copy, Debug, PartialEq, Eq, Structural, Hash)]
pub enum Hint {
    /// Nothing: only the system search path is searched.
    Ambient,
    /// An installation directory that the caller named: nothing else is
    /// searched.
    Root,
    /// An installation directory that the environment named: it is searched
    /// before the system search path.
    Override,
}

/// The two lookups of a native build in `scope`.
pub open spec fn native_probes(scope: Scope) -> Seq<Probe> {
    seq![Probe { scope, alias: Alias::Idat64 }, Probe { scope, alias: Alias::Ida64 }]
}

/// The two lookups of a Windows build in `scope`.
pub open spec fn windows_probes(scope: Scope) -> Seq<Probe> {
    seq![Probe { scope, alias: Alias::Idat64Exe }, Probe { scope, alias: Alias::Ida64Exe }]
}

/// The lookups of a search, in the order in which they are made: native
/// builds before Windows builds, and for either kind the installation
/// directory before the system search path.
pub open spec fn search_order(hint: Hint) -> Seq<Probe> {
    match hint {
        Hint::Ambient => native_probes(Scope::SearchPath) + windows_probes(Scope::SearchPath),
        Hint::Root => native_probes(Scope::InstallRoot) + windows_probes(Scope::InstallRoot),
        Hint::Override => native_probes(Scope::InstallRoot) + native_probes(Scope::SearchPath)
            + windows_probes(Scope::InstallRoot) + windows_probes(Scope::SearchPath),
    }
}

/// In every search a lookup of a native build comes before every lookup of a
/// Windows build; among the lookups of one kind of build, those in the
/// installation directory come before those on the system search path; and in
/// one place, among builds of one kind, the first alias comes before the
/// second.
pub proof fn lemma_search_order(hint: Hint, i: int, j: int)
    requires
        0 <= i < j < search_order(hint).len(),
    ensures
        search_order(hint)[i].alias.is_windows_build() ==> search_order(
            hint,
        )[j].alias.is_windows_build(),
        search_order(hint)[i].alias.is_windows_build() == search_order(
            hint,
        )[j].alias.is_windows_build() && search_order(hint)[i].scope is SearchPath
            ==> search_order(hint)[j].scope is SearchPath,
        search_order(hint)[i].scope == search_order(hint)[j].scope && search_order(
            hint,
        )[i].alias.is_windows_build() == search_order(hint)[j].alias.is_windows_build() ==> (
        search_order(hint)[i].alias is Idat64 || search_order(hint)[i].alias is Idat64Exe),
        search_order(hint)[i] != search_order(hint)[j],
{
}

/// A search only looks where the hint allows: on the system search path alone
/// without a hint, in the installation directory alone where the caller named
/// one.
pub proof fn lemma_search_scope(hint: Hint, i: int)
    requires
        0 <= i < search_order(hint).len(),
    ensures
        hint is Ambient ==> search_order(hint)[i].scope is SearchPath,
        hint is Root ==> search_order(hint)[i].scope is InstallRoot,
{
}

/// The lookups of a search, in order.
pub fn probes(hint: Hint) -> (order: Vec<Probe>)
    ensures
        order@ == search_order(hint),
{
    let root = Scope::InstallRoot;
    let path = Scope::SearchPath;
    let order = match hint {
        Hint::Ambient => vec![
            Probe { scope: path, alias: Alias::Idat64 },
            Probe { scope: path, alias: Alias::Ida64 },
            Probe { scope: path, alias: Alias::Idat64Exe },
            Probe { scope: path, alias: Alias::Ida64Exe },
        ],
        Hint::Root => vec![
            Probe { scope: root, alias: Alias::Idat64 },
            Probe { scope: root, alias: Alias::Ida64 },
            Probe { scope: root, alias: Alias::Idat64Exe },
            Probe { scope: root, alias: Alias::Ida64Exe },
        ],
        Hint::Override => vec![
            Probe { scope: root, alias: Alias::Idat64 },
            Probe { scope: root, alias: Alias::Ida64 },
            Probe { scope: path, alias: Alias::Idat64 },
            Probe { scope: path, alias: Alias::Ida64 },
            Probe { scope: root, alias: Alias::Idat64Exe },
            Probe { scope: root, alias: Alias::Ida64Exe },
            Probe { scope: path, alias: Alias::Idat64Exe },
            Probe { scope: path, alias: Alias::Ida64Exe },
        ],
    };
    assert(order@ =~= search_order(hint));
    order
}

/// Calls `which::which`, which looks for an executable file named `name` in
/// the directories of the system search path, and writes the path it found as
/// text. What it finds depends on the environment and on what is on disk, so
/// nothing is promised of the result.
#[verifier::external_body]
pub(crate) fn find_on_search_path(name: &str) -> Result<String, LookupError> {
    which::which(name).map(|p| p.to_string_lossy().into_owned()).map_err(
        |e| match e {
            which::Error::BadAbsolutePath => LookupError::BadAbsolutePath,
            which::Error::BadRelativePath => LookupError::BadRelativePath,
            which::Error::CannotFindBinaryPath => LookupError::CannotFindBinaryPath,
            which::Error::CannotGetCurrentDir => LookupError::CannotGetCurrentDir,
            which::Error::CannotCanonicalize => LookupError::CannotCanonicalize,
        },
    )
}

/// Calls `which::which_in`, which looks for an executable file named `name`
/// in the directory `root`, and writes the path it found as text. What it
/// finds depends on what is on disk, so nothing is promised of the result.
#[verifier::external_body]
pub(crate) fn find_in_root(name: &str, root: &str) -> Result<String, LookupError> {
    which::which_in(name, Some(root), ".").map(|p| p.to_string_lossy().into_owned()).map_err(
        |e| match e {
            which::Error::BadAbsolutePath => LookupError::BadAbsolutePath,
            which::Error::BadRelativePath => LookupError::BadRelativePath,
            which::Error::CannotFindBinaryPath => LookupError::CannotFindBinaryPath,
            which::Error::CannotGetCurrentDir => LookupError::CannotGetCurrentDir,
            which::Error::CannotCanonicalize => LookupError::CannotCanonicalize,
        },
    )
}

/// Whether `lookup` can report that it found nothing for `probe`.
pub open spec fn missed<F: Fn(Probe) -> Result<String, LookupError>>(
    lookup: F,
    probe: Probe,
) -> bool {
    exists|e: LookupError| lookup.ensures((probe,), Err::<String, LookupError>(e))
}

/// Whether the search through `order` ends at position `i` with the
/// executable at `path`: `lookup` found it there, after it had found nothing
/// for any of the lookups before.
pub open spec fn found_at<F: Fn(Probe) -> Result<String, LookupError>>(
    lookup: F,
    order: Seq<Probe>,
    i: int,
    path: String,
) -> bool {
    &&& 0 <= i < order.len()
    &&& lookup.ensures((order[i],), Ok::<String, LookupError>(path))
    &&& forall|j: int| 0 <= j < i ==> missed(lookup, #[trigger] order[j])
}

/// Whether the search through `order` ends without a hit, the last lookup
/// giving `reason`.
pub open spec fn found_nothing<F: Fn(Probe) -> Result<String, LookupError>>(
    lookup: F,
    order: Seq<Probe>,
    reason: LookupError,
) -> bool {
    &&& order.len() > 0
    &&& lookup.ensures((order.last(),), Err::<String, LookupError>(reason))
    &&& forall|j: int| 0 <= j < order.len() ==> missed(lookup, #[trigger] order[j])
}

/// Searches for the tool: makes the lookups of [`search_order`] one after the
/// other, through `lookup`, and stops at the first that finds an executable.
///
/// Returns the path of that executable, and whether it is a Windows build.
/// Where every lookup fails, returns what the last one reported.
pub fn find_ida<F>(hint: Hint, lookup: F) -> (r: Result<(String, bool), LookupError>) where
    F: Fn(Probe) -> Result<String, LookupError>,

    requires
        forall|i: int|
            0 <= i < search_order(hint).len() ==> lookup.requires(
                (#[trigger] search_order(hint)[i],),
            ),
    ensures
        match r {
            Ok(hit) => (exists|i: int|
                {
                    &&& #[trigger] found_at(lookup, search_order(hint), i, hit.0)
                    &&& hit.1 == search_order(hint)[i].alias.is_windows_build()
                }),
            Err(reason) => found_nothing(lookup, search_order(hint), reason),
        },
{
    let order = probes(hint);
    let mut reason = LookupError::CannotFindBinaryPath;
    let mut i: usize = 0;
    while i < order.len()
        invariant
            order@ == search_order(hint),
            0 <= i <= order.len(),
            forall|k: int| 0 <= k < order.len() ==> lookup.requires((#[trigger] order[k],)),
            forall|j: int| 0 <= j < i ==> missed(lookup, #[trigger] order[j]),
            i > 0 ==> lookup.ensures((order[i - 1],), Err::<String, LookupError>(reason)),
        decreases order.len() - i,
    {
        let probe = order[i];
        match lookup(probe) {
            Ok(path) => {
                let hit: Result<(String, bool), LookupError> = Ok(
                    (path, probe.alias.is_windows_build()),
                );
                proof {
                    assert(found_at(lookup, search_order(hint), i as int, hit->Ok_0.0));
                }
                return hit;
            },
            Err(e) => {
                proof {
                    assert(missed(lookup, order[i as int]));
                }
                reason = e;
            },
        }
        i = i + 1;
    }
    Err(reason)
}

/// What a search that ended without a hit is reported as: *invalid path*,
/// with the last lookup's reason, where the caller named the directory, and
/// *not available* otherwise.
pub open spec fn is_search_failure(e: Error, hint: Hint, reason: LookupError) -> bool {
    if hint is Root {
        e matches Error::InvalidPath(r) && r == reason
    } else {
        e is NotAvailable
    }
}

impl IDA {
    /// Builds a backend from a search for the tool through `lookup`.
    ///
    /// The backend is configured with the first executable found in
    /// [`search_order`], and starts it through the compatibility layer exactly
    /// when it is a Windows build. Where nothing is found, fails with
    /// *invalid path* if the caller named the directory, else with *not
    /// available*.
    pub fn discover<F>(hint: Hint, lookup: F) -> (r: Result<IDA, Error>) where
        F: Fn(Probe) -> Result<String, LookupError>,

        requires
            forall|i: int|
                0 <= i < search_order(hint).len() ==> lookup.requires(
                    (#[trigger] search_order(hint)[i],),
                ),
        ensures
            match r {
                Ok(ida) => (exists|i: int, path: String|
                    {
                        &&& #[trigger] found_at(lookup, search_order(hint), i, path)
                        &&& ida@ == Config::located(
                            path@,
                            search_order(hint)[i].alias.is_windows_build(),
                        )
                    }),
                Err(e) => (exists|reason: LookupError|
                    {
                        &&& found_nothing(lookup, search_order(hint), reason)
                        &&& #[trigger] is_search_failure(e, hint, reason)
                    }),
            },
    {
        match find_ida(hint, lookup) {
            Ok((path, compat_layer)) => {
                let ghost found = path;
                let ida = IDA::located(path, compat_layer);
                proof {
                    let i = choose|i: int|
                        {
                            &&& #[trigger] found_at(lookup, search_order(hint), i, found)
                            &&& compat_layer == search_order(hint)[i].alias.is_windows_build()
                        };
                    assert(found_at(lookup, search_order(hint), i, found));
                }
                Ok(ida)
            },
            Err(reason) => {
                let e = match hint {
                    Hint::Root => Error::InvalidPath(reason),
                    _ => Error::NotAvailable,
                };
                assert(is_search_failure(e, hint, reason));
                Err(e)
            },
        }
    }

    /// Looks for the tool in the installation directory that the environment
    /// names, if it names one, and on the system search path, and builds a
    /// backend for what it finds.
    ///
    /// `install_root` is the value of the environment variable
    /// `IDA_INSTALL_DIR`, or `None` where it is not set. Fails with *not
    /// available* where no executable is found.
    pub fn new(install_root: Option<&str>) -> (r: Result<IDA, Error>)
        ensures
            match r {
                Ok(ida) => ida@.tool_path is Some && ida@.output_path is None && !ida@.overwrite,
                Err(e) => e is NotAvailable,
            },
    {
        match install_root {
            Some(root) => {
                let lookup = |probe: Probe| -> (found: Result<String, LookupError>)
                    {
                        let name = probe.alias.file_name();
                        match probe.scope {
                            Scope::InstallRoot => find_in_root(name, root),
                            Scope::SearchPath => find_on_search_path(name),
                        }
                    };
                IDA::discover(Hint::Override, lookup)
            },
            None => {
                let lookup = |probe: Probe| -> (found: Result<String, LookupError>)
                    { find_on_search_path(probe.alias.file_name()) };
                IDA::discover(Hint::Ambient, lookup)
            },
        }
    }

    /// Looks for the tool in the directory `path` and nowhere else, and builds
    /// a backend for what it finds. Fails with *invalid path* where the
    /// directory holds no executable of the tool.
    pub fn from_path(path: &str) -> (r: Result<IDA, Error>)
        ensures
            match r {
                Ok(ida) => ida@.tool_path is Some && ida@.output_path is None && !ida@.overwrite,
                Err(e) => e is InvalidPath,
            },
    {
        let lookup = |probe: Probe| -> (found: Result<String, LookupError>)
            { find_in_root(probe.alias.file_name(), path) };
        IDA::discover(Hint::Root, lookup)
    }
}

} // verus!
