//! File-system paths, held as text.
//!
//! The rules by which a path falls into components belong to the platform, so
//! the functions here hand each question to `std::path` and give its answer a
//! name that contracts can speak of. A path that is not valid Unicode is
//! written with replacement characters, as it would be on a command line.

use vstd::prelude::*;
use crate::text::opt_view;

verus! {

/// What `std::path::Path::extension` returns for the path written as `path`
/// on the platform the library is built for: the part of the final component
/// after its last dot, if it has one that is not its first character.
pub uninterp spec fn path_extension(path: Seq<char>) -> Option<Seq<char>>;

/// What `std::path::Path::with_file_name` returns for the path written as
/// `path`: the same path with its final component replaced by `name`.
pub uninterp spec fn path_with_file_name(path: Seq<char>, name: Seq<char>) -> Seq<char>;

/// What `std::path::Path::join` returns for the directory written as `dir`:
/// the path of `name` below `dir`.
pub uninterp spec fn path_join(dir: Seq<char>, name: Seq<char>) -> Seq<char>;

/// Calls `std::path::Path::extension` on `path`. The contract only names the
/// result: the same path always has the same extension.
#[verifier::external_body]
pub(crate) fn extension(path: &str) -> (ext: Option<String>)
    ensures
        opt_view(ext) == path_extension(path@),
{
    std::path::Path::new(path).extension().map(|e| e.to_string_lossy().into_owned())
}

/// Calls `std::path::Path::with_file_name` on `path`. The contract only names
/// the result.
#[verifier::external_body]
pub(crate) fn with_file_name(path: &str, name: &str) -> (sibling: String)
    ensures
        sibling@ == path_with_file_name(path@, name@),
{
    std::path::Path::new(path).with_file_name(name).to_string_lossy().into_owned()
}

/// Calls `std::path::Path::join` on `dir`. The contract only names the result.
#[verifier::external_body]
pub(crate) fn join(dir: &str, name: &str) -> (below: String)
    ensures
        below@ == path_join(dir@, name@),
{
    std::path::Path::new(dir).join(name).to_string_lossy().into_owned()
}

/// Calls `std::path::Path::exists` on `path`. The answer depends on what is on
/// disk at the moment of the call, so nothing is promised of it.
#[verifier::external_body]
pub(crate) fn is_on_disk(path: &str) -> bool {
    std::path::Path::new(path).exists()
}

} // verus!
