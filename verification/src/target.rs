//! The input of an import, addressed by a URL.

use vstd::prelude::*;
use url::Url;
use crate::backend::IDA;
use crate::command::{has_saved_database_extension, is_saved_database};
use crate::error::Error;
use crate::path::{extension, path_extension};
use crate::text::{opt_as_str, opt_str_view, opt_view};

verus! {

/// `url::Url`, a parsed URL. Its parts are reached through the functions
/// below only.
#[verifier::external_type_specification]
#[verifier::external_body]
pub struct ExUrl(Url);

/// The scheme of `url`, as `url::Url::scheme` returns it: in lower case and
/// without the colon.
pub uninterp spec fn url_scheme(url: Url) -> Seq<char>;

/// The local path that `url` stands for, as `url::Url::to_file_path` returns
/// it on the platform the library is built for, written as text; `None` where
/// that function fails.
pub uninterp spec fn url_file_path(url: Url) -> Option<Seq<char>>;

/// `url::Url::scheme` returns the URL's scheme. The contract only names the
/// result: the scheme is a part of the URL and nothing else bears on it.
pub assume_specification<'a>[ Url::scheme ](url: &'a Url) -> (scheme: &'a str)
    ensures
        scheme@ == url_scheme(*url),
;

/// Calls `url::Url::to_file_path` and writes the path it returns as text. The
/// contract only names the result: the path is computed from the URL alone.
#[verifier::external_body]
pub(crate) fn file_path(url: &Url) -> (path: Option<String>)
    ensures
        opt_view(path) == url_file_path(*url),
{
    url.to_file_path().ok().map(|p| p.to_string_lossy().into_owned())
}

/// The file that a URL with the given scheme and local path addresses: the
/// path, provided the scheme is `file` and the URL has a local path.
pub open spec fn local_input(scheme: Seq<char>, file_path: Option<Seq<char>>) -> Option<
    Seq<char>,
> {
    if scheme == "file"@ {
        file_path
    } else {
        None
    }
}

/// Whether the backend is the preferred one for an input: no opinion on what
/// is not a local file, yes for a saved database of the tool, no for any other
/// local file.
pub open spec fn preference(scheme: Seq<char>, file_path: Option<Seq<char>>) -> Option<bool> {
    match local_input(scheme, file_path) {
        Some(path) => Some(is_saved_database(path_extension(path))),
        None => None,
    }
}

/// The preference for a local file whose extension is `extension`, or for an
/// input that is no local file (`is_local` false).
pub fn preference_by_extension(is_local: bool, extension: Option<&str>) -> (preferred: Option<bool>)
    ensures
        preferred == if is_local {
            Some(is_saved_database(opt_str_view(extension)))
        } else {
            None
        },
{
    if is_local {
        Some(has_saved_database_extension(extension))
    } else {
        None
    }
}

/// The local file that `url` addresses. Fails, with *unsupported URL scheme*
/// and the URL's scheme, exactly when the scheme is not `file` or the URL has
/// no local path.
pub fn local_file(url: &Url) -> (r: Result<String, Error>)
    ensures
        match r {
            Ok(path) => local_input(url_scheme(*url), url_file_path(*url)) == Some(path@),
            Err(e) => {
                &&& local_input(url_scheme(*url), url_file_path(*url)) is None
                &&& e matches Error::UnsupportedScheme(scheme) && scheme@ == url_scheme(*url)
            },
        },
{
    if !url.scheme().eq("file") {
        return Err(Error::UnsupportedScheme(url.scheme().to_owned()));
    }
    match file_path(url) {
        Some(path) => Ok(path),
        None => Err(Error::UnsupportedScheme(url.scheme().to_owned())),
    }
}

impl IDA {
    /// Whether this backend should be preferred for the input at `url`:
    /// `None` where the URL addresses no local file, and otherwise whether the
    /// file's extension is that of a saved database.
    pub fn is_preferred_for(&self, url: &Url) -> (preferred: Option<bool>)
        ensures
            preferred == preference(url_scheme(*url), url_file_path(*url)),
    {
        match local_file(url) {
            Ok(path) => {
                let ext = extension(path.as_str());
                preference_by_extension(true, opt_as_str(&ext))
            },
            Err(_) => preference_by_extension(false, None),
        }
    }
}

/// A URL whose scheme is not `file` gets no opinion. A local file gets
/// `Some(true)` where its extension is `i64` or `idb`, and `Some(false)` for
/// any other extension and for none.
pub proof fn lemma_preference(scheme: Seq<char>, file_path: Option<Seq<char>>)
    ensures
        scheme != "file"@ ==> preference(scheme, file_path) is None,
        file_path is None ==> preference(scheme, file_path) is None,
        scheme == "file"@ && file_path is Some ==> preference(scheme, file_path) == Some(
            path_extension(file_path->0) == Some("i64"@) || path_extension(file_path->0) == Some(
                "idb"@,
            ),
        ),
        preference(scheme, file_path) == Some(true) <==> scheme == "file"@ && file_path is Some
            && (path_extension(file_path->0) == Some("i64"@) || path_extension(file_path->0)
            == Some("idb"@)),
{
}

} // verus!
