//! The two parts of a file path that the engine reads: the extension, which
//! selects the reader, and the stem, which names the dataset.

use std::path::Path;
use vstd::prelude::*;

verus! {

/// The extension that `Path::extension` finds in `path`, by the path rules
/// of the platform the library is built for: what follows the last dot of
/// the file name, if that name has a dot that is not its first character.
pub uninterp spec fn path_extension(path: Seq<char>) -> Option<Seq<char>>;

/// The stem that `Path::file_stem` finds in `path`, by the path rules of the
/// platform the library is built for: the file name without its extension.
pub uninterp spec fn path_file_stem(path: Seq<char>) -> Option<Seq<char>>;

/// Calls `Path::extension`. Trusted: that the result depends on the
/// characters of `path` alone.
#[verifier::external_body]
pub(crate) fn extension_of(path: &str) -> (r: Option<String>)
    ensures
        match r {
            Some(e) => path_extension(path@) == Some(e@),
            None => path_extension(path@) is None,
        },
{
    match Path::new(path).extension() {
        Some(e) => Some(e.to_string_lossy().into_owned()),
        None => None,
    }
}

/// Calls `Path::file_stem`. Trusted: that the result depends on the
/// characters of `path` alone.
#[verifier::external_body]
pub(crate) fn file_stem_of(path: &str) -> (r: Option<String>)
    ensures
        match r {
            Some(e) => path_file_stem(path@) == Some(e@),
            None => path_file_stem(path@) is None,
        },
{
    match Path::new(path).file_stem() {
        Some(e) => Some(e.to_string_lossy().into_owned()),
        None => None,
    }
}

/// The extension of `path`, or the empty text where it has none.
pub open spec fn extension_text(path: Seq<char>) -> Seq<char> {
    match path_extension(path) {
        Some(e) => e,
        None => Seq::empty(),
    }
}

/// The stem of `path`, or `dataset` where it has none.
pub open spec fn stem_text(path: Seq<char>) -> Seq<char> {
    match path_file_stem(path) {
        Some(e) => e,
        None => "dataset"@,
    }
}

/// The extension of `path`, or the empty text where it has none.
pub fn extension(path: &str) -> (r: String)
    ensures
        r@ == extension_text(path@),
{
    match extension_of(path) {
        Some(e) => e,
        None => String::new(),
    }
}

/// The stem of `path`, or `dataset` where it has none.
pub fn file_stem(path: &str) -> (r: String)
    ensures
        r@ == stem_text(path@),
{
    match file_stem_of(path) {
        Some(e) => e,
        None => String::from_str("dataset"),
    }
}

} // verus!
