//! Paths as text, and what the path syntax of `std::path` makes of them.
//!
//! Paths are held as text everywhere in the library. How a path splits into
//! directory, file name, stem and extension is decided by `std::path`: each
//! reading is a function of the path's text, named here and computed by the
//! function of `std::path::Path` that is called.

use vstd::prelude::*;
use crate::text::text_of;

verus! {

/// The last component of `path`, where it has one that is not `..`.
pub uninterp spec fn file_name(path: Seq<char>) -> Option<Seq<char>>;

/// The file name of `path` without its extension, where `path` has a file name.
pub uninterp spec fn file_stem(path: Seq<char>) -> Option<Seq<char>>;

/// What follows the last dot of the file name of `path`, where there is
/// such a part.
pub uninterp spec fn extension(path: Seq<char>) -> Option<Seq<char>>;

/// `path` without its last component, where it has one.
pub uninterp spec fn parent(path: Seq<char>) -> Option<Seq<char>>;

/// The path of `name` in the directory `dir`.
pub uninterp spec fn joined(dir: Seq<char>, name: Seq<char>) -> Seq<char>;

/// `Path::file_name` of the path written `path`.
#[verifier::external_body]
pub(crate) fn file_name_of(path: &str) -> (r: Option<String>)
    ensures
        text_of(r) == file_name(path@),
{
    std::path::Path::new(path).file_name().and_then(|n| n.to_str()).map(|n| n.to_string())
}

/// `Path::file_stem` of the path written `path`.
#[verifier::external_body]
pub(crate) fn file_stem_of(path: &str) -> (r: Option<String>)
    ensures
        text_of(r) == file_stem(path@),
{
    std::path::Path::new(path).file_stem().and_then(|n| n.to_str()).map(|n| n.to_string())
}

/// `Path::extension` of the path written `path`.
#[verifier::external_body]
pub(crate) fn extension_of(path: &str) -> (r: Option<String>)
    ensures
        text_of(r) == extension(path@),
{
    std::path::Path::new(path).extension().and_then(|n| n.to_str()).map(|n| n.to_string())
}

/// `Path::parent` of the path written `path`.
#[verifier::external_body]
pub(crate) fn parent_of(path: &str) -> (r: Option<String>)
    ensures
        text_of(r) == parent(path@),
{
    std::path::Path::new(path).parent().and_then(|p| p.to_str()).map(|p| p.to_string())
}

/// `Path::join`: the path written `dir` with `name` adjoined.
#[verifier::external_body]
pub(crate) fn join(dir: &str, name: &str) -> (r: String)
    ensures
        r@ == joined(dir@, name@),
{
    std::path::Path::new(dir).join(name).to_string_lossy().into_owned()
}

} // verus!
