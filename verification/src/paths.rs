//! Paths as text, and what the standard library says of them. A path is
//! read as `std::path::Path` reads it: component by component.

use vstd::prelude::*;

verus! {

/// Whether, read as paths, the first text lies under the second:
/// what `Path::starts_with` says of them.
pub uninterp spec fn path_under(path: Seq<char>, base: Seq<char>) -> bool;

/// `Path::starts_with`: whether the base is a prefix of the path, whole
/// components only. The answer depends on the two texts alone.
#[verifier::external_body]
pub(crate) fn path_starts_with(path: &str, base: &str) -> (under: bool)
    ensures
        under == path_under(path@, base@),
{
    std::path::Path::new(path).starts_with(std::path::Path::new(base))
}

/// The extension of a path's file name, where it has one: what
/// `Path::extension` says of it.
pub uninterp spec fn extension_of(path: Seq<char>) -> Option<Seq<char>>;

/// `Path::extension`: the part of the file name after its last dot, where the
/// file name has a dot that is not its first character. The answer depends on
/// the text alone.
#[verifier::external_body]
pub(crate) fn path_extension(path: &str) -> (extension: Option<String>)
    ensures
        match extension {
            Some(e) => extension_of(path@) == Some(e@),
            None => extension_of(path@) is None,
        },
{
    match std::path::Path::new(path).extension() {
        Some(e) => Some(e.to_string_lossy().into_owned()),
        None => None,
    }
}

/// The last component of a path, where it ends in one: what
/// `Path::file_name` says of it.
pub uninterp spec fn file_name_of(path: Seq<char>) -> Option<Seq<char>>;

/// `Path::file_name`: the last component of the path, unless the path ends in
/// `..` or is the root. The answer depends on the text alone.
#[verifier::external_body]
pub(crate) fn path_file_name(path: &str) -> (name: Option<String>)
    ensures
        match name {
            Some(n) => file_name_of(path@) == Some(n@),
            None => file_name_of(path@) is None,
        },
{
    match std::path::Path::new(path).file_name() {
        Some(n) => Some(n.to_string_lossy().into_owned()),
        None => None,
    }
}

/// A path with another joined to it: what `Path::join` makes of them.
pub uninterp spec fn joined(base: Seq<char>, path: Seq<char>) -> Seq<char>;

/// `Path::join`: the base with the path added to it, or the path alone where
/// it is absolute. The result depends on the two texts alone.
#[verifier::external_body]
pub(crate) fn path_join(base: &str, path: &str) -> (whole: String)
    ensures
        whole@ == joined(base@, path@),
{
    std::path::Path::new(base).join(path).to_string_lossy().into_owned()
}

} // verus!
