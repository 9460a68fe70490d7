//! Filesystem path arithmetic on path strings, done by `std::path`.
//! Nothing here touches the filesystem: every function is a pure
//! computation on its arguments.

use vstd::prelude::*;

verus! {

/// The extension of the path's final component, if it has one.
pub uninterp spec fn extension_of(path: Seq<char>) -> Option<Seq<char>>;

/// `Path::extension`: the part of the final component after its last `.`
/// (none when there is no final component, no `.`, or only a leading `.`).
#[verifier::external_body]
pub(crate) fn path_extension(path: &str) -> (r: Option<String>)
    ensures
        match r {
            Some(e) => extension_of(path@) == Some(e@),
            None => extension_of(path@) is None,
        },
{
    std::path::Path::new(path).extension().and_then(|e| e.to_str()).map(|e| e.to_string())
}

/// The final component of the path, if it has one.
pub uninterp spec fn file_name_of(path: Seq<char>) -> Option<Seq<char>>;

/// `Path::file_name`: the final component, unless the path ends in `..`.
#[verifier::external_body]
pub(crate) fn path_file_name(path: &str) -> (r: Option<String>)
    ensures
        match r {
            Some(f) => file_name_of(path@) == Some(f@),
            None => file_name_of(path@) is None,
        },
{
    std::path::Path::new(path).file_name().and_then(|f| f.to_str()).map(|f| f.to_string())
}

/// The final component of the path without its extension, if it has one.
pub uninterp spec fn file_stem_of(path: Seq<char>) -> Option<Seq<char>>;

/// `Path::file_stem`: the final component up to (not including) its last
/// `.`, or the whole final component when it has no `.` past its start.
#[verifier::external_body]
pub(crate) fn path_file_stem(path: &str) -> (r: Option<String>)
    ensures
        match r {
            Some(f) => file_stem_of(path@) == Some(f@),
            None => file_stem_of(path@) is None,
        },
{
    std::path::Path::new(path).file_stem().and_then(|f| f.to_str()).map(|f| f.to_string())
}

/// The path without its final component, if it has a parent.
pub uninterp spec fn parent_of(path: Seq<char>) -> Option<Seq<char>>;

/// `Path::parent`: the path without its final component (none for a root or
/// an empty path).
#[verifier::external_body]
pub(crate) fn path_parent(path: &str) -> (r: Option<String>)
    ensures
        match r {
            Some(p) => parent_of(path@) == Some(p@),
            None => parent_of(path@) is None,
        },
{
    std::path::Path::new(path).parent().map(|p| p.display().to_string())
}

/// `base` joined with `path`.
pub uninterp spec fn joined(base: Seq<char>, path: Seq<char>) -> Seq<char>;

/// `Path::join`: `path` appended to `base` as a further component (or
/// `path` itself when it is absolute).
#[verifier::external_body]
pub(crate) fn path_join(base: &str, path: &str) -> (r: String)
    ensures
        r@ == joined(base@, path@),
{
    std::path::Path::new(base).join(path).display().to_string()
}

/// Whether the path is relative.
pub uninterp spec fn is_relative_path(path: Seq<char>) -> bool;

/// `Path::is_relative`.
#[verifier::external_body]
pub(crate) fn path_is_relative(path: &str) -> (r: bool)
    ensures
        r == is_relative_path(path@),
{
    std::path::Path::new(path).is_relative()
}

/// `path` relative to `base`, when `base` is a prefix of it.
pub uninterp spec fn stripped_of(path: Seq<char>, base: Seq<char>) -> Option<Seq<char>>;

/// `Path::strip_prefix`: `path` relative to `base`, when `base` is a
/// component-wise prefix of `path`.
#[verifier::external_body]
pub(crate) fn path_strip_prefix(path: &str, base: &str) -> (r: Option<String>)
    ensures
        match r {
            Some(rel) => stripped_of(path@, base@) == Some(rel@),
            None => stripped_of(path@, base@) is None,
        },
{
    std::path::Path::new(path).strip_prefix(base).ok().map(|rel| rel.display().to_string())
}

} // verus!
