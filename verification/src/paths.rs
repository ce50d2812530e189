//! File-path queries, through `std::path::Path`.
use vstd::prelude::*;

verus! {

/// The extension that `std::path::Path::extension` gives for a path.
pub uninterp spec fn path_extension_of(path: Seq<char>) -> Option<Seq<char>>;

/// The last component that `std::path::Path::file_name` gives for a path.
pub uninterp spec fn path_file_name_of(path: Seq<char>) -> Option<Seq<char>>;

/// The view of an optional string.
pub open spec fn opt_string_view(o: Option<String>) -> Option<Seq<char>> {
    match o {
        Some(s) => Some(s@),
        None => None,
    }
}

/// Calls `std::path::Path::extension` on the path.
#[verifier::external_body]
pub fn path_extension(path: &str) -> (r: Option<String>)
    ensures
        opt_string_view(r) == path_extension_of(path@),
{
    std::path::Path::new(path).extension().and_then(|e| e.to_str()).map(|e| e.to_string())
}

/// Calls `std::path::Path::file_name` on the path.
#[verifier::external_body]
pub fn path_file_name(path: &str) -> (r: Option<String>)
    ensures
        opt_string_view(r) == path_file_name_of(path@),
{
    std::path::Path::new(path).file_name().and_then(|e| e.to_str()).map(|e| e.to_string())
}

/// The extension of a path, or the empty string when it has none.
pub open spec fn extension_or_empty(path: Seq<char>) -> Seq<char> {
    match path_extension_of(path) {
        Some(e) => e,
        None => Seq::empty(),
    }
}

/// The extension of a path, or the empty string when it has none.
pub fn extension_or_empty_of(path: &str) -> (r: String)
    ensures
        r@ == extension_or_empty(path@),
{
    match path_extension(path) {
        Some(e) => e,
        None => String::new(),
    }
}

/// Whether `std::path::Path`'s `==` holds for the two paths (it compares
/// their components).
pub uninterp spec fn paths_equal_of(a: Seq<char>, b: Seq<char>) -> bool;

/// What `std::path::Path::strip_prefix` leaves of the path once the base is
/// taken off its front, as text; `None` when the base is not a prefix.
pub uninterp spec fn path_strip_prefix_of(path: Seq<char>, base: Seq<char>) -> Option<Seq<char>>;

/// Compares two paths with `std::path::Path`'s `==`.
#[verifier::external_body]
pub fn paths_equal(a: &str, b: &str) -> (r: bool)
    ensures
        r == paths_equal_of(a@, b@),
{
    std::path::Path::new(a) == std::path::Path::new(b)
}

/// Calls `std::path::Path::strip_prefix` and hands back the rest of the path
/// as text.
#[verifier::external_body]
pub fn path_strip_prefix(path: &str, base: &str) -> (r: Option<String>)
    ensures
        opt_string_view(r) == path_strip_prefix_of(path@, base@),
{
    std::path::Path::new(path).strip_prefix(base).ok().map(|p| p.to_string_lossy().to_string())
}

/// Whether `std::path::Path::is_absolute` holds for the path.
pub uninterp spec fn path_is_absolute_of(path: Seq<char>) -> bool;

/// The text of the path that `std::path::Path::join` builds from a base and
/// a path.
pub uninterp spec fn path_join_of(base: Seq<char>, path: Seq<char>) -> Seq<char>;

/// Calls `std::path::Path::is_absolute`.
#[verifier::external_body]
pub fn path_is_absolute(path: &str) -> (r: bool)
    ensures
        r == path_is_absolute_of(path@),
{
    std::path::Path::new(path).is_absolute()
}

/// Calls `std::path::Path::join` and hands back the joined path as text.
#[verifier::external_body]
pub fn path_join(base: &str, path: &str) -> (r: String)
    ensures
        r@ == path_join_of(base@, path@),
{
    std::path::Path::new(base).join(path).to_string_lossy().to_string()
}

/// The path without its final component that `std::path::Path::parent`
/// gives, if there is one.
pub uninterp spec fn path_parent_of(path: Seq<char>) -> Option<Seq<char>>;

/// Calls `std::path::Path::parent`. The parent is the path without its final
/// component, so its text is shorter than the path's.
#[verifier::external_body]
pub fn path_parent(path: &str) -> (r: Option<String>)
    ensures
        opt_string_view(r) == path_parent_of(path@),
        r matches Some(p) ==> p@.len() < path@.len(),
{
    std::path::Path::new(path).parent().map(|p| p.to_string_lossy().to_string())
}

} // verus!
