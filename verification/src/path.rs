use vstd::prelude::*;
use std::path::Path;

verus! {

/// `std::path::Path::join` of the base and the name, read back as a string
/// (on the platform the crate is built for).
pub uninterp spec fn path_join(base: Seq<char>, name: Seq<char>) -> Seq<char>;

/// Equality of two `std::path::Path`s, which compares their components.
pub uninterp spec fn path_equal(a: Seq<char>, b: Seq<char>) -> bool;

/// `std::path::Path::parent` of the path, read back as a string.
pub uninterp spec fn path_parent(path: Seq<char>) -> Option<Seq<char>>;

/// `std::path::Path::file_name` of the path, read back as a string.
pub uninterp spec fn path_file_name(path: Seq<char>) -> Option<Seq<char>>;

/// What `sanitize_filename::sanitize` makes of a file name with the default
/// options of the platform the crate is built for.
pub uninterp spec fn sanitized_file_name(name: Seq<char>) -> Seq<char>;

/// Calls `std::path::Path::join`. Trusted: the result is the named one, and
/// joining a non-empty name gives a non-empty path (the name is appended to
/// the base, or replaces it when absolute).
#[verifier::external_body]
pub(crate) fn join_path(base: &str, name: &str) -> (res: String)
    ensures
        res@ == path_join(base@, name@),
        name@.len() > 0 ==> res@.len() > 0,
{
    Path::new(base).join(name).to_string_lossy().into_owned()
}

/// Compares two paths with `==` on `std::path::Path`. Trusted: the result is
/// the named one, and a path equals itself.
#[verifier::external_body]
pub(crate) fn paths_equal(a: &str, b: &str) -> (res: bool)
    ensures
        res == path_equal(a@, b@),
        a@ == b@ ==> res,
{
    Path::new(a) == Path::new(b)
}

/// Calls `std::path::Path::parent`. Trusted: the result is the named one.
#[verifier::external_body]
pub(crate) fn parent_of(path: &str) -> (res: Option<String>)
    ensures
        res matches Some(dir) ==> path_parent(path@) == Some(dir@),
        res is None ==> path_parent(path@) is None,
{
    match Path::new(path).parent() {
        Some(dir) => Some(dir.to_string_lossy().into_owned()),
        None => None,
    }
}

/// Calls `std::path::Path::file_name`. Trusted: the result is the named one,
/// and the empty path has no file name (it has no components).
#[verifier::external_body]
pub(crate) fn file_name_of(path: &str) -> (res: Option<String>)
    ensures
        res is Some ==> path@.len() > 0,
        res matches Some(name) ==> path_file_name(path@) == Some(name@),
        res is None ==> path_file_name(path@) is None,
{
    match Path::new(path).file_name() {
        Some(name) => Some(name.to_string_lossy().into_owned()),
        None => None,
    }
}

/// Calls `sanitize_filename::sanitize`. Trusted: the result is the named one.
#[verifier::external_body]
pub(crate) fn sanitize(name: &str) -> (res: String)
    ensures
        res@ == sanitized_file_name(name@),
{
    sanitize_filename::sanitize(name)
}

} // verus!
