//! Path operations of `std::path`, on paths held as text.
//!
//! Each function below is one call of `std::path::Path`. What that call
//! returns is fixed by the path rules of the target the crate is built for
//! (separators, prefixes and roots differ between Windows and Unix), so each
//! result is given a name rather than a formula; the names are only ever used
//! for the target the crate was built for.

use vstd::prelude::*;

verus! {

/// The text of `Path::new(base).join(rel)`.
pub uninterp spec fn path_join(base: Seq<char>, rel: Seq<char>) -> Seq<char>;

/// Whether `Path::new(path).is_absolute()` holds.
pub uninterp spec fn path_is_absolute(path: Seq<char>) -> bool;

/// Whether `Path::new(a) == Path::new(b)`, which compares paths component by component.
pub uninterp spec fn path_eq(a: Seq<char>, b: Seq<char>) -> bool;

/// Whether `Path::new(path).starts_with(base)`: `base` is a whole-component prefix of `path`.
pub uninterp spec fn path_starts_with(path: Seq<char>, base: Seq<char>) -> bool;

/// The last component of `path` as `Path::file_name` gives it.
pub uninterp spec fn path_file_name(path: Seq<char>) -> Option<Seq<char>>;

/// `Path::join`: `rel` adjoined to `base`. Both arguments are UTF-8 text, so
/// the joined path is UTF-8 too and its text is returned unchanged.
#[verifier::external_body]
pub fn join_path(base: &str, rel: &str) -> (r: String)
    ensures
        r@ == path_join(base@, rel@),
{
    std::path::Path::new(base).join(rel).to_string_lossy().into_owned()
}

/// `Path::is_absolute`: whether the path does not depend on the current
/// directory. The documentation defines it as starting with the root (Unix),
/// or as having a prefix and starting with the root (Windows); either way an
/// absolute path is not empty.
#[verifier::external_body]
pub fn is_absolute_path(path: &str) -> (r: bool)
    ensures
        r == path_is_absolute(path@),
        r ==> path@.len() > 0,
{
    std::path::Path::new(path).is_absolute()
}

/// `==` on `Path`. `Path` implements `Eq`, so equal texts give equal paths.
#[verifier::external_body]
pub fn same_path(a: &str, b: &str) -> (r: bool)
    ensures
        r == path_eq(a@, b@),
        a@ == b@ ==> r,
{
    std::path::Path::new(a) == std::path::Path::new(b)
}

/// `Path::starts_with`: whether `base` is a prefix of `path`, whole
/// components only. A path equal to `base` has all of its components, so it
/// starts with `base`.
#[verifier::external_body]
pub fn path_has_prefix(path: &str, base: &str) -> (r: bool)
    ensures
        r == path_starts_with(path@, base@),
        path_eq(path@, base@) ==> r,
{
    std::path::Path::new(path).starts_with(base)
}

/// `Path::file_name`: the final component, or `None` when the path ends in `..`
/// or is a root. A component of UTF-8 text is UTF-8, so it is returned whole.
#[verifier::external_body]
pub fn file_name_of(path: &str) -> (r: Option<String>)
    ensures
        r.deep_view() == path_file_name(path@),
{
    match std::path::Path::new(path).file_name() {
        Some(name) => Some(name.to_string_lossy().into_owned()),
        None => None,
    }
}

} // verus!
