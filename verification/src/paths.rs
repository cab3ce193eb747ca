//! File-system paths, kept as text. The platform's rules for composing and
//! taking apart a path are the standard library's; the user's data directory is
//! looked up by the `dirs` crate.

use vstd::prelude::*;

verus! {

/// The path that `std::path::Path::join` makes of `dir` and `name`: `name` adjoined
/// to `dir` with the platform's separator between them where one is needed, or
/// `name` alone if it is absolute. Which separator, and what counts as absolute,
/// are fixed by the platform the program is built for.
pub uninterp spec fn path_join(dir: Seq<char>, name: Seq<char>) -> Seq<char>;

/// The final component of `path` as `std::path::Path::file_name` finds it: the name
/// of the file or directory the path ends in, and `None` if it ends in `..` or has
/// no component at all. How a path divides into components is fixed by the
/// platform the program is built for.
pub uninterp spec fn path_file_name(path: Seq<char>) -> Option<Seq<char>>;

/// Trusted: wraps `std::path::Path::join`. The result is a function of the two texts
/// alone. Both are valid Unicode, hence so is the joined path, and turning it back
/// into a `String` loses nothing.
#[verifier::external_body]
pub(crate) fn join_path(dir: &str, name: &str) -> (r: String)
    ensures
        r@ == path_join(dir@, name@),
{
    std::path::Path::new(dir).join(name).to_string_lossy().into_owned()
}

/// Trusted: wraps `std::path::Path::file_name`. The result is a function of the text
/// alone. A component of a Unicode path is Unicode, so the conversion to `String`
/// always succeeds.
#[verifier::external_body]
pub(crate) fn file_name_of(path: &str) -> (r: Option<String>)
    ensures
        r.deep_view() == path_file_name(path@),
{
    match std::path::Path::new(path).file_name() {
        Some(name) => Some(name.to_string_lossy().into_owned()),
        None => None,
    }
}

/// Trusted: wraps `dirs::data_dir`, which reads the user's data directory from the
/// environment. Nothing is promised of the answer: it may be absent, and it may
/// differ from one call to the next. A directory whose name is not valid Unicode is
/// rendered with replacement characters.
#[verifier::external_body]
pub(crate) fn data_dir() -> (r: Option<String>)
{
    match dirs::data_dir() {
        Some(dir) => Some(dir.to_string_lossy().into_owned()),
        None => None,
    }
}

} // verus!
