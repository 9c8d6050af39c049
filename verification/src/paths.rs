//! Paths, held as text.
use vstd::prelude::*;

verus! {

/// The path that `std::path::Path::join` makes of `base` and `leaf`.
pub uninterp spec fn joined(base: Seq<char>, leaf: Seq<char>) -> Seq<char>;

/// The path that `std::path::Path::parent` finds above `path`, if it finds one.
pub uninterp spec fn parent_of(path: Seq<char>) -> Option<Seq<char>>;

/// `std::path::Path::join`: `leaf` adjoined to `base`. The contract claims only
/// that the two texts decide the result, which holds for the one target that the
/// library is built for: what the result is, say which separator stands between
/// the two, is not stated.
#[verifier::external_body]
pub(crate) fn join(base: &str, leaf: &str) -> (path: String)
    ensures
        path@ == joined(base@, leaf@),
{
    std::path::Path::new(base).join(leaf).to_string_lossy().into_owned()
}

/// `std::path::Path::parent`: `path` without its last component. The contract
/// claims only that the text of `path` decides the result.
#[verifier::external_body]
pub(crate) fn parent(path: &str) -> (dir: Option<String>)
    ensures
        dir matches Some(d) ==> parent_of(path@) == Some(d@),
        dir is None ==> parent_of(path@) is None,
{
    match std::path::Path::new(path).parent() {
        Some(dir) => Some(dir.to_string_lossy().into_owned()),
        None => None,
    }
}

/// `directories::BaseDirs::new` and `BaseDirs::home_dir`: the home directory of
/// the current user, if the system names one. Nothing is claimed of the result:
/// it depends on the environment of the process.
#[verifier::external_body]
pub(crate) fn home_dir() -> Option<String> {
    match directories::BaseDirs::new() {
        Some(dirs) => Some(dirs.home_dir().to_string_lossy().into_owned()),
        None => None,
    }
}

/// The directory that holds `path`, or `.` where `path` has none above it.
pub open spec fn dir_of(path: Seq<char>) -> Seq<char> {
    match parent_of(path) {
        Some(dir) => dir,
        None => "."@,
    }
}

/// The directory that holds the file at `path`; `.` where the path names none.
pub fn containing_dir(path: &str) -> (dir: String)
    ensures
        dir@ == dir_of(path@),
{
    match parent(path) {
        Some(dir) => dir,
        None => String::from_str("."),
    }
}

} // verus!
