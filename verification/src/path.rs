//! Path arithmetic, as the standard library does it.
//!
//! The library holds paths as text and leaves it to `std::path` to take them
//! apart and put them together. What `std::path` makes of a text depends on
//! the text alone, on the platform that the library is built for; the two
//! functions below give those results their names, and every contract that
//! speaks of a joined path or of a final component speaks of them.

use vstd::prelude::*;

verus! {

/// The path that `std::path::Path::join` makes of `base` and `name`.
pub uninterp spec fn path_join(base: Seq<char>, name: Seq<char>) -> Seq<char>;

/// The final component that `std::path::Path::file_name` finds in `path`, if
/// it finds one.
pub uninterp spec fn path_file_name(path: Seq<char>) -> Option<Seq<char>>;

/// Calls `std::path::Path::join`. The result is a function of the two texts
/// alone; the contract gives it its name and claims nothing else of it.
#[verifier::external_body]
pub(crate) fn join(base: &str, name: &str) -> (joined: String)
    ensures
        joined@ == path_join(base@, name@),
{
    std::path::Path::new(base).join(name).to_string_lossy().into_owned()
}

/// Calls `std::path::Path::file_name`. The result is a function of the text
/// alone; the contract gives it its name and claims nothing else of it.
#[verifier::external_body]
pub(crate) fn file_name(path: &str) -> (name: Option<String>)
    ensures
        name.deep_view() == path_file_name(path@),
{
    match std::path::Path::new(path).file_name() {
        Some(name) => Some(name.to_string_lossy().into_owned()),
        None => None,
    }
}

} // verus!
