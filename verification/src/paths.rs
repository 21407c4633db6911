//! What the library asks of camino about file paths.
use vstd::prelude::*;

verus! {

/// Whether camino considers the two paths equal (it compares their components).
pub uninterp spec fn paths_equal(a: Seq<char>, b: Seq<char>) -> bool;

/// Calls `PartialEq::eq` on two `camino::Utf8Path`s. The contract claims that the result is
/// `paths_equal` of the two strings, and that identical strings are equal paths; what makes
/// two different strings the same path (camino compares components) is left unsaid.
#[verifier::external_body]
pub(crate) fn same_path(a: &str, b: &str) -> (r: bool)
    ensures
        r == paths_equal(a@, b@),
        a@ == b@ ==> r,
{
    camino::Utf8Path::new(a) == camino::Utf8Path::new(b)
}

} // verus!

verus! {

/// The last component of a path, as camino splits it into components.
pub uninterp spec fn last_component_of(path: Seq<char>) -> Option<Seq<char>>;

/// Calls `camino::Utf8Path::components` and takes the last component, as a string.
/// The contract claims only that the result is `last_component_of` the path.
#[verifier::external_body]
pub(crate) fn last_component(path: &str) -> (c: Option<&str>)
    ensures
        match c {
            Some(c) => last_component_of(path@) == Some(c@),
            None => last_component_of(path@) is None,
        },
{
    camino::Utf8Path::new(path).components().last().map(|c| c.as_str())
}

/// The file stem of a path, as camino gives it.
pub uninterp spec fn file_stem_of(path: Seq<char>) -> Option<Seq<char>>;

/// Calls `camino::Utf8Path::file_stem`. The contract claims only that the result is
/// `file_stem_of` the path.
#[verifier::external_body]
pub(crate) fn file_stem(path: &str) -> (s: Option<&str>)
    ensures
        match s {
            Some(s) => file_stem_of(path@) == Some(s@),
            None => file_stem_of(path@) is None,
        },
{
    camino::Utf8Path::new(path).file_stem()
}

/// The extension of a path, as camino gives it.
pub uninterp spec fn extension_of(path: Seq<char>) -> Option<Seq<char>>;

/// Calls `camino::Utf8Path::extension`. The contract claims only that the result is
/// `extension_of` the path.
#[verifier::external_body]
pub(crate) fn extension(path: &str) -> (e: Option<&str>)
    ensures
        match e {
            Some(e) => extension_of(path@) == Some(e@),
            None => extension_of(path@) is None,
        },
{
    camino::Utf8Path::new(path).extension()
}


/// The path that camino makes by adjoining `name` to `base`.
pub uninterp spec fn joined(base: Seq<char>, name: Seq<char>) -> Seq<char>;

/// Calls `camino::Utf8Path::join`. The contract claims only that the result is `joined` of
/// the two paths.
#[verifier::external_body]
pub(crate) fn join(base: &str, name: &str) -> (p: String)
    ensures
        p@ == joined(base@, name@),
{
    camino::Utf8Path::new(base).join(name).into_string()
}

} // verus!
