//! Path and case-mapping operations of the standard library that the rules
//! of this crate rely on. Each result is named here and computed by `std`.
//!
//! The path names stand for `std::path` as built for the target: on Windows
//! they follow Windows path rules (drive prefixes, both separators), on other
//! targets Unix rules. A name therefore gives one result per build target,
//! whatever machine the program runs on.
use vstd::prelude::*;

verus! {

/// Whether `std::path::Path::is_absolute` holds of the path `p`.
pub uninterp spec fn path_is_absolute(p: Seq<char>) -> bool;

/// The text of `std::path::Path::parent` of `p`, when it has one.
pub uninterp spec fn path_parent(p: Seq<char>) -> Option<Seq<char>>;

/// The text of `std::path::Path::file_name` of `p`, when it has one.
pub uninterp spec fn path_file_name(p: Seq<char>) -> Option<Seq<char>>;

/// The text of `std::path::Path::join(base, name)`.
pub uninterp spec fn path_join(base: Seq<char>, name: Seq<char>) -> Seq<char>;

/// Whether `std::path::Path`'s `==`, which compares components, holds of `a` and `b`.
pub uninterp spec fn paths_equal(a: Seq<char>, b: Seq<char>) -> bool;

/// `str::to_lowercase`, the full Unicode lowercase mapping.
pub uninterp spec fn to_lowercase(s: Seq<char>) -> Seq<char>;

/// Calls `Path::is_absolute`. Claimed: the result is the named property of `p`.
#[verifier::external_body]
pub(crate) fn is_absolute_path(p: &str) -> (res: bool)
    ensures
        res == path_is_absolute(p@),
{
    std::path::Path::new(p).is_absolute()
}

/// Calls `Path::parent`. Claimed: the result is the named parent of `p`. A
/// parent of a path given as text is a prefix of that text, so it converts
/// to a `String` without loss.
#[verifier::external_body]
pub(crate) fn parent_of(p: &str) -> (res: Option<String>)
    ensures
        match res {
            Some(q) => path_parent(p@) == Some(q@),
            None => path_parent(p@) is None,
        },
{
    std::path::Path::new(p).parent().map(|q| q.to_string_lossy().into_owned())
}

/// Calls `Path::file_name`. Claimed: the result is the named last component of `p`.
#[verifier::external_body]
pub(crate) fn file_name_of(p: &str) -> (res: Option<String>)
    ensures
        match res {
            Some(q) => path_file_name(p@) == Some(q@),
            None => path_file_name(p@) is None,
        },
{
    std::path::Path::new(p).file_name().map(|q| q.to_string_lossy().into_owned())
}

/// Calls `Path::join`. Claimed: the result is the named join of `base` and `name`.
#[verifier::external_body]
pub(crate) fn join(base: &str, name: &str) -> (res: String)
    ensures
        res@ == path_join(base@, name@),
{
    std::path::Path::new(base).join(name).to_string_lossy().into_owned()
}

/// Calls `Path`'s `==`. Claimed: the result is the named comparison of `a` and `b`.
#[verifier::external_body]
pub(crate) fn same_path(a: &str, b: &str) -> (res: bool)
    ensures
        res == paths_equal(a@, b@),
{
    std::path::Path::new(a) == std::path::Path::new(b)
}

/// Calls `str::to_lowercase`. Claimed: the result is the named lowercase form of `s`.
#[verifier::external_body]
pub(crate) fn lowercase(s: &str) -> (res: String)
    ensures
        res@ == to_lowercase(s@),
{
    s.to_lowercase()
}

} // verus!
