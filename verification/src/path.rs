//! File-system paths, which this library carries and extends but never reads.
//!
//! A `PathBuf` is opaque to the verifier. The two operations that the library
//! performs on paths are made by the standard library; their results are
//! named here so that contracts can say exactly which path a function
//! returns.
use std::path::PathBuf;
use vstd::prelude::*;

verus! {

/// Makes `std::path::PathBuf` known to the verifier as an opaque type.
#[verifier::external_type_specification]
#[verifier::external_body]
pub struct ExPathBuf(std::path::PathBuf);

/// The path that `PathBuf::from` makes of a text.
pub uninterp spec fn path_of(text: Seq<char>) -> PathBuf;

/// The path that `PathBuf::push` leaves when `component` is pushed onto
/// `base`.
pub uninterp spec fn pushed(base: PathBuf, component: Seq<char>) -> PathBuf;

/// Calls `PathBuf::from` on an owned string. Trusted: the result is the
/// path named `path_of` of the string's text, which says only that the
/// conversion depends on nothing but the characters handed in.
#[verifier::external_body]
pub(crate) fn path_from_string(text: String) -> (path: PathBuf)
    ensures
        path == path_of(text@),
{
    PathBuf::from(text)
}

/// Calls `PathBuf::push` with a string slice. Trusted: afterwards the path
/// is the one named `pushed` of the path before the call and the text
/// pushed, which says only that the outcome depends on nothing but those two.
#[verifier::external_body]
pub(crate) fn push_component(path: &mut PathBuf, component: &str)
    ensures
        *final(path) == pushed(*old(path), component@),
{
    path.push(component);
}

} // verus!
