//! Paths of files. They are carried through the model as `PathBuf`.
use vstd::prelude::*;
use std::path::PathBuf;

verus! {

#[verifier::external_type_specification]
#[verifier::external_body]
pub struct ExPathBuf(std::path::PathBuf);

/// The path that `PathBuf::from` makes of `text`.
pub uninterp spec fn path_of(text: Seq<char>) -> PathBuf;

/// `PathBuf::clone`: the copy equals the path it was made from.
pub assume_specification[ <std::path::PathBuf as Clone>::clone ](p: &std::path::PathBuf) -> (r:
    std::path::PathBuf)
    ensures
        r == *p,
;

/// `PathBuf::from` of a string: the path with that text. The result depends
/// on the text alone, and is named by [`path_of`].
#[verifier::external_body]
pub(crate) fn path_from(text: String) -> (r: PathBuf)
    ensures
        r == path_of(text@),
{
    PathBuf::from(text)
}

} // verus!
