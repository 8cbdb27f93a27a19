//! Types of the standard library that the library carries through without
//! looking inside them.

use vstd::prelude::*;

verus! {

/// The operating system's I/O error (`std::io::Error`), carried through
/// unread.
#[verifier::external_type_specification]
#[verifier::external_body]
pub struct ExIoError(std::io::Error);

/// A path in the file system (`std::path::PathBuf`), carried through unread.
#[verifier::external_type_specification]
#[verifier::external_body]
pub struct ExPathBuf(std::path::PathBuf);

/// Copying a path (`PathBuf::clone`).
///
/// Claimed, not proved: the copy equals the path it was made from.
pub assume_specification[ <std::path::PathBuf as Clone>::clone ](
    path: &std::path::PathBuf,
) -> (copy: std::path::PathBuf)
    ensures
        copy == *path,
;

} // verus!
