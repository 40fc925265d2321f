//! Types of std that values of this library carry through unchanged.
use std::path::PathBuf;
use vstd::prelude::*;

verus! {

/// A file system path, as std's `PathBuf`. The library never looks inside it.
#[verifier::external_type_specification]
#[verifier::external_body]
pub struct ExPathBuf(std::path::PathBuf);

/// An I/O failure, as std's `io::Error`. The library never looks inside it.
#[verifier::external_type_specification]
#[verifier::external_body]
pub struct ExIoError(std::io::Error);

/// Calls `PathBuf::clone` (std's `Clone`); claimed: the copy is the same path
/// as the original.
#[verifier::external_body]
pub(crate) fn copy_path(p: &PathBuf) -> (r: PathBuf)
    ensures
        r == *p,
{
    p.clone()
}

} // verus!
