//! What can stop a copy.
use vstd::prelude::*;

verus! {

/// Why a copy stopped. Each variant that concerns a path carries it as bytes.
#[derive(Clone, Debug, PartialEq, Eq)]
pub enum CopyError {
    /// A filesystem operation failed; the text describes the failure.
    Io(String),
    /// Listing a directory failed; the text describes the failure.
    Walk(String),
    /// Entering this directory would pass the depth ceiling.
    DepthExceeded(Vec<u8>),
    /// This directory is already being copied further up the current branch.
    SymlinkLoop(Vec<u8>),
    /// The source does not exist.
    SrcNotFound(Vec<u8>),
    /// The source is a directory but the destination exists and is not one.
    DestNotDir(Vec<u8>),
    /// The source is neither a file nor a directory.
    NotSupported(Vec<u8>),
}

} // verus!
