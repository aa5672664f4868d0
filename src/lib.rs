//! A recursive copy engine for Unix file trees.
//!
//! The library holds every decision the copy makes: where the copy root lies,
//! what happens to each entry of the source tree, how links are resolved and
//! contained, and when the walk must stop on a cycle or on its depth ceiling.
//! The filesystem work itself (listing, stat, byte transfer) is done by the
//! caller, which feeds its findings back to the [`walker::Walker`].
pub mod engine;
pub mod error;
pub mod options;
pub mod paths;
pub mod walker;

pub use error::CopyError;
pub use options::CopyOptions;

