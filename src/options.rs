//! The settings of one copy.
use vstd::prelude::*;

verus! {

/// Chunk size of the byte transfer unless the caller picks another.
pub const DEFAULT_BUFFER_SIZE: usize = 65536;

/// Directory nesting ceiling unless the caller picks another.
pub const DEFAULT_DEPTH: usize = 512;

/// How one copy treats existing entries, links and nesting. Read-only for the
/// duration of a copy.
#[derive(Clone, Debug)]
pub struct CopyOptions {
    /// Replace destination files and links that already exist; when unset they
    /// are left untouched.
    pub overwrite: bool,
    /// When following links, skip each link whose target lies outside the
    /// source tree.
    pub restrict_symlinks: bool,
    /// Copy what a link points to instead of recreating the link.
    pub follow_symlinks: bool,
    /// Put a source directory's entries straight into an existing destination
    /// instead of into a subdirectory named after the source.
    pub content_only: bool,
    /// Chunk size of the byte transfer; at least one.
    pub buffer_size: usize,
    /// Deepest directory nesting below the source root that the walk enters.
    pub depth: usize,
}

impl CopyOptions {
    /// The chunk size is positive.
    pub open spec fn wf(&self) -> bool {
        self.buffer_size > 0
    }
}

impl Default for CopyOptions {
    /// Nothing overwritten, links recreated, the source nested under an
    /// existing destination, 64 KiB chunks and a ceiling of 512 levels.
    fn default() -> (r: Self)
        ensures
            !r.overwrite,
            !r.restrict_symlinks,
            !r.follow_symlinks,
            !r.content_only,
            r.buffer_size == DEFAULT_BUFFER_SIZE,
            r.depth == DEFAULT_DEPTH,
            r.wf(),
    {
        CopyOptions {
            overwrite: false,
            restrict_symlinks: false,
            follow_symlinks: false,
            content_only: false,
            buffer_size: DEFAULT_BUFFER_SIZE,
            depth: DEFAULT_DEPTH,
        }
    }
}

} // verus!
