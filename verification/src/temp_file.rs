//! Temporary files that are removed when no longer needed, unless kept.
//!
//! The removal itself happens outside the library; this is the record of the
//! path and the decision.

use vstd::prelude::*;
use crate::text::owned;

verus! {

/// A temporary file: removed on release unless [`TempFile::keep`] was
/// called.
#[derive(Debug)]
pub struct TempFile {
    path: String,
    keep: bool,
}

impl TempFile {
    /// The path of the file.
    pub closed spec fn path_spec(&self) -> Seq<char> {
        self.path@
    }

    /// Whether the file is to be kept.
    pub closed spec fn kept(&self) -> bool {
        self.keep
    }

    /// A temporary file at `path`, to be removed.
    pub fn new(path: &str) -> (r: Self)
        ensures
            r.path_spec() == path@,
            !r.kept(),
    {
        TempFile { path: owned(path), keep: false }
    }

    /// The path of the temporary file.
    pub fn path(&self) -> (r: &str)
        ensures
            r@ == self.path_spec(),
    {
        self.path.as_str()
    }

    /// Keeps the file after release.
    pub fn keep(&mut self)
        ensures
            final(self).path_spec() == old(self).path_spec(),
            final(self).kept(),
    {
        self.keep = true;
    }

    /// Whether releasing the file removes it: when it was not kept and
    /// exists.
    pub fn should_remove(&self, exists: bool) -> (r: bool)
        ensures
            r == (!self.kept() && exists),
    {
        !self.keep && exists
    }
}

} // verus!
