//! How a clone may proceed: the fallback when sharing extents is impossible,
//! the space floor, and whether a failed stage is kept.
use vstd::prelude::*;

verus! {

/// What to do when source and destination cannot share extents.
#[derive(Clone, Copy, Debug, PartialEq, Eq, Structural)]
pub enum Fallback {
    /// Fail with `ErrorKind::CrossFilesystem` or `ErrorKind::NotClonable`.
    Fail,
    /// Copy bytes, within the space bound, and count them in the receipt.
    Copy,
}

/// The space floor used unless another is given: 256 MiB.
pub const DEFAULT_MIN_FREE_BYTES: u64 = 268435456;

/// The choices a clone is made with.
#[derive(Clone, Copy, Debug)]
pub struct Options {
    pub fallback: Fallback,
    /// Available space that must remain on the destination filesystem.
    pub min_free_bytes: u64,
    /// Leave a failed stage in place (for diagnosis) instead of removing it.
    pub keep_failed_stage: bool,
}

impl Default for Options {
    /// No byte copies, a 256 MiB floor, failed stages removed.
    fn default() -> (r: Options)
        ensures
            r.fallback == Fallback::Fail,
            r.min_free_bytes == DEFAULT_MIN_FREE_BYTES,
            !r.keep_failed_stage,
    {
        Options { fallback: Fallback::Fail, min_free_bytes: DEFAULT_MIN_FREE_BYTES, keep_failed_stage: false }
    }
}

} // verus!
