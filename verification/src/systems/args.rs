//! Configuration of the pipeline.

use vstd::prelude::*;

verus! {

/// The largest number of frames per second, or no limit at all.
#[derive(Debug, Clone, Copy, PartialEq, Eq, PartialOrd, Ord, Structural)]
pub struct FpsLimit(u32);

/// From this many frames per second on, [`FpsLimit::new`] sets no limit.
pub const UNLIMITED_FROM: u32 = 1000;

impl FpsLimit {
    /// The limit in frames per second; `None` where there is none.
    pub open spec fn limit(self) -> Option<u32> {
        if self.spec_fps() == 0 {
            None
        } else {
            Some(self.spec_fps())
        }
    }

    /// The stored number: the limit, or zero for no limit.
    pub closed spec fn spec_fps(self) -> u32 {
        self.0
    }

    /// A limit of `fps` frames per second; none where `fps` is zero or at
    /// least [`UNLIMITED_FROM`].
    pub fn new(fps: u32) -> (limit: Self)
        ensures
            limit.limit() == if fps == 0 || fps >= UNLIMITED_FROM {
                None
            } else {
                Some(fps)
            },
    {
        if fps == 0 || fps >= UNLIMITED_FROM {
            Self::unlimited()
        } else {
            FpsLimit(fps)
        }
    }

    /// No limit.
    pub fn unlimited() -> (limit: Self)
        ensures
            limit.limit() is None,
    {
        FpsLimit(0)
    }

    /// A limit of exactly `fps` frames per second, however large; `None` for zero.
    pub fn limited(fps: u32) -> (limit: Option<Self>)
        ensures
            limit is Some == (fps != 0),
            limit matches Some(l) ==> l.limit() == Some(fps),
    {
        if fps == 0 {
            None
        } else {
            Some(FpsLimit(fps))
        }
    }

    /// The limit in frames per second; `None` where there is none.
    #[verifier::when_used_as_spec(limit)]
    pub fn fps(self) -> (fps: Option<u32>)
        ensures
            fps == self.limit(),
    {
        if self.0 == 0 {
            None
        } else {
            Some(self.0)
        }
    }
}

impl Default for FpsLimit {
    /// Sixty frames per second.
    fn default() -> (limit: Self)
        ensures
            limit.limit() == Some(60u32),
    {
        FpsLimit::new(60)
    }
}

} // verus!
