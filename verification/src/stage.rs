//! The movie's native stage size, in whole pixels, from its header.
use vstd::prelude::*;

verus! {

/// Twips per pixel: SWF headers give lengths in twentieths of a pixel.
pub const TWIPS_PER_PIXEL: i32 = 20;

/// The whole-pixel extent of a stage side of `twips` twips: the pixel length
/// rounded up, and at least one pixel.
pub open spec fn extent_of(twips: int) -> int {
    if twips <= 20 {
        1
    } else {
        (twips + 19) / 20
    }
}

/// Pixels covering a stage side given in twips (rounded up, never zero).
pub fn stage_extent(twips: i32) -> (px: u32)
    ensures
        px as int == extent_of(twips as int),
{
    if twips <= TWIPS_PER_PIXEL {
        1
    } else {
        let t: u32 = twips as u32;
        (t + 19) / 20
    }
}

/// The native stage size of a movie, in pixels.
#[derive(Clone, Copy, Debug, PartialEq, Eq, Structural)]
pub struct Stage {
    pub width: u32,
    pub height: u32,
}

impl Stage {
    /// The stage of a movie whose header gives `width` x `height` twips.
    pub fn from_twips(width: i32, height: i32) -> (s: Stage)
        ensures
            s.width as int == extent_of(width as int),
            s.height as int == extent_of(height as int),
    {
        Stage { width: stage_extent(width), height: stage_extent(height) }
    }

    /// The movie's native stage size in pixels.
    pub fn size(&self) -> (r: (u32, u32))
        ensures
            r == (self.width, self.height),
    {
        (self.width, self.height)
    }
}

/// The extent is the least positive number of whole pixels that covers the
/// side: at least one pixel, at least the side's length, and one pixel less
/// would not cover it.
pub proof fn lemma_extent_is_least_cover(twips: int)
    ensures
        extent_of(twips) >= 1,
        20 * extent_of(twips) >= twips,
        extent_of(twips) > 1 ==> 20 * (extent_of(twips) - 1) < twips,
{
}

} // verus!
