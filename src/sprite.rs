//! Sprite records and the pseudo-depth that orders them.
use vstd::prelude::*;

verus! {

/// Number of coarse depth layers: a sprite on layer `l` has `depth_base = l / 4`.
pub const LAYER_COUNT: u8 = 4;

/// One sprite as it is handed to the GPU: a world position, an atlas rectangle,
/// a coarse layer and the vertical offset of its ground anchor.
///
/// Positions and sizes are whole pixels; the coarse depth is kept as the layer
/// index, so `depth_base` is exactly `layer / 4`.
#[derive(Clone, Copy, Debug, PartialEq, Eq, Structural)]
pub struct Sprite {
    pub top_left_x: i32,
    pub top_left_y: i32,
    pub tex_top_left_x: u32,
    pub tex_top_left_y: u32,
    pub width: u32,
    pub height: u32,
    pub layer: u8,
    pub origin_offset_y: u32,
}

/// Vertical position of the sprite's ground anchor.
pub open spec fn anchor_y(s: Sprite) -> int {
    s.top_left_y - s.origin_offset_y
}

/// The fractional term `0.2 * ((anchor_y / h) + 1) / 2` of the pseudo-depth,
/// multiplied by `20 * h`.
pub open spec fn band_offset(s: Sprite, h: nat) -> int {
    2 * anchor_y(s) + 2 * h
}

/// The coarse term `depth_base = layer / 4` of the pseudo-depth, multiplied by `20 * h`.
pub open spec fn layer_base(s: Sprite, h: nat) -> int {
    5 * (h * s.layer)
}

/// The pseudo-depth `depth_base + 0.2 * ((anchor_y / h) + 1) / 2` of a sprite,
/// for a half vertical resolution `h`, multiplied by `20 * h` so that it is an
/// integer. For `h > 0` the factor is positive and the same for every sprite of
/// a frame, so it orders sprites exactly as the pseudo-depth does.
pub open spec fn scaled_depth(s: Sprite, h: nat) -> int {
    layer_base(s, h) + band_offset(s, h)
}

impl Sprite {
    /// The sprite's pseudo-depth, scaled by `20 * height_resolution`.
    pub fn depth_key(&self, height_resolution: u32) -> (r: i64)
        ensures
            r == scaled_depth(*self, height_resolution as nat),
    {
        let h = height_resolution as i64;
        let layer = self.layer as i64;
        proof {
            assert(0 <= h * layer <= 0xffff_ffff * 255) by (nonlinear_arith)
                requires
                    0 <= h <= 0xffff_ffff,
                    0 <= layer <= 255,
            ;
        }
        let anchor = self.top_left_y as i64 - self.origin_offset_y as i64;
        5 * (h * layer) + 2 * anchor + 2 * h
    }
}


/// Layer banding, for ground anchors within the visible range `[-h, h]`: the
/// fractional term of a sprite's pseudo-depth is at most 0.2, so a layer-0
/// sprite stays below 0.2 while a layer-1 sprite is at least 0.25 and, for
/// `h > 0`, strictly deeper than any layer-0 sprite. (All values scaled by `20 * h`.)
pub proof fn lemma_layer_banding(a: Sprite, b: Sprite, h: nat)
    requires
        a.layer == 0,
        b.layer == 1,
        -h <= anchor_y(a) <= h,
        -h <= anchor_y(b) <= h,
    ensures
        0 <= band_offset(a, h) <= 4 * h,
        0 <= band_offset(b, h) <= 4 * h,
        scaled_depth(a, h) <= 4 * h,
        scaled_depth(b, h) >= 5 * h,
        h > 0 ==> scaled_depth(a, h) < scaled_depth(b, h),
{
}

} // verus!
