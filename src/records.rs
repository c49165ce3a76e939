use vstd::prelude::*;

verus! {

/// Size in bytes of one sprite record as laid out in the GPU sprite array.
pub const SPRITE_BYTES: u64 = 32;

/// Size in bytes of the camera record as laid out in the GPU uniform buffer.
pub const CAMERA_BYTES: u64 = 16;

/// One quad: where it goes on screen and which part of the sprite sheet it shows.
///
/// Each component is the bit pattern of a 32-bit float (`f32::to_bits`), which
/// is exactly what the GPU reads. The sheet region is in normalised texture
/// coordinates; keeping it within `[0, 1]` is up to the caller.
#[derive(Clone, Copy, Debug, PartialEq, Eq)]
pub struct GPUSprite {
    pub screen_region: [u32; 4],
    pub sheet_region: [u32; 4],
}

/// A 2D view: the world-space window that is mapped onto the output surface.
///
/// Each component is the bit pattern of a 32-bit float.
#[derive(Clone, Copy, Debug, PartialEq, Eq)]
pub struct GPUCamera {
    pub screen_pos: [u32; 2],
    pub screen_size: [u32; 2],
}

impl GPUSprite {
    pub fn new(screen_region: [u32; 4], sheet_region: [u32; 4]) -> (r: GPUSprite)
        ensures
            r.screen_region == screen_region,
            r.sheet_region == sheet_region,
    {
        GPUSprite { screen_region, sheet_region }
    }
}

impl GPUCamera {
    pub fn new(screen_pos: [u32; 2], screen_size: [u32; 2]) -> (r: GPUCamera)
        ensures
            r.screen_pos == screen_pos,
            r.screen_size == screen_size,
    {
        GPUCamera { screen_pos, screen_size }
    }
}

} // verus!
