//! Handles to the images that the renderer draws.
use vstd::prelude::*;

verus! {

/// Handle of the ball's image.
pub const FACE: u32 = 0;

/// Handle of the image of a brick that can be destroyed.
pub const BLOCK: u32 = 1;

/// Handle of the image of a solid brick.
pub const BLOCK_SOLID: u32 = 2;

/// Handle of the background image.
pub const BACKGROUND: u32 = 3;

/// Handle of the paddle's image.
pub const PADDLE: u32 = 4;

/// An image of the renderer, known to the simulation by its handle only.
#[derive(Clone, Copy, Debug, PartialEq, Eq, Structural)]
pub struct Texture {
    pub id: u32,
}

} // verus!
