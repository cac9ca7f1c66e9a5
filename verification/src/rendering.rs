//! Render-layer assignment for the game's cameras.
//!
//! The level terrain is drawn on its own layer so that the level camera can
//! render it into the off-screen target pair, while the main camera
//! composites both layers into the final view.

use vstd::prelude::*;

verus! {

/// The render layers the game uses.
#[derive(Clone, Copy, PartialEq, Eq, Structural, Debug)]
pub enum GameRenderLayers {
    /// Sprites and UI, rendered by the main camera.
    Main,
    /// The level terrain, rendered into the off-screen target pair.
    Terrain,
}

impl GameRenderLayers {
    /// The numeric index of the layer.
    pub open spec fn spec_layer(self) -> usize {
        match self {
            GameRenderLayers::Main => 0usize,
            GameRenderLayers::Terrain => 1usize,
        }
    }

    /// Return the numeric index of the layer.
    pub fn layer(self) -> (index: usize)
        ensures
            index == self.spec_layer(),
    {
        match self {
            GameRenderLayers::Main => 0,
            GameRenderLayers::Terrain => 1,
        }
    }
}

} // verus!
