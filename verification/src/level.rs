//! The double-buffered pair of level render targets.
//!
//! One member of the pair is the active render destination for the current
//! frame; the other is stable: safe to display, sample and snapshot because
//! nothing writes into it this frame.  After a frame's rendering is complete
//! the roles swap.  The two slots are private, so a reader can only ever
//! reach the stable member and a writer only the active one — the
//! single-writer discipline is enforced by this type, not by convention.

use vstd::prelude::*;

use crate::terrain::TerrainImage;

verus! {

/// The two terrain render targets and which of them is currently active.
pub struct LevelRenderTargets {
    first: TerrainImage,
    second: TerrainImage,
    active_is_first: bool,
}

impl LevelRenderTargets {
    /// The target currently being rendered into.
    pub closed spec fn active_img(self) -> TerrainImage {
        if self.active_is_first {
            self.first
        } else {
            self.second
        }
    }

    /// The target not rendered into this frame: safe to read.
    pub closed spec fn stable_img(self) -> TerrainImage {
        if self.active_is_first {
            self.second
        } else {
            self.first
        }
    }

    /// Both members are well-formed images of the same dimensions.
    pub open spec fn wf(self) -> bool {
        &&& self.active_img().wf()
        &&& self.stable_img().wf()
        &&& self.active_img().width == self.stable_img().width
        &&& self.active_img().height == self.stable_img().height
    }

    /// Width shared by both targets.
    pub open spec fn spec_width(self) -> usize {
        self.stable_img().width
    }

    /// Height shared by both targets.
    pub open spec fn spec_height(self) -> usize {
        self.stable_img().height
    }

    /// Seed both members with identical copies of `initial`, so that a reader
    /// never observes an unformatted target.
    pub fn new(initial: &TerrainImage) -> (pair: LevelRenderTargets)
        requires
            initial.wf(),
        ensures
            pair.wf(),
            pair.active_img().same_pixels(*initial),
            pair.stable_img().same_pixels(*initial),
    {
        LevelRenderTargets {
            first: initial.clone_image(),
            second: initial.clone_image(),
            active_is_first: true,
        }
    }

    /// Read-only view of the stable target.
    pub fn stable(&self) -> (img: &TerrainImage)
        ensures
            *img == self.stable_img(),
    {
        if self.active_is_first {
            &self.second
        } else {
            &self.first
        }
    }

    /// Redraw the active target from the stable one, pixel for pixel — the
    /// base render pass of a frame, before any terrain edits.
    pub fn redraw_active(&mut self)
        requires
            old(self).wf(),
        ensures
            final(self).wf(),
            final(self).stable_img() == old(self).stable_img(),
            final(self).active_img().same_pixels(old(self).stable_img()),
    {
        if self.active_is_first {
            self.first = self.second.clone_image();
        } else {
            self.second = self.first.clone_image();
        }
    }

    /// Write one presence byte into the active target — a terrain edit drawn
    /// during this frame's render pass.  The stable target is untouched.
    pub fn paint_active(&mut self, x: usize, y: usize, value: u8)
        requires
            old(self).wf(),
            x < old(self).spec_width(),
            y < old(self).spec_height(),
        ensures
            final(self).wf(),
            final(self).stable_img() == old(self).stable_img(),
            final(self).active_img().width == old(self).active_img().width,
            final(self).active_img().height == old(self).active_img().height,
            final(self).active_img().presence(x as int, y as int) == value,
            forall|i: int, j: int|
                old(self).active_img().in_bounds(i, j) && !(i == x && j == y)
                    ==> final(self).active_img().presence(i, j) == old(self).active_img().presence(
                    i,
                    j,
                ),
    {
        if self.active_is_first {
            self.first.set_presence(x, y, value);
        } else {
            self.second.set_presence(x, y, value);
        }
    }

    /// Exchange the roles of the two targets, after this frame's rendering is
    /// complete: the freshly rendered target becomes stable, the old stable
    /// one becomes the next frame's render destination.
    pub fn swap(&mut self)
        ensures
            final(self).stable_img() == old(self).active_img(),
            final(self).active_img() == old(self).stable_img(),
    {
        self.active_is_first = !self.active_is_first;
    }
}

} // verus!
