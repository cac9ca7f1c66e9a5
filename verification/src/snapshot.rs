//! The collision terrain snapshot.
//!
//! The compute kernel must never read the target currently being rendered
//! into, so once per frame the stable render target is cloned into this
//! snapshot.  On a GPU the clone also converts the texture format, dropping
//! the display colour transform — only the presence channel matters for
//! collisions, and that channel is copied unchanged.  A content version
//! advances with every refresh, so a consumer can tell that the snapshot's
//! contents changed even though its identity is stable, and rebuild its
//! bindings every frame instead of caching them.

use vstd::prelude::*;

use crate::terrain::TerrainImage;

verus! {

/// The terrain copy used as the source of truth for collision detection.
pub struct CollisionsTerrain {
    /// Presence contents cloned from the stable render target.
    pub image: TerrainImage,
    /// Content version; advances on every refresh.
    pub version: u64,
    /// Whether the snapshot has been refreshed from a render target at least
    /// once.  Until then the compute pass must be skipped.
    pub ready: bool,
}

/// The snapshot holds exactly the pixel contents of `target` and is ready
/// for a compute pass.
pub open spec fn refreshed_from(snap: CollisionsTerrain, target: TerrainImage) -> bool {
    &&& snap.image.same_pixels(target)
    &&& snap.ready
}

impl CollisionsTerrain {
    /// The snapshot's image is well-formed.
    pub open spec fn wf(self) -> bool {
        self.image.wf()
    }

    /// A blank snapshot, not yet refreshed from any render target.
    pub fn new_blank(width: usize, height: usize) -> (snap: CollisionsTerrain)
        requires
            width * height <= usize::MAX,
        ensures
            snap.wf(),
            !snap.ready,
            snap.version == 0u64,
            snap.image.width == width,
            snap.image.height == height,
    {
        CollisionsTerrain {
            image: TerrainImage::new_blank(width, height),
            version: 0,
            ready: false,
        }
    }

    /// Clone the stable target's pixel content into the snapshot and advance
    /// the content version.  The snapshot is recreated, not cached: its
    /// contents after the call depend on `target` alone.
    pub fn refresh(&mut self, target: &TerrainImage)
        requires
            target.wf(),
            old(self).version < u64::MAX,
        ensures
            final(self).wf(),
            refreshed_from(*final(self), *target),
            final(self).version == old(self).version + 1,
    {
        self.image = target.clone_image();
        self.version = self.version + 1;
        self.ready = true;
    }
}

/// Refreshing is idempotent: two snapshots refreshed from the same stable
/// target, with no intervening render, hold bit-identical contents.
pub proof fn lemma_refresh_idempotent(
    a: CollisionsTerrain,
    b: CollisionsTerrain,
    target: TerrainImage,
)
    requires
        refreshed_from(a, target),
        refreshed_from(b, target),
    ensures
        a.image.same_pixels(b.image),
{
}

} // verus!
