//! The collision compute kernel.
//!
//! One dispatch covers every position slot, live or not: the kernel reads a
//! slot's pixel coordinates, samples the presence channel of the terrain
//! snapshot at that pixel, and writes `1` into the corresponding result slot
//! when the presence value exceeds the threshold, else `0`.  A coordinate
//! outside the snapshot bounds never counts as a collision.

use vstd::prelude::*;

use crate::buffers::{CollisionsBuffer, PositionSlot, YupBuffer};
use crate::terrain::TerrainImage;

verus! {

/// The presence channel at `(x, y)` marks solid terrain: the pixel is in
/// bounds and its presence value exceeds `threshold`.
pub open spec fn presence_above(terrain: TerrainImage, x: int, y: int, threshold: u8) -> bool {
    terrain.in_bounds(x, y) && terrain.presence(x, y) > threshold
}

/// The word the kernel writes for `slot`: `1` exactly when the slot's pixel
/// is solid terrain, else `0`.
pub open spec fn slot_result(terrain: TerrainImage, slot: PositionSlot, threshold: u8) -> u32 {
    if presence_above(terrain, slot.x as int, slot.y as int, threshold) {
        1u32
    } else {
        0u32
    }
}

/// Run the kernel over every position slot: exactly one result word per
/// slot, `1` where the snapshot's presence exceeds the threshold at the
/// slot's pixel and `0` everywhere else, unused slots included.
pub fn dispatch(
    terrain: &TerrainImage,
    positions: &YupBuffer,
    results: &mut CollisionsBuffer,
    threshold: u8,
)
    requires
        terrain.wf(),
        old(results).words@.len() == positions.slots@.len(),
    ensures
        final(results).words@.len() == old(results).words@.len(),
        forall|i: int|
            0 <= i < positions.slots@.len() ==> #[trigger] final(results).words@[i] == slot_result(
                *terrain,
                positions.slots@[i],
                threshold,
            ),
        final(results).all_flags(),
{
    let count: usize = positions.slots.len();
    let mut i: usize = 0;
    while i < count
        invariant
            i <= count,
            count == positions.slots@.len(),
            count == results.words@.len(),
            terrain.wf(),
            forall|j: int|
                0 <= j < i ==> #[trigger] results.words@[j] == slot_result(
                    *terrain,
                    positions.slots@[j],
                    threshold,
                ),
        decreases count - i,
    {
        let slot = positions.slots[i];
        let hit: bool = sample_hit(terrain, slot, threshold);
        results.words[i] = if hit {
            1u32
        } else {
            0u32
        };
        i = i + 1;
    }
}

/// Sample the presence channel at one slot's pixel and compare it with the
/// threshold.
fn sample_hit(terrain: &TerrainImage, slot: PositionSlot, threshold: u8) -> (hit: bool)
    requires
        terrain.wf(),
    ensures
        hit == presence_above(*terrain, slot.x as int, slot.y as int, threshold),
{
    if slot.x >= 0 && slot.y >= 0 {
        let xu: u64 = slot.x as u64;
        let yu: u64 = slot.y as u64;
        if xu < terrain.width as u64 && yu < terrain.height as u64 {
            terrain.presence_at(xu as usize, yu as usize) > threshold
        } else {
            false
        }
    } else {
        false
    }
}

} // verus!
