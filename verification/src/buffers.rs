//! The GPU-facing buffers: per-actor position slots and per-slot results.
//!
//! Once per simulation tick the position buffer is rebuilt in full: slot `i`
//! holds the `i`-th live actor's position transformed into terrain-local
//! pixel coordinates, and every slot past the live count is zero-filled.
//! The results buffer holds one word per position slot, written by the
//! collision kernel: slot correspondence between the two buffers is
//! positional, and it is re-established fresh every tick by this rebuild.

use vstd::prelude::*;

use crate::yup::{Yup, coord_in_range, step_in_range};

verus! {

/// One position-buffer slot: terrain-local pixel coordinates, the actor's
/// id, and an alignment padding word that is always zero.
#[derive(Clone, Copy, PartialEq, Eq, Structural, Debug)]
pub struct PositionSlot {
    /// Horizontal pixel coordinate into the terrain snapshot.
    pub x: i64,
    /// Vertical pixel coordinate into the terrain snapshot; the world's
    /// vertical axis is flipped on the way in.
    pub y: i64,
    /// Stable id of the actor this slot describes.
    pub actor_id: u32,
    /// Alignment padding, always zero.
    pub pad: u32,
}

impl PositionSlot {
    /// The all-zero slot used past the live actor count.
    pub open spec fn zero_slot() -> PositionSlot {
        PositionSlot { x: 0, y: 0, actor_id: 0, pad: 0 }
    }

    /// Build the all-zero slot.
    pub fn zero() -> (slot: PositionSlot)
        ensures
            slot == PositionSlot::zero_slot(),
    {
        PositionSlot { x: 0, y: 0, actor_id: 0, pad: 0 }
    }
}

/// Transform a world position into terrain-local pixel coordinates: the
/// view offset is added and the vertical axis flips, because image rows grow
/// downwards while the world's vertical axis grows upwards.  The same
/// transform places actors and cursor edits onto the terrain.
pub fn world_to_texture(x: i64, y: i64, offset_x: i64, offset_y: i64) -> (pixel: (i64, i64))
    requires
        coord_in_range(x as int),
        coord_in_range(y as int),
        step_in_range(offset_x as int),
        step_in_range(offset_y as int),
    ensures
        pixel.0 == x + offset_x,
        pixel.1 == offset_y - y,
{
    (x + offset_x, offset_y - y)
}

/// `slot` describes `yup` under the world-to-texture transform: the view
/// offset is added and the vertical axis is flipped.
pub open spec fn slot_matches(slot: PositionSlot, yup: Yup, offset_x: i64, offset_y: i64) -> bool {
    &&& slot.x == yup.x + offset_x
    &&& slot.y == offset_y - yup.y
    &&& slot.actor_id == yup.id
    &&& slot.pad == 0
}

/// The fixed-capacity buffer of actor position slots uploaded to the
/// collision kernel each tick.
pub struct YupBuffer {
    /// The slots; the length is the buffer's capacity and never changes.
    pub slots: Vec<PositionSlot>,
}

impl YupBuffer {
    /// An all-zero buffer of `capacity` slots.
    pub fn new(capacity: usize) -> (buf: YupBuffer)
        ensures
            buf.slots@.len() == capacity,
            forall|i: int| 0 <= i < capacity ==> buf.slots@[i] == PositionSlot::zero_slot(),
    {
        let mut slots: Vec<PositionSlot> = Vec::new();
        let mut i: usize = 0;
        while i < capacity
            invariant
                i <= capacity,
                slots@.len() == i,
                forall|j: int| 0 <= j < i ==> slots@[j] == PositionSlot::zero_slot(),
            decreases capacity - i,
        {
            slots.push(PositionSlot::zero());
            i = i + 1;
        }
        YupBuffer { slots }
    }

    /// Rebuild the buffer in full for this tick: slot `i` receives the `i`-th
    /// live actor's position in terrain-local pixel coordinates, and every
    /// slot past the live count is zero-filled.  Slots are assigned by the
    /// enumeration order of `yups`, which re-establishes the positional
    /// correspondence with the results buffer for this tick.
    pub fn build(&mut self, yups: &Vec<Yup>, offset_x: i64, offset_y: i64)
        requires
            yups@.len() <= old(self).slots@.len(),
            step_in_range(offset_x as int),
            step_in_range(offset_y as int),
            forall|i: int| 0 <= i < yups@.len() ==> (#[trigger] yups@[i]).pos_in_range(),
        ensures
            final(self).slots@.len() == old(self).slots@.len(),
            forall|i: int|
                0 <= i < yups@.len() ==> slot_matches(
                    #[trigger] final(self).slots@[i],
                    yups@[i],
                    offset_x,
                    offset_y,
                ),
            forall|i: int|
                yups@.len() <= i < final(self).slots@.len() ==> final(self).slots@[i]
                    == PositionSlot::zero_slot(),
    {
        let capacity: usize = self.slots.len();
        let live: usize = yups.len();
        let mut i: usize = 0;
        while i < live
            invariant
                i <= live,
                live == yups@.len(),
                live <= capacity,
                capacity == self.slots@.len(),
                step_in_range(offset_x as int),
                step_in_range(offset_y as int),
                forall|j: int| 0 <= j < live ==> (#[trigger] yups@[j]).pos_in_range(),
                forall|j: int|
                    0 <= j < i ==> slot_matches(
                        #[trigger] self.slots@[j],
                        yups@[j],
                        offset_x,
                        offset_y,
                    ),
            decreases live - i,
        {
            let yup = yups[i];
            let pixel = world_to_texture(yup.x, yup.y, offset_x, offset_y);
            self.slots[i] = PositionSlot { x: pixel.0, y: pixel.1, actor_id: yup.id, pad: 0 };
            i = i + 1;
        }
        while i < capacity
            invariant
                live <= i <= capacity,
                live == yups@.len(),
                capacity == self.slots@.len(),
                forall|j: int|
                    0 <= j < live ==> slot_matches(
                        #[trigger] self.slots@[j],
                        yups@[j],
                        offset_x,
                        offset_y,
                    ),
                forall|j: int| live <= j < i ==> self.slots@[j] == PositionSlot::zero_slot(),
            decreases capacity - i,
        {
            self.slots[i] = PositionSlot::zero();
            i = i + 1;
        }
    }
}

/// The per-slot collision results: one word per position slot, `1` for a
/// detected collision and `0` otherwise.
pub struct CollisionsBuffer {
    /// The result words; the length is the buffer's capacity and never
    /// changes.
    pub words: Vec<u32>,
}

impl CollisionsBuffer {
    /// Every word is a boolean flag.
    pub open spec fn all_flags(self) -> bool {
        forall|i: int|
            0 <= i < self.words@.len() ==> #[trigger] self.words@[i] == 0u32 || self.words@[i]
                == 1u32
    }

    /// Every word is zero: no collision reported anywhere.
    pub open spec fn all_zero(self) -> bool {
        forall|i: int| 0 <= i < self.words@.len() ==> #[trigger] self.words@[i] == 0u32
    }

    /// An all-zero results buffer of `capacity` words.
    pub fn new(capacity: usize) -> (buf: CollisionsBuffer)
        ensures
            buf.words@.len() == capacity,
            buf.all_zero(),
            buf.all_flags(),
    {
        let mut words: Vec<u32> = Vec::new();
        let mut i: usize = 0;
        while i < capacity
            invariant
                i <= capacity,
                words@.len() == i,
                forall|j: int| 0 <= j < i ==> #[trigger] words@[j] == 0u32,
            decreases capacity - i,
        {
            words.push(0u32);
            i = i + 1;
        }
        CollisionsBuffer { words }
    }
}

} // verus!
