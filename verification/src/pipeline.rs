//! The per-frame collision pipeline.
//!
//! A [`CollisionWorld`] owns the double-buffered render targets, the terrain
//! snapshot and the two GPU-facing buffers, and drives one collision cycle
//! per frame: rebuild the position buffer, refresh the snapshot from the
//! stable target, run the kernel over every slot, and apply the results to
//! the actors.  Before a level has loaded there is no render target pair;
//! the cycle then skips the compute pass entirely and leaves every actor and
//! every buffer untouched, rather than failing.

use vstd::prelude::*;

use crate::buffers::{CollisionsBuffer, PositionSlot, YupBuffer, slot_matches};
use crate::kernel::{dispatch, presence_above, slot_result};
use crate::level::LevelRenderTargets;
use crate::snapshot::{CollisionsTerrain, refreshed_from};
use crate::terrain::TerrainImage;
use crate::yup::{CharacterState, STEP_LIMIT, Yup, step_in_range};

verus! {

/// The pipeline's tunables: actor capacity, terrain dimensions, the presence
/// threshold, and the world-to-texture view offset.
#[derive(Clone, Copy, PartialEq, Eq, Structural, Debug)]
pub struct CollisionConfig {
    /// Maximum number of concurrent actors; the fixed size of both buffers
    /// and of every kernel dispatch.
    pub capacity: usize,
    /// Terrain texture width in pixels.
    pub width: usize,
    /// Terrain texture height in pixels.
    pub height: usize,
    /// Presence value above which a pixel counts as solid terrain.
    pub threshold: u8,
    /// Horizontal world-to-texture offset, added to an actor's x coordinate.
    pub offset_x: i64,
    /// Vertical world-to-texture offset; an actor's pixel row is this offset
    /// minus its world y coordinate (the vertical axis flips).
    pub offset_y: i64,
}

impl CollisionConfig {
    /// The configuration is usable: nonempty buffers and terrain, a presence
    /// array that fits in memory, and offsets in the accepted range.
    pub open spec fn valid(self) -> bool {
        &&& 1 <= self.capacity
        &&& 1 <= self.width
        &&& 1 <= self.height
        &&& self.width * self.height <= usize::MAX
        &&& step_in_range(self.offset_x as int)
        &&& step_in_range(self.offset_y as int)
    }

    /// Decide validity at run time.
    pub fn check_valid(&self) -> (ok: bool)
        ensures
            ok == self.valid(),
    {
        1 <= self.capacity && 1 <= self.width && 1 <= self.height && self.width.checked_mul(
            self.height,
        ).is_some() && -STEP_LIMIT <= self.offset_x && self.offset_x <= STEP_LIMIT
            && -STEP_LIMIT <= self.offset_y && self.offset_y <= STEP_LIMIT
    }
}

impl Default for CollisionConfig {
    /// The stock configuration: one hundred actors, a 2560 by 1440 terrain,
    /// a zero presence threshold, and the view offset of a 1280 by 720
    /// window.
    fn default() -> (config: CollisionConfig)
        ensures
            config == (CollisionConfig {
                capacity: 100usize,
                width: 2560usize,
                height: 1440usize,
                threshold: 0u8,
                offset_x: 1280i64,
                offset_y: 720i64,
            }),
            config.valid(),
    {
        CollisionConfig {
            capacity: 100,
            width: 2560,
            height: 1440,
            threshold: 0,
            offset_x: 1280,
            offset_y: 720,
        }
    }
}

/// Why the pipeline refused to start.
#[derive(Clone, Copy, PartialEq, Eq, Structural, Debug)]
pub enum StartupError {
    /// The configuration itself is unusable.
    InvalidConfig,
    /// More live actors than the configured capacity; starting anyway would
    /// silently drop actors and miss collisions.
    CapacityExceeded,
}

/// The actor `yup` stands on solid terrain under configuration `config`:
/// the presence channel of `terrain`, sampled at the actor's slot pixel,
/// exceeds the threshold.
pub open spec fn yup_hits(terrain: TerrainImage, yup: Yup, config: CollisionConfig) -> bool {
    presence_above(
        terrain,
        yup.x + config.offset_x,
        config.offset_y - yup.y,
        config.threshold,
    )
}

/// The state an actor leaves a frame cycle with: a falling actor standing
/// on solid terrain starts walking; any other actor keeps its state.  In
/// particular a walking actor never returns to falling here — that reverse
/// transition belongs to an external grounding system.
pub open spec fn updated_state(
    terrain: TerrainImage,
    yup: Yup,
    config: CollisionConfig,
) -> CharacterState {
    if yup.state is Falling && yup_hits(terrain, yup, config) {
        CharacterState::Walking
    } else {
        yup.state
    }
}

/// Slot correspondence: when position slot `slot` was built from actor
/// `yup`, the kernel's result word for that slot decides exactly that
/// actor's collision — whichever slot the actor was assigned this frame.
pub proof fn lemma_slot_correspondence(
    terrain: TerrainImage,
    slot: PositionSlot,
    yup: Yup,
    config: CollisionConfig,
)
    requires
        slot_matches(slot, yup, config.offset_x, config.offset_y),
    ensures
        slot_result(terrain, slot, config.threshold) == (if yup_hits(terrain, yup, config) {
            1u32
        } else {
            0u32
        }),
{
}

/// Round trip: a falling actor whose position slot maps to a solid terrain
/// pixel is walking after one full frame cycle, and a later cycle — over any
/// terrain — never takes it back to falling on its own.
pub proof fn lemma_round_trip(
    terrain: TerrainImage,
    next_terrain: TerrainImage,
    yup: Yup,
    landed: Yup,
    config: CollisionConfig,
)
    requires
        yup.state is Falling,
        yup_hits(terrain, yup, config),
        landed.state == updated_state(terrain, yup, config),
    ensures
        landed.state is Walking,
        updated_state(next_terrain, landed, config) is Walking,
{
}

/// Apply the collision results to the actors: an actor whose result word is
/// `1` and whose state is `Falling` transitions to `Walking`.  No other
/// transition happens here, and no position or speed ever changes.
pub fn update_states(yups: &mut Vec<Yup>, results: &CollisionsBuffer)
    requires
        old(yups)@.len() <= results.words@.len(),
    ensures
        final(yups)@.len() == old(yups)@.len(),
        forall|i: int|
            0 <= i < old(yups)@.len() ==> {
                let before = old(yups)@[i];
                let after = #[trigger] final(yups)@[i];
                &&& after.id == before.id
                &&& after.x == before.x
                &&& after.y == before.y
                &&& after.speed == before.speed
                &&& after.state == (if results.words@[i] == 1u32 && before.state is Falling {
                    CharacterState::Walking
                } else {
                    before.state
                })
            },
{
    let n: usize = yups.len();
    let mut i: usize = 0;
    while i < n
        invariant
            i <= n,
            n == yups@.len(),
            n <= results.words@.len(),
            forall|j: int| i <= j < n ==> yups@[j] == old(yups)@[j],
            forall|j: int|
                0 <= j < i ==> {
                    let before = old(yups)@[j];
                    let after = #[trigger] yups@[j];
                    &&& after.id == before.id
                    &&& after.x == before.x
                    &&& after.y == before.y
                    &&& after.speed == before.speed
                    &&& after.state == (if results.words@[j] == 1u32 && before.state is Falling {
                        CharacterState::Walking
                    } else {
                        before.state
                    })
                },
        decreases n - i,
    {
        let hit: bool = results.words[i] == 1;
        if hit {
            match yups[i].state {
                CharacterState::Falling => {
                    yups[i].state = CharacterState::Walking;
                },
                CharacterState::Walking => {
                },
            }
        }
        i = i + 1;
    }
}

/// Everything the collision pipeline owns.
pub struct CollisionWorld {
    /// The tunables the world was started with.
    pub config: CollisionConfig,
    /// The double-buffered render targets; `None` until a level has loaded.
    pub targets: Option<LevelRenderTargets>,
    /// The terrain snapshot the kernel samples.
    pub snapshot: CollisionsTerrain,
    /// The per-actor position buffer, rebuilt every tick.
    pub positions: YupBuffer,
    /// The per-slot collision results most recently available; stale frames
    /// keep the previous contents rather than blocking.
    pub results: CollisionsBuffer,
}

impl CollisionWorld {
    /// The world's invariant: a valid configuration, buffers sized to the
    /// capacity, flag-valued results, targets of the configured dimensions,
    /// and — until a level has loaded — an unrefreshed snapshot and all-zero
    /// results, so that a frame before the first level cannot alter any
    /// actor.
    pub open spec fn wf(self) -> bool {
        &&& self.config.valid()
        &&& self.snapshot.wf()
        &&& self.positions.slots@.len() == self.config.capacity
        &&& self.results.words@.len() == self.config.capacity
        &&& self.results.all_flags()
        &&& match self.targets {
            Some(pair) => {
                &&& pair.wf()
                &&& pair.spec_width() == self.config.width
                &&& pair.spec_height() == self.config.height
            },
            None => {
                &&& !self.snapshot.ready
                &&& self.results.all_zero()
            },
        }
    }

    /// Start the pipeline.  Fails fast — before any frame runs — when the
    /// configuration is unusable or when the live actor count already
    /// exceeds the capacity; silently truncating actors would produce
    /// undetectable missed collisions.
    pub fn new(config: CollisionConfig, live_actors: usize) -> (result: Result<
        CollisionWorld,
        StartupError,
    >)
        ensures
            result is Ok <==> config.valid() && live_actors <= config.capacity,
            !config.valid() ==> result == Result::<CollisionWorld, StartupError>::Err(
                StartupError::InvalidConfig,
            ),
            config.valid() && live_actors > config.capacity ==> result == Result::<
                CollisionWorld,
                StartupError,
            >::Err(StartupError::CapacityExceeded),
            result matches Ok(world) ==> {
                &&& world.wf()
                &&& world.config == config
                &&& world.targets is None
                &&& world.snapshot.version == 0u64
            },
    {
        if !config.check_valid() {
            return Err(StartupError::InvalidConfig);
        }
        if live_actors > config.capacity {
            return Err(StartupError::CapacityExceeded);
        }
        Ok(
            CollisionWorld {
                config,
                targets: None,
                snapshot: CollisionsTerrain::new_blank(config.width, config.height),
                positions: YupBuffer::new(config.capacity),
                results: CollisionsBuffer::new(config.capacity),
            },
        )
    }

    /// Install a level's terrain: both render targets become identical
    /// copies of `terrain`, so no reader ever observes an unformatted
    /// target.
    pub fn load_level(&mut self, terrain: &TerrainImage)
        requires
            old(self).wf(),
            terrain.wf(),
            terrain.width == old(self).config.width,
            terrain.height == old(self).config.height,
        ensures
            final(self).wf(),
            final(self).config == old(self).config,
            final(self).snapshot == old(self).snapshot,
            final(self).results == old(self).results,
            final(self).targets matches Some(pair) && pair.stable_img().same_pixels(*terrain)
                && pair.active_img().same_pixels(*terrain),
    {
        self.targets = Some(LevelRenderTargets::new(terrain));
    }

    /// Run one frame's collision cycle: rebuild the position buffer from the
    /// live actors, refresh the snapshot from the stable render target, run
    /// the kernel over every slot, and apply the fresh results to the
    /// actors.  Returns whether the kernel was dispatched.
    ///
    /// Before a level has loaded there is no stable target: the cycle then
    /// performs no work at all — no dispatch, no buffer change, no actor
    /// change — and reports `false`.
    pub fn frame_tick(&mut self, yups: &mut Vec<Yup>) -> (dispatched: bool)
        requires
            old(self).wf(),
            old(yups)@.len() <= old(self).config.capacity,
            forall|i: int| 0 <= i < old(yups)@.len() ==> (#[trigger] old(yups)@[i]).pos_in_range(),
            old(self).snapshot.version < u64::MAX,
        ensures
            final(self).wf(),
            final(self).config == old(self).config,
            final(self).targets == old(self).targets,
            final(yups)@.len() == old(yups)@.len(),
            dispatched == (old(self).targets is Some),
            old(self).targets is None ==> *final(self) == *old(self) && final(yups)@ == old(yups)@,
            old(self).targets matches Some(pair) ==> {
                let stable = pair.stable_img();
                &&& refreshed_from(final(self).snapshot, stable)
                &&& final(self).snapshot.version == old(self).snapshot.version + 1
                &&& forall|i: int|
                    0 <= i < old(yups)@.len() ==> slot_matches(
                        #[trigger] final(self).positions.slots@[i],
                        old(yups)@[i],
                        old(self).config.offset_x,
                        old(self).config.offset_y,
                    )
                &&& forall|i: int|
                    old(yups)@.len() <= i < old(self).config.capacity
                        ==> final(self).positions.slots@[i] == PositionSlot::zero_slot()
                &&& forall|i: int|
                    0 <= i < old(self).config.capacity ==> #[trigger] final(self).results.words@[i]
                        == slot_result(
                        stable,
                        final(self).positions.slots@[i],
                        old(self).config.threshold,
                    )
                &&& forall|i: int|
                    0 <= i < old(yups)@.len() ==> {
                        let before = old(yups)@[i];
                        let after = #[trigger] final(yups)@[i];
                        &&& after.id == before.id
                        &&& after.x == before.x
                        &&& after.y == before.y
                        &&& after.speed == before.speed
                        &&& after.state == updated_state(stable, before, old(self).config)
                    }
            },
    {
        match &self.targets {
            None => false,
            Some(pair) => {
                let stable = pair.stable();
                self.positions.build(yups, self.config.offset_x, self.config.offset_y);
                self.snapshot.refresh(stable);
                dispatch(&self.snapshot.image, &self.positions, &mut self.results,
                    self.config.threshold);
                update_states(yups, &self.results);
                true
            },
        }
    }

    /// Exchange the roles of the two render targets after this frame's
    /// rendering is complete.  Before a level has loaded there is nothing to
    /// swap and the world is unchanged.
    pub fn swap_targets(&mut self)
        requires
            old(self).wf(),
        ensures
            final(self).wf(),
            final(self).config == old(self).config,
            final(self).snapshot == old(self).snapshot,
            final(self).positions == old(self).positions,
            final(self).results == old(self).results,
            old(self).targets is None ==> *final(self) == *old(self),
            old(self).targets matches Some(pair) ==> final(self).targets matches Some(swapped)
                && swapped.stable_img() == pair.active_img() && swapped.active_img()
                == pair.stable_img(),
    {
        match &mut self.targets {
            None => {
            },
            Some(pair) => {
                pair.swap();
            },
        }
    }
}

} // verus!
