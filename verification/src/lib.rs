//! Pixel-accurate collision detection between moving actors and a deformable,
//! texture-represented terrain.
//!
//! The terrain lives in a double-buffered ("ping-pong") pair of render
//! targets: each frame one member is drawn into while the other is stable and
//! safe to read.  A format-converted snapshot of the stable target feeds a
//! per-slot collision kernel, which samples the terrain's presence channel at
//! every actor's position and writes one result word per position slot.  A
//! state updater consumes those results and flips falling actors to walking
//! when they stand on solid terrain.
//!
//! The crate models every buffer with plain integers so that the whole
//! pipeline — buffer building, snapshot refresh, kernel, readback and state
//! update — is specified and verified end to end.

pub mod buffers;
pub mod kernel;
pub mod level;
pub mod pipeline;
pub mod rendering;
pub mod snapshot;
pub mod terrain;
pub mod yup;
