use home::buffers::{CollisionsBuffer, PositionSlot, YupBuffer};
use home::kernel::dispatch;
use home::terrain::TerrainImage;

fn slot(x: i64, y: i64, id: u32) -> PositionSlot {
    PositionSlot { x, y, actor_id: id, pad: 0 }
}

fn buffer_with(slots: Vec<PositionSlot>) -> YupBuffer {
    let mut buf = YupBuffer::new(slots.len());
    for (i, s) in slots.into_iter().enumerate() {
        buf.slots[i] = s;
    }
    buf
}

/// A 32x32 terrain whose 10x10 square at the origin is fully opaque.
fn opaque_square_terrain() -> TerrainImage {
    let mut img = TerrainImage::new_blank(32, 32);
    for y in 0..10 {
        for x in 0..10 {
            img.set_presence(x, y, 255);
        }
    }
    img
}

#[test]
fn kernel_flags_slots_inside_the_opaque_square() {
    let terrain = opaque_square_terrain();
    let positions = buffer_with(vec![
        slot(0, 0, 1),   // corner of the square
        slot(9, 9, 2),   // far corner, still inside
        slot(5, 3, 3),   // interior
        slot(10, 5, 4),  // just past the right edge
        slot(5, 10, 5),  // just past the bottom edge
        slot(31, 31, 6), // transparent far corner
    ]);
    let mut results = CollisionsBuffer::new(6);
    dispatch(&terrain, &positions, &mut results, 0);
    assert_eq!(results.words, vec![1, 1, 1, 0, 0, 0]);
}

#[test]
fn kernel_never_flags_out_of_bounds_slots() {
    let terrain = opaque_square_terrain();
    let positions = buffer_with(vec![
        slot(-1, 0, 1),
        slot(0, -1, 2),
        slot(32, 0, 3),
        slot(0, 32, 4),
        slot(-1000000, 5000000, 5),
    ]);
    let mut results = CollisionsBuffer::new(5);
    dispatch(&terrain, &positions, &mut results, 0);
    assert_eq!(results.words, vec![0, 0, 0, 0, 0]);
}

#[test]
fn kernel_respects_the_presence_threshold() {
    let mut terrain = TerrainImage::new_blank(8, 8);
    terrain.set_presence(1, 1, 40); // exactly the threshold: not solid
    terrain.set_presence(2, 2, 41); // one above: solid
    let positions = buffer_with(vec![slot(1, 1, 1), slot(2, 2, 2)]);
    let mut results = CollisionsBuffer::new(2);
    dispatch(&terrain, &positions, &mut results, 40);
    assert_eq!(results.words, vec![0, 1]);
}

#[test]
fn kernel_covers_unused_zero_slots_without_false_positives() {
    // The zero slot samples pixel (0, 0); with that pixel transparent the
    // unused slots past the live count must stay 0.
    let mut terrain = TerrainImage::new_blank(8, 8);
    terrain.set_presence(4, 4, 255);
    let mut positions = YupBuffer::new(4);
    positions.slots[0] = slot(4, 4, 7); // the only live actor
    let mut results = CollisionsBuffer::new(4);
    dispatch(&terrain, &positions, &mut results, 0);
    assert_eq!(results.words, vec![1, 0, 0, 0]);
}

#[test]
fn kernel_overwrites_stale_results() {
    let terrain = opaque_square_terrain();
    let positions = buffer_with(vec![slot(31, 31, 1)]);
    let mut results = CollisionsBuffer::new(1);
    results.words[0] = 1; // stale flag from an earlier frame
    dispatch(&terrain, &positions, &mut results, 0);
    assert_eq!(results.words, vec![0]);
}
