use home::buffers::{world_to_texture, CollisionsBuffer, PositionSlot, YupBuffer};
use home::rendering::GameRenderLayers;
use home::yup::Yup;

#[test]
fn new_position_buffer_is_zero_filled() {
    let buf = YupBuffer::new(5);
    assert_eq!(buf.slots.len(), 5);
    for s in buf.slots.iter() {
        assert_eq!(*s, PositionSlot { x: 0, y: 0, actor_id: 0, pad: 0 });
    }
}

#[test]
fn build_transforms_world_positions_into_pixel_slots() {
    let mut buf = YupBuffer::new(4);
    let yups = vec![Yup::spawn(11, 3, 4, 2), Yup::spawn(22, -1, -2, 2)];
    buf.build(&yups, 100, 50);
    // Slot x is world x plus the offset; slot y flips the vertical axis.
    assert_eq!(buf.slots[0], PositionSlot { x: 103, y: 46, actor_id: 11, pad: 0 });
    assert_eq!(buf.slots[1], PositionSlot { x: 99, y: 52, actor_id: 22, pad: 0 });
    // Slots past the live count are zero-filled.
    assert_eq!(buf.slots[2], PositionSlot { x: 0, y: 0, actor_id: 0, pad: 0 });
    assert_eq!(buf.slots[3], PositionSlot { x: 0, y: 0, actor_id: 0, pad: 0 });
}

#[test]
fn build_overwrites_every_slot_each_tick() {
    let mut buf = YupBuffer::new(3);
    let first = vec![Yup::spawn(1, 1, 1, 2), Yup::spawn(2, 2, 2, 2), Yup::spawn(3, 3, 3, 2)];
    buf.build(&first, 0, 0);
    assert_eq!(buf.slots[2].actor_id, 3);

    // The live set shrinks: the rebuild zero-fills the freed slots.
    let second = vec![Yup::spawn(4, 9, 9, 2)];
    buf.build(&second, 0, 0);
    assert_eq!(buf.slots[0], PositionSlot { x: 9, y: -9, actor_id: 4, pad: 0 });
    assert_eq!(buf.slots[1], PositionSlot { x: 0, y: 0, actor_id: 0, pad: 0 });
    assert_eq!(buf.slots[2], PositionSlot { x: 0, y: 0, actor_id: 0, pad: 0 });
}

#[test]
fn world_to_texture_adds_the_offset_and_flips_the_vertical_axis() {
    assert_eq!(world_to_texture(3, 4, 100, 50), (103, 46));
    assert_eq!(world_to_texture(0, 0, 1280, 720), (1280, 720));
    assert_eq!(world_to_texture(-640, 360, 1280, 720), (640, 360));
}

#[test]
fn new_results_buffer_is_all_zero() {
    let buf = CollisionsBuffer::new(7);
    assert_eq!(buf.words, vec![0; 7]);
}

#[test]
fn render_layers_have_distinct_indices() {
    assert_eq!(GameRenderLayers::Main.layer(), 0);
    assert_eq!(GameRenderLayers::Terrain.layer(), 1);
}
