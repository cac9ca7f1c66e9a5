use home::level::LevelRenderTargets;
use home::terrain::TerrainImage;

#[test]
fn blank_image_is_fully_transparent() {
    let img = TerrainImage::new_blank(4, 3);
    assert_eq!(img.width, 4);
    assert_eq!(img.height, 3);
    assert_eq!(img.alpha.len(), 12);
    for &a in img.alpha.iter() {
        assert_eq!(a, 0);
    }
}

#[test]
fn set_presence_changes_one_pixel_only() {
    let mut img = TerrainImage::new_blank(4, 4);
    img.set_presence(2, 1, 200);
    assert_eq!(img.presence_at(2, 1), 200);
    for y in 0..4 {
        for x in 0..4 {
            if !(x == 2 && y == 1) {
                assert_eq!(img.presence_at(x, y), 0);
            }
        }
    }
}

#[test]
fn clone_image_copies_every_pixel() {
    let mut img = TerrainImage::new_blank(3, 3);
    img.set_presence(0, 0, 7);
    img.set_presence(2, 2, 255);
    let copy = img.clone_image();
    assert_eq!(copy.width, img.width);
    assert_eq!(copy.height, img.height);
    assert_eq!(copy.alpha, img.alpha);
}

#[test]
fn paint_active_leaves_stable_untouched() {
    let blank = TerrainImage::new_blank(8, 8);
    let mut pair = LevelRenderTargets::new(&blank);
    pair.paint_active(3, 3, 255);
    // The stable member never sees a write aimed at the active one.
    assert_eq!(pair.stable().presence_at(3, 3), 0);
}

#[test]
fn swap_exposes_the_freshly_rendered_target() {
    let blank = TerrainImage::new_blank(8, 8);
    let mut pair = LevelRenderTargets::new(&blank);
    pair.paint_active(5, 2, 128);
    pair.swap();
    // After the swap the edit drawn last frame is the stable contents.
    assert_eq!(pair.stable().presence_at(5, 2), 128);
    // Swapping back hides it again.
    pair.swap();
    assert_eq!(pair.stable().presence_at(5, 2), 0);
}

#[test]
fn redraw_active_copies_the_stable_contents() {
    let blank = TerrainImage::new_blank(8, 8);
    let mut pair = LevelRenderTargets::new(&blank);
    pair.paint_active(1, 1, 50);
    pair.swap();
    // Base render pass: the next frame starts from the stable terrain.
    pair.redraw_active();
    pair.swap();
    assert_eq!(pair.stable().presence_at(1, 1), 50);
}
