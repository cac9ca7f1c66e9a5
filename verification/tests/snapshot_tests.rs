use home::snapshot::CollisionsTerrain;
use home::terrain::TerrainImage;

#[test]
fn blank_snapshot_is_not_ready() {
    let snap = CollisionsTerrain::new_blank(16, 16);
    assert!(!snap.ready);
    assert_eq!(snap.version, 0);
}

#[test]
fn refresh_copies_the_target_and_advances_the_version() {
    let mut target = TerrainImage::new_blank(16, 16);
    target.set_presence(4, 4, 255);
    let mut snap = CollisionsTerrain::new_blank(16, 16);
    snap.refresh(&target);
    assert!(snap.ready);
    assert_eq!(snap.version, 1);
    assert_eq!(snap.image.alpha, target.alpha);
}

#[test]
fn refresh_twice_from_same_target_is_bit_identical() {
    let mut target = TerrainImage::new_blank(16, 16);
    target.set_presence(1, 2, 10);
    target.set_presence(9, 9, 200);

    let mut snap = CollisionsTerrain::new_blank(16, 16);
    snap.refresh(&target);
    let first = snap.image.alpha.clone();

    // No intervening render: a second refresh reproduces the contents bit
    // for bit, even though the version advances.
    snap.refresh(&target);
    assert_eq!(snap.image.alpha, first);
    assert_eq!(snap.version, 2);
}

#[test]
fn refresh_tracks_terrain_deformation() {
    let mut target = TerrainImage::new_blank(16, 16);
    let mut snap = CollisionsTerrain::new_blank(16, 16);
    snap.refresh(&target);
    assert_eq!(snap.image.presence_at(3, 3), 0);

    target.set_presence(3, 3, 99);
    snap.refresh(&target);
    assert_eq!(snap.image.presence_at(3, 3), 99);
}
