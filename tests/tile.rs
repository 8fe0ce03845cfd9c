use rfce::tile::Tile;

#[test]
fn color_test() {
    let t = Tile::from_slice(&[0; 16]).unwrap();
    assert_eq!(t.color_at(0, 0), 0);
    assert_eq!(t.color_at(7, 7), 0);
}

#[test]
fn tile_planes_combine() {
    let mut b = [0u8; 16];
    b[0] = 0b1000_0000;
    b[8] = 0b1100_0000;
    let t = Tile::from_slice(&b).unwrap();
    assert_eq!(t.color_at(0, 0), 3);
    assert_eq!(t.color_at(1, 0), 2);
    assert_eq!(t.color_at(2, 0), 0);
}

#[test]
fn tile_rejects_wrong_length() {
    assert!(Tile::from_slice(&[0; 15]).is_none());
    assert!(Tile::from_slice(&[0; 17]).is_none());
}
