use pixelflut::protocol::Vec2;

#[test]
fn default_is_the_origin() {
    assert_eq!(Vec2::default(), Vec2 { x: 0, y: 0 });
}

#[test]
fn vectors_add_by_component() {
    assert_eq!(Vec2 { x: 1, y: 2 } + Vec2 { x: 30, y: 40 }, Vec2 { x: 31, y: 42 });
    assert_eq!(Vec2 { x: u32::MAX, y: 0 } + Vec2 { x: 0, y: u32::MAX }, Vec2 { x: u32::MAX, y: u32::MAX });
}

#[test]
fn checked_add_declines_what_leaves_the_grid() {
    assert_eq!(Vec2 { x: 1, y: 2 }.checked_add(Vec2 { x: 30, y: 40 }), Some(Vec2 { x: 31, y: 42 }));
    assert_eq!(Vec2 { x: u32::MAX, y: 0 }.checked_add(Vec2 { x: 1, y: 0 }), None);
    assert_eq!(Vec2 { x: 0, y: u32::MAX }.checked_add(Vec2 { x: 0, y: 1 }), None);
    assert_eq!(
        Vec2 { x: u32::MAX - 1, y: 5 }.checked_add(Vec2 { x: 1, y: 5 }),
        Some(Vec2 { x: u32::MAX, y: 10 })
    );
}
