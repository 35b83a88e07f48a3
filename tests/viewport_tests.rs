use omobab_terminal::viewport::{ViewportManager, WorldPos};

#[test]
fn origin_maps_to_screen_centre() {
    let v = ViewportManager::new(40, 40);
    let r = v.world_to_screen(WorldPos::new(0, 0), WorldPos::new(0, 0), 80, 24);
    assert_eq!(r, Some((40, 12)));
}

#[test]
fn offsets_round_to_nearest_cell() {
    let v = ViewportManager::new(40, 40);
    let cam = WorldPos::new(0, 0);
    assert_eq!(v.world_to_screen(WorldPos::new(4, 0), cam, 80, 24), Some((40, 12)));
    assert_eq!(v.world_to_screen(WorldPos::new(5, 0), cam, 80, 24), Some((41, 12)));
    // Halves round away from zero.
    assert_eq!(v.world_to_screen(WorldPos::new(-4, 0), cam, 80, 24), Some((40, 12)));
    assert_eq!(v.world_to_screen(WorldPos::new(-5, 0), cam, 80, 24), Some((39, 12)));
    assert_eq!(v.world_to_screen(WorldPos::new(-6, 0), cam, 80, 24), Some((39, 12)));
    assert_eq!(v.world_to_screen(WorldPos::new(-15, 0), cam, 80, 24), Some((38, 12)));
    assert_eq!(v.world_to_screen(WorldPos::new(123, -47), cam, 80, 24), Some((52, 7)));
}

#[test]
fn camera_offset_shifts_the_map() {
    let v = ViewportManager::new(40, 40);
    let cam = WorldPos::new(1000, -2000);
    assert_eq!(v.world_to_screen(WorldPos::new(1000, -2000), cam, 80, 24), Some((40, 12)));
    assert_eq!(v.world_to_screen(WorldPos::new(1100, -1990), cam, 80, 24), Some((50, 13)));
}

#[test]
fn off_screen_positions_are_not_drawn() {
    let v = ViewportManager::new(40, 40);
    let cam = WorldPos::new(0, 0);
    assert_eq!(v.world_to_screen(WorldPos::new(1000, 0), cam, 80, 24), None);
    assert_eq!(v.world_to_screen(WorldPos::new(0, -200), cam, 80, 24), None);
    assert_eq!(v.world_to_screen(WorldPos::new(0, 0), cam, 0, 0), None);
}

#[test]
fn screen_edge_is_consistent() {
    let v = ViewportManager::new(40, 40);
    let cam = WorldPos::new(0, 0);
    for _ in 0..3 {
        // Last column: offset 385..=394 rounds to 39 cells right of 40.
        assert_eq!(v.world_to_screen(WorldPos::new(394, 0), cam, 80, 24), Some((79, 12)));
        assert_eq!(v.world_to_screen(WorldPos::new(395, 0), cam, 80, 24), None);
        // First column: offset -404..=-395 rounds to 40 cells left of 40.
        assert_eq!(v.world_to_screen(WorldPos::new(-395, 0), cam, 80, 24), Some((0, 12)));
        assert_eq!(v.world_to_screen(WorldPos::new(-404, 0), cam, 80, 24), Some((0, 12)));
        assert_eq!(v.world_to_screen(WorldPos::new(-405, 0), cam, 80, 24), None);
    }
}

#[test]
fn screen_to_world_gives_cell_centre() {
    let v = ViewportManager::new(40, 40);
    let cam = WorldPos::new(7, -3);
    assert_eq!(v.screen_to_world(40, 12, cam, 80, 24), WorldPos::new(7, -3));
    assert_eq!(v.screen_to_world(0, 0, cam, 80, 24), WorldPos::new(-393, -123));
    assert_eq!(v.screen_to_world(79, 23, cam, 80, 24), WorldPos::new(397, 107));
}

#[test]
fn screen_to_world_holds_at_coordinate_bounds() {
    let v = ViewportManager::new(40, 40);
    let cam = WorldPos::new(i32::MAX - 3, i32::MIN + 3);
    let p = v.screen_to_world(79, 0, cam, 80, 24);
    assert_eq!(p, WorldPos::new(i32::MAX, i32::MIN));
}

#[test]
fn round_trip_stays_within_half_a_cell() {
    let v = ViewportManager::new(40, 40);
    let cam = WorldPos::new(13, -29);
    for x in -300..300 {
        for y in [-100, -37, 0, 4, 5, 88] {
            let p = WorldPos::new(x, y);
            if let Some((sx, sy)) = v.world_to_screen(p, cam, 80, 24) {
                let back = v.screen_to_world(sx as u16, sy as u16, cam, 80, 24);
                let dx = back.x - p.x;
                let dy = back.y - p.y;
                assert!(dx >= -5 && dx <= 5, "x {} -> {}", p.x, back.x);
                assert!(dy >= -5 && dy <= 5, "y {} -> {}", p.y, back.y);
            }
        }
    }
}
