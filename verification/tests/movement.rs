use wrath::motion::{confine, fall, fall_all, rise, rise_all, steer};
use wrath::screen::Screen;
use wrath::shape::Shape;
use wrath::units::{distance, saturating_coord, BULLET_SIZE, BULLET_SPEED};

fn shape(size: u32, speed: u32, x: i32, y: i32) -> Shape {
    Shape { size, speed, x, y, collided: false }
}

#[test]
fn distance_is_speed_times_time() {
    assert_eq!(distance(200_000, 16_000), 3_200);
    assert_eq!(distance(100_000, 500_000), 50_000);
    assert_eq!(distance(150_000, 1_000_000), 150_000);
    assert_eq!(distance(1, 999_999), 0);
    assert_eq!(distance(0, 5), 0);
    assert_eq!(distance(u32::MAX, u32::MAX), 18_446_744_065_119);
}

#[test]
fn coordinates_saturate() {
    assert_eq!(saturating_coord(5), 5);
    assert_eq!(saturating_coord(-5), -5);
    assert_eq!(saturating_coord(i64::MAX), i32::MAX);
    assert_eq!(saturating_coord(i64::MIN), i32::MIN);
    assert_eq!(saturating_coord(2_147_483_648), i32::MAX);
    assert_eq!(saturating_coord(-2_147_483_649), i32::MIN);
}

#[test]
fn player_moves_on_each_axis_on_its_own() {
    let p = shape(32_000, 200_000, 400_000, 300_000);
    let dt = 16_000;
    assert_eq!(steer(p, false, false, false, false, dt), p);
    assert_eq!(steer(p, false, true, false, false, dt), Shape { x: 403_200, ..p });
    assert_eq!(steer(p, true, false, false, false, dt), Shape { x: 396_800, ..p });
    assert_eq!(steer(p, false, false, true, false, dt), Shape { y: 296_800, ..p });
    assert_eq!(steer(p, false, false, false, true, dt), Shape { y: 303_200, ..p });
    // A diagonal covers the full step on both axes.
    assert_eq!(steer(p, false, true, false, true, dt), Shape { x: 403_200, y: 303_200, ..p });
    // Opposite keys cancel.
    assert_eq!(steer(p, true, true, true, true, dt), p);
}

#[test]
fn player_is_held_its_own_size_from_each_edge() {
    let screen = Screen::new(800_000, 600_000).unwrap();
    let p = shape(32_000, 200_000, 400_000, 300_000);
    assert_eq!(confine(p, screen), p);
    assert_eq!(confine(Shape { x: 10_000, y: -5, ..p }, screen), Shape { x: 32_000, y: 32_000, ..p });
    assert_eq!(
        confine(Shape { x: 790_000, y: 600_000, ..p }, screen),
        Shape { x: 768_000, y: 568_000, ..p }
    );
    let small = Shape { size: 10_000, ..p };
    assert_eq!(confine(Shape { x: 0, y: 595_000, ..small }, screen), Shape { x: 10_000, y: 590_000, ..small });
}

#[test]
fn obstacles_fall_and_bullets_rise() {
    let o = shape(16_000, 100_000, 50_000, -16_000);
    assert_eq!(fall(o, 500_000), Shape { y: 34_000, ..o });
    let b = shape(BULLET_SIZE, BULLET_SPEED, 50_000, 100_000);
    assert_eq!(rise(b, 16_000), Shape { y: 93_600, ..b });
    assert_eq!(fall(Shape { y: i32::MAX, ..o }, 1_000_000).y, i32::MAX);
    assert_eq!(rise(Shape { y: i32::MIN, ..b }, 1_000_000).y, i32::MIN);
}

#[test]
fn every_shape_of_a_collection_moves() {
    let a = shape(16_000, 50_000, 1, 0);
    let b = shape(20_000, 150_000, 2, 10);
    assert_eq!(fall_all(vec![a, b], 1_000_000), vec![Shape { y: 50_000, ..a }, Shape { y: 150_010, ..b }]);
    assert_eq!(rise_all(vec![a, b], 1_000_000), vec![Shape { y: -50_000, ..a }, Shape { y: -149_990, ..b }]);
    assert_eq!(fall_all(Vec::new(), 5), Vec::new());
}

#[test]
fn screens_hold_the_largest_obstacle() {
    assert_eq!(Screen::new(800_000, 600_000), Some(Screen { width: 800_000, height: 600_000 }));
    assert_eq!(Screen::new(63_999, 600_000), None);
    assert_eq!(Screen::new(800_000, 63_999), None);
    assert_eq!(Screen::new(0, 0), None);
    assert!(Screen::new(64_000, 64_000).is_some());
    assert!(Screen::new(1_000_000_000, 1_000_000_000).is_some());
    assert_eq!(Screen::new(1_000_000_001, 600_000), None);
}

#[test]
fn player_at_full_health_has_one_place_on_the_narrowest_screen() {
    let screen = Screen::new(64_000, 64_000).unwrap();
    let p = shape(32_000, 200_000, 5, 90_000);
    assert_eq!(confine(p, screen), Shape { x: 32_000, y: 32_000, ..p });
}
