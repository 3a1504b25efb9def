use wrath::collision::{fly_bullet, meet_obstacle, resolve_bullet_hits, resolve_player_hits, Tally};
use wrath::combat::{damaged_size, healed_size, penalised_score, rewarded_score};
use wrath::shape::{Rect, Shape};
use wrath::units::{rounded_quotient, CIRCLE_SIZE};

fn shape(size: u32, x: i32, y: i32) -> Shape {
    Shape { size, speed: 100_000, x, y, collided: false }
}

fn tally(player: Shape, score: u32, high_score: u32) -> Tally {
    Tally { player, score, high_score, new_high_score: false, game_over: false, persist: None }
}

#[test]
fn full_health_player_hit_by_obstacle_of_its_size() {
    assert_eq!(damaged_size(32_000, 32_000), 28_000);
    assert_eq!(penalised_score(25, 32_000), 5);
    assert_eq!(penalised_score(20, 32_000), 0);
    assert_eq!(penalised_score(9, 32_000), 0);
}

#[test]
fn kill_of_smallest_obstacle_heals_to_full_and_scores_forty() {
    assert_eq!(healed_size(30_000, 16_000), 32_000);
    assert_eq!(rewarded_score(0, 16_000), 40);
    assert_eq!(rewarded_score(7, 16_000), 47);
}

#[test]
fn kill_of_largest_obstacle_heals_one_pixel() {
    assert_eq!(healed_size(20_000, 64_000), 21_000);
    assert_eq!(rewarded_score(0, 64_000), 10);
}

#[test]
fn reward_is_rounded_to_the_nearest_point() {
    // 640 / 48 = 13.33, 640 / 47 = 13.62, 640 / 25.6 = 25
    assert_eq!(rewarded_score(0, 48_000), 13);
    assert_eq!(rewarded_score(0, 47_000), 14);
    assert_eq!(rewarded_score(0, 25_600), 25);
}

#[test]
fn penalty_is_rounded_to_the_nearest_point() {
    // 10 * 20 / 16 = 12.5 rounds up, 10 * 19 / 16 = 11.875
    assert_eq!(penalised_score(100, 20_000), 87);
    assert_eq!(penalised_score(100, 19_000), 88);
    assert_eq!(penalised_score(100, 16_000), 90);
}

#[test]
fn damage_leaves_a_whole_number_of_pixels() {
    // 32 - 2 * 17 / 16 = 29.875
    assert_eq!(damaged_size(32_000, 17_000), 30_000);
    // 31.25 - 2 = 29.25
    assert_eq!(damaged_size(31_250, 16_000), 29_000);
    // 10.5 - 2 = 8.5 rounds up
    assert_eq!(damaged_size(10_500, 16_000), 9_000);
}

#[test]
fn damage_stops_at_zero() {
    assert_eq!(damaged_size(4_000, 32_000), 0);
    assert_eq!(damaged_size(1_000, 64_000), 0);
    assert_eq!(damaged_size(0, 16_000), 0);
    // 2.4 - 2 = 0.4 rounds to nothing
    assert_eq!(damaged_size(2_400, 16_000), 0);
}

#[test]
fn size_stays_between_zero_and_full_health() {
    let mut size = CIRCLE_SIZE;
    for obstacle in [16_000u32, 64_000, 23_456, 40_000, 16_001, 63_999] {
        size = damaged_size(size, obstacle);
        assert!(size <= CIRCLE_SIZE);
        size = healed_size(size, obstacle);
        assert!(size <= CIRCLE_SIZE);
    }
    assert_eq!(healed_size(CIRCLE_SIZE, 16_000), CIRCLE_SIZE);
    assert_eq!(healed_size(31_999, 64_000), CIRCLE_SIZE);
}

#[test]
fn obstacle_without_extent_heals_fully_and_fills_the_score() {
    assert_eq!(healed_size(1_000, 0), CIRCLE_SIZE);
    assert_eq!(rewarded_score(5, 0), u32::MAX);
    assert_eq!(damaged_size(32_000, 0), 32_000);
    assert_eq!(penalised_score(5, 0), 5);
}

#[test]
fn score_stops_at_its_largest_value() {
    assert_eq!(rewarded_score(u32::MAX - 3, 16_000), u32::MAX);
    assert_eq!(rewarded_score(u32::MAX, 64_000), u32::MAX);
}

#[test]
fn score_never_goes_below_zero_over_a_long_run_of_hits() {
    let mut score = 95u32;
    let mut seen = Vec::new();
    for _ in 0..20 {
        score = penalised_score(score, 32_000);
        seen.push(score);
    }
    assert_eq!(&seen[..6], &[75, 55, 35, 15, 0, 0]);
    assert_eq!(score, 0);
}

#[test]
fn rounded_quotient_rounds_half_up() {
    assert_eq!(rounded_quotient(7, 2), 4);
    assert_eq!(rounded_quotient(6, 4), 2);
    assert_eq!(rounded_quotient(5, 4), 1);
    assert_eq!(rounded_quotient(0, 9), 0);
    assert_eq!(rounded_quotient(u64::MAX, 1), u64::MAX);
    assert_eq!(rounded_quotient(u64::MAX - 1, 3), 6_148_914_691_236_517_205);
    assert_eq!(rounded_quotient(640_000, 16_000), 40);
    assert_eq!(rounded_quotient(10, 3), 3);
    assert_eq!(rounded_quotient(11, 3), 4);
}

#[test]
fn bounding_box_is_centred_on_the_shape() {
    // In half units: the centre doubles, and the box reaches `size` each way.
    let s = shape(32_000, 100_000, 50_000);
    assert_eq!(s.rect(), Rect { x: 168_000, y: 68_000, w: 64_000, h: 64_000 });
    let odd = shape(16_001, 0, -3);
    assert_eq!(odd.rect(), Rect { x: -16_001, y: -16_007, w: 32_002, h: 32_002 });
    let far = Shape { size: u32::MAX, speed: 0, x: i32::MIN, y: i32::MAX, collided: false };
    assert_eq!(
        far.rect(),
        Rect { x: -8_589_934_591, y: -1, w: 8_589_934_590, h: 8_589_934_590 }
    );
}

#[test]
fn shapes_of_odd_size_collide_by_their_centred_boxes() {
    let a = shape(16_001, 0, 0);
    // Half the sum of the sizes is 10_000.5.
    assert!(a.collides_with(&shape(4_000, 10_000, 0)));
    assert!(shape(4_000, 10_000, 0).collides_with(&a));
    assert!(!a.collides_with(&shape(4_000, 10_001, 0)));
    assert!(!shape(4_000, 10_001, 0).collides_with(&a));
    assert!(a.collides_with(&shape(4_000, -10_000, 0)));
    assert!(!a.collides_with(&shape(4_000, -10_001, 0)));
    assert!(a.collides_with(&shape(4_000, 0, 10_000)));
    assert!(!a.collides_with(&shape(4_000, 0, 10_001)));
    assert!(a.collides_with(&shape(4_000, 0, -10_000)));
    assert!(!a.collides_with(&shape(4_000, 0, -10_001)));
    // Two odd sizes: half the sum is 5.
    assert!(shape(3, 0, 0).collides_with(&shape(7, 5, -5)));
    assert!(!shape(3, 0, 0).collides_with(&shape(7, 6, 0)));
}

#[test]
fn touching_edges_collide_and_a_gap_does_not() {
    let a = shape(10_000, 0, 0);
    assert!(a.collides_with(&shape(10_000, 10_000, 0)));
    assert!(a.collides_with(&shape(10_000, 10_000, 10_000)));
    assert!(!a.collides_with(&shape(10_000, 10_001, 0)));
    assert!(!a.collides_with(&shape(10_000, 0, -10_001)));
    assert!(a.collides_with(&a));
    assert!(a.collides_with(&shape(2_000, 1_000, -1_000)));
    assert!(shape(2_000, 1_000, -1_000).collides_with(&a));
}

#[test]
fn overlap_of_rectangles() {
    let a = Rect { x: 0, y: 0, w: 10, h: 10 };
    assert!(a.overlaps(&Rect { x: 10, y: 10, w: 5, h: 5 }));
    assert!(!a.overlaps(&Rect { x: 11, y: 0, w: 5, h: 5 }));
    assert!(!a.overlaps(&Rect { x: 0, y: -6, w: 5, h: 5 }));
    assert!(a.overlaps(&Rect { x: 2, y: 2, w: 1, h: 1 }));
    let wide = Rect { x: i64::MAX, y: i64::MAX, w: i64::MAX, h: i64::MAX };
    assert!(wide.overlaps(&wide));
    assert!(!a.overlaps(&wide));
    assert!(!wide.overlaps(&Rect { x: i64::MIN, y: i64::MIN, w: 1, h: 1 }));
}

#[test]
fn death_below_the_high_score_stores_nothing() {
    let player = shape(4_000, 100_000, 100_000);
    let t = meet_obstacle(tally(player, 29, 20), shape(32_000, 100_000, 100_000));
    assert_eq!(t.player.size, 0);
    assert_eq!(t.score, 9);
    assert!(t.game_over);
    assert!(!t.new_high_score);
    assert_eq!(t.persist, None);
    assert_eq!(t.high_score, 20);
}

#[test]
fn death_above_the_high_score_stores_the_score() {
    let player = shape(4_000, 100_000, 100_000);
    let t = meet_obstacle(tally(player, 50, 20), shape(32_000, 100_000, 100_000));
    assert_eq!(t.player.size, 0);
    assert_eq!(t.score, 30);
    assert!(t.game_over);
    assert!(t.new_high_score);
    assert_eq!(t.persist, Some(30));
    assert_eq!(t.high_score, 30);
}

#[test]
fn survivor_above_the_high_score_stores_nothing_yet() {
    let player = shape(32_000, 100_000, 100_000);
    let t = meet_obstacle(tally(player, 500, 20), shape(32_000, 100_000, 100_000));
    assert_eq!(t.player.size, 28_000);
    assert_eq!(t.score, 480);
    assert!(!t.game_over);
    assert!(!t.new_high_score);
    assert_eq!(t.persist, None);
}

#[test]
fn obstacle_that_misses_changes_nothing() {
    let player = shape(32_000, 100_000, 100_000);
    let before = tally(player, 50, 20);
    assert_eq!(meet_obstacle(before, shape(16_000, 500_000, 100_000)), before);
}

#[test]
fn obstacles_are_resolved_in_order_against_the_shrinking_player() {
    let player = shape(32_000, 100_000, 100_000);
    // The second obstacle touches the player only at its first size.
    let first = shape(64_000, 100_000, 100_000);
    let second = shape(10_000, 120_000, 100_000);
    let (t, kept) = resolve_player_hits(tally(player, 100, 0), vec![first, second], 600_000);
    // 32 - 8 = 24: the box now ends at 112, the second starts at 115.
    assert_eq!(t.player.size, 24_000);
    assert_eq!(t.score, 60);
    assert_eq!(kept, vec![second]);
    let (t, kept) = resolve_player_hits(tally(player, 100, 0), vec![second, first], 600_000);
    // 32 - 1.25 = 30.75 rounds to 31, then 31 - 8 = 23
    assert_eq!(t.player.size, 23_000);
    assert_eq!(t.score, 100 - 6 - 40);
    assert_eq!(kept, Vec::new());
}

#[test]
fn obstacle_past_the_bottom_edge_is_dropped() {
    let player = shape(32_000, 100_000, 100_000);
    let inside = shape(16_000, 300_000, 615_999);
    let on_the_line = shape(16_000, 300_000, 616_000);
    let beyond = shape(16_000, 300_000, 700_000);
    let struck = Shape { collided: true, ..shape(16_000, 400_000, 10_000) };
    let (t, kept) = resolve_player_hits(
        tally(player, 7, 0),
        vec![beyond, inside, struck, on_the_line],
        600_000,
    );
    assert_eq!(kept, vec![inside]);
    assert_eq!(t, tally(player, 7, 0));
}

#[test]
fn struck_obstacle_still_hits_the_player() {
    let player = shape(32_000, 100_000, 100_000);
    let struck = Shape { collided: true, ..shape(16_000, 100_000, 100_000) };
    let (t, kept) = resolve_player_hits(tally(player, 30, 0), vec![struck], 600_000);
    assert_eq!(t.player.size, 30_000);
    assert_eq!(t.score, 20);
    assert!(kept.is_empty());
}

#[test]
fn hits_after_death_go_on_lowering_the_score() {
    let player = shape(2_000, 100_000, 100_000);
    let o = shape(16_000, 100_000, 100_000);
    let (t, kept) = resolve_player_hits(tally(player, 45, 20), vec![o, o, o], 600_000);
    assert!(kept.is_empty());
    assert_eq!(t.player.size, 0);
    assert_eq!(t.score, 15);
    assert!(t.game_over);
    assert!(t.new_high_score);
    // 35 beat the record of 20; 25 and 15 did not beat 35.
    assert_eq!(t.persist, Some(35));
    assert_eq!(t.high_score, 35);
}

#[test]
fn bullet_marks_the_first_obstacle_it_meets() {
    let player = shape(30_000, 100_000, 500_000);
    let near = shape(16_000, 300_000, 100_000);
    let also = shape(64_000, 300_000, 100_000);
    let away = shape(16_000, 700_000, 100_000);
    let bullet = shape(4_000, 300_000, 105_000);
    let (t, field, on) = fly_bullet(tally(player, 3, 0), vec![away, near, also], bullet);
    assert!(!on);
    assert_eq!(t.player.size, 32_000);
    assert_eq!(t.score, 43);
    assert_eq!(field, vec![away, Shape { collided: true, ..near }, also]);
}

#[test]
fn bullet_that_meets_nothing_flies_on_until_it_has_left_the_top() {
    let player = shape(30_000, 100_000, 500_000);
    let field = vec![shape(16_000, 700_000, 100_000)];
    let t = tally(player, 3, 0);
    let (after, same, on) = fly_bullet(t, field.clone(), shape(4_000, 300_000, 0));
    assert!(on);
    assert_eq!(after, t);
    assert_eq!(same, field);
    assert!(fly_bullet(t, field.clone(), shape(4_000, 300_000, -1_999)).2);
    assert!(!fly_bullet(t, field.clone(), shape(4_000, 300_000, -2_000)).2);
    assert!(!fly_bullet(t, field.clone(), shape(4_000, 300_000, -50_000)).2);
    assert!(fly_bullet(t, Vec::new(), shape(3_001, 300_000, -1_500)).2);
}

#[test]
fn two_bullets_on_one_obstacle_both_count() {
    let player = shape(20_000, 100_000, 500_000);
    let o = shape(64_000, 300_000, 100_000);
    let b1 = shape(4_000, 300_000, 105_000);
    let b2 = shape(4_000, 310_000, 95_000);
    let miss = shape(4_000, 600_000, 95_000);
    let (t, field, kept) = resolve_bullet_hits(tally(player, 0, 0), vec![o], vec![b1, miss, b2]);
    assert_eq!(t.player.size, 22_000);
    assert_eq!(t.score, 20);
    assert_eq!(field, vec![Shape { collided: true, ..o }]);
    assert_eq!(kept, vec![miss]);
}
