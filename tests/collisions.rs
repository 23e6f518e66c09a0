use arcade_core::flight::{avatar_crashed, FlightGame, Obstacle};
use arcade_core::geom::{aabb_collision, proximity, Rect, Vec2};

fn v(x: i32, y: i32) -> Vec2 {
    Vec2::new(x, y)
}

#[test]
fn overlap_is_symmetric() {
    let a = (v(0, 0), v(20_000, 10_000));
    let b = (v(15_000, 4_000), v(12_000, 6_000));
    assert!(aabb_collision(a.0, a.1, b.0, b.1));
    assert!(aabb_collision(b.0, b.1, a.0, a.1));
    let c = (v(40_000, 0), v(10_000, 10_000));
    assert!(!aabb_collision(a.0, a.1, c.0, c.1));
    assert!(!aabb_collision(c.0, c.1, a.0, a.1));
}

#[test]
fn rect_overlaps_itself() {
    let r = Rect::from_center_size(v(7_000, -3_000), v(1, 1));
    assert!(r.overlaps(&r));
    let flat = Rect::from_center_size(v(0, 0), v(10_000, 0));
    assert!(!flat.overlaps(&flat));
}

#[test]
fn touching_edges_do_not_overlap() {
    assert!(!aabb_collision(v(0, 0), v(10_000, 10_000), v(10_000, 0), v(10_000, 10_000)));
    assert!(aabb_collision(v(0, 0), v(10_000, 10_000), v(9_999, 0), v(10_000, 10_000)));
    assert!(!aabb_collision(v(0, 0), v(10_000, 10_000), v(0, -10_000), v(10_000, 10_000)));
}

#[test]
fn separated_rects_never_overlap() {
    assert!(!aabb_collision(v(0, 0), v(24_000, 32_000), v(0, 200_000), v(52_000, 320_000)));
    assert!(!aabb_collision(v(0, 0), v(24_000, 32_000), v(-39_000, 0), v(52_000, 320_000)));
}

#[test]
fn rect_edges_are_doubled() {
    let r = Rect::from_center_size(v(5, 7), v(3, 4));
    assert_eq!((r.min_x2, r.max_x2, r.min_y2, r.max_y2), (7, 13, 10, 18));
}

#[test]
fn proximity_is_strict_at_the_sum() {
    assert!(!proximity(v(0, 0), 10_000, v(10_000, 0), 10_000));
    assert!(proximity(v(0, 0), 10_000, v(9_999, 0), 10_000));
    assert!(!proximity(v(0, 0), 10_000, v(6_000, 8_000), 10_000));
    assert!(proximity(v(0, 0), 10_000, v(6_000, 7_999), 10_000));
    assert!(proximity(v(6_000, 7_999), 10_000, v(0, 0), 10_000));
}

#[test]
fn proximity_with_no_reach_is_false() {
    assert!(!proximity(v(0, 0), 0, v(0, 0), 0));
    assert!(proximity(v(0, 0), 1, v(0, 0), 0));
}

#[test]
fn proximity_far_apart() {
    assert!(!proximity(v(i32::MIN, i32::MIN), i32::MAX, v(i32::MAX, i32::MAX), i32::MAX));
    assert!(!proximity(v(i32::MIN, 0), i32::MAX, v(i32::MAX, 0), i32::MAX));
    assert!(proximity(v(-1_000_000_000, 0), i32::MAX, v(1_000_000_000, 0), i32::MAX));
}

#[test]
fn avatar_against_obstacle_scenario() {
    let pipe = Obstacle { pos: v(10_000, 0), vel: v(-3_000, 0) };
    assert!(aabb_collision(v(0, 0), v(24_000, 32_000), v(10_000, 0), v(52_000, 320_000)));
    assert!(avatar_crashed(v(0, 0), &vec![pipe]));
}

#[test]
fn crash_raises_game_over() {
    let mut game = FlightGame::new();
    game.obstacles.push(Obstacle { pos: v(13_000, 0), vel: v(-3_000, 0) });
    assert!(!game.over);
    game.step_with(false, 16, 0);
    assert!(game.over);
}

#[test]
fn avatar_clear_of_obstacles_and_edges() {
    let pipe = Obstacle { pos: v(100_000, 0), vel: v(-3_000, 0) };
    assert!(!avatar_crashed(v(0, 0), &vec![pipe]));
    assert!(!avatar_crashed(v(0, 0), &vec![]));
}

#[test]
fn avatar_at_field_edges_crashes() {
    // Lower edge exactly at the bottom: -256000 + 16000.
    assert!(avatar_crashed(v(0, -240_000), &vec![]));
    assert!(!avatar_crashed(v(0, -239_999), &vec![]));
    assert!(avatar_crashed(v(0, 240_000), &vec![]));
    assert!(!avatar_crashed(v(0, 239_999), &vec![]));
}
