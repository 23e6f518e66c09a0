use arcade_core::geom::Vec2;
use arcade_core::motion::{displace, tilt_angle, Body, MAX_TILT};
use arcade_core::timer::SpawnTimer;

#[test]
fn euler_step_scales_by_dt() {
    let p = displace(Vec2::new(1_000, -2_000), Vec2::new(300, -300), 16);
    assert_eq!(p, Vec2::new(1_000 + 4_800, -2_000 - 4_800));
}

#[test]
fn euler_step_saturates() {
    let p = displace(Vec2::new(i32::MAX - 10, i32::MIN + 10), Vec2::new(300, -300), 16);
    assert_eq!(p, Vec2::new(i32::MAX, i32::MIN));
}

#[test]
fn fall_from_rest_accumulates_gravity() {
    let mut b = Body { pos: Vec2::new(0, 0), vel: Vec2::new(0, 0) };
    let g = Vec2::new(0, -8);
    let mut expected_y: i32 = 0;
    for n in 1..=10 {
        b.fall(g, 16);
        assert_eq!(b.vel.y, -128 * n);
        expected_y += -128 * n;
        assert_eq!(b.pos.y, expected_y);
        assert_eq!(b.pos.x, 0);
    }
}

#[test]
fn jump_sets_not_adds() {
    let mut b = Body { pos: Vec2::new(5, 6), vel: Vec2::new(0, 4_000) };
    b.jump(5_000);
    assert_eq!(b.vel, Vec2::new(0, 5_000));
    b.jump(5_000);
    assert_eq!(b.vel, Vec2::new(0, 5_000));
    assert_eq!(b.pos, Vec2::new(5, 6));
}

#[test]
fn tilt_follows_velocity_and_clamps() {
    assert_eq!(tilt_angle(5_000), 250_000);
    assert_eq!(tilt_angle(-128), -6_400);
    assert_eq!(tilt_angle(0), 0);
    assert_eq!(tilt_angle(100_000), MAX_TILT);
    assert_eq!(tilt_angle(-30_000), -MAX_TILT);
    assert_eq!(MAX_TILT, 1_047_198);
}

#[test]
fn timer_fires_on_fourth_tick_and_repeats() {
    let mut t = SpawnTimer::new(2_000);
    let mut fired_on = Vec::new();
    for k in 1..=12 {
        if t.tick(500) {
            fired_on.push(k);
        }
    }
    assert_eq!(fired_on, vec![4, 8, 12]);
    assert_eq!(t.elapsed, 0);
}

#[test]
fn timer_fires_once_for_a_long_tick() {
    let mut t = SpawnTimer::new(2_000);
    assert!(t.tick(7_000));
    assert_eq!(t.elapsed, 0);
    assert!(!t.tick(1_999));
    assert_eq!(t.elapsed, 1_999);
    assert!(t.tick(1));
}
