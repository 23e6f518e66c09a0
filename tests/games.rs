use arcade_core::ball::{bounce_off_paddles, bounce_off_walls, steer_paddle, BallGame, PaddleInput};
use arcade_core::chain::{Chain, Heading, TurnInput};
use arcade_core::flight::{despawn, move_obstacles, obstacle_pair, FlightGame, Obstacle, GAP_HIGH, GAP_LOW, SPAWN_X};
use arcade_core::geom::Vec2;
use arcade_core::trail::TrailGame;

fn v(x: i32, y: i32) -> Vec2 {
    Vec2::new(x, y)
}

const NO_TURN: TurnInput = TurnInput { up: false, down: false, left: false, right: false };

#[test]
fn chain_shift_scenario() {
    let mut c = Chain { segments: vec![v(0, 0), v(-10_000, 0), v(-20_000, 0)] };
    c.advance(Heading::Right.velocity(200), 50);
    assert_eq!(c.segments, vec![v(10_000, 0), v(0, 0), v(-10_000, 0)]);
}

#[test]
fn trail_game_first_frame() {
    let mut g = TrailGame::new();
    assert_eq!(g.chain.segments, vec![v(0, 0), v(-10_000, 0), v(-20_000, 0)]);
    g.step_with(NO_TURN, 50, v(0, 0));
    assert_eq!(g.chain.segments, vec![v(10_000, 0), v(0, 0), v(-10_000, 0)]);
    assert_eq!(g.pickup, v(50_000, 50_000));
    assert!(!g.over);
}

#[test]
fn chain_places_after_one_tick() {
    let mut c = Chain { segments: vec![v(0, 0), v(0, 10_000), v(10_000, 10_000), v(20_000, 10_000)] };
    let before = c.segments.clone();
    c.advance(Heading::Down.velocity(200), 16);
    assert_eq!(c.segments.len(), before.len());
    assert_eq!(c.segments[0], v(0, -3_200));
    assert_eq!(&c.segments[1..], &before[..3]);
}

#[test]
fn empty_chain_stays_empty() {
    let mut c = Chain { segments: vec![] };
    c.advance(v(200, 0), 16);
    c.grow();
    assert!(c.segments.is_empty());
    assert!(!c.bites_itself());
}

#[test]
fn growth_copies_the_tail() {
    let mut c = Chain::straight(v(0, 0), 3);
    c.grow();
    assert_eq!(c.segments, vec![v(0, 0), v(-10_000, 0), v(-20_000, 0), v(-20_000, 0)]);
}

#[test]
fn reversal_is_rejected() {
    let left = TurnInput { left: true, ..NO_TURN };
    assert_eq!(Heading::Right.steer(left), Heading::Right);
    let up_and_left = TurnInput { up: true, left: true, ..NO_TURN };
    assert_eq!(Heading::Right.steer(up_and_left), Heading::Up);
    let down_and_right = TurnInput { down: true, right: true, ..NO_TURN };
    assert_eq!(Heading::Up.steer(down_and_right), Heading::Right);
    assert_eq!(Heading::Left.steer(NO_TURN), Heading::Left);
}

#[test]
fn heading_velocities() {
    assert_eq!(Heading::Up.velocity(200), v(0, 200));
    assert_eq!(Heading::Down.velocity(200), v(0, -200));
    assert_eq!(Heading::Left.velocity(200), v(-200, 0));
    assert_eq!(Heading::Right.velocity(200), v(200, 0));
}

#[test]
fn short_chain_cannot_bite() {
    let c = Chain { segments: vec![v(0, 0), v(0, 0), v(0, 0)] };
    assert!(!c.bites_itself());
    let c = Chain { segments: vec![v(0, 0), v(10_000, 0), v(10_000, 10_000), v(0, 9_000)] };
    assert!(c.bites_itself());
    let c = Chain { segments: vec![v(0, 0), v(10_000, 0), v(20_000, 0), v(30_000, 0)] };
    assert!(!c.bites_itself());
}

#[test]
fn eating_grows_and_respawns() {
    let mut g = TrailGame::new();
    g.pickup = v(15_000, 0);
    g.step_with(NO_TURN, 50, v(-123_000, 45_000));
    assert_eq!(g.chain.segments, vec![v(10_000, 0), v(0, 0), v(-10_000, 0), v(-10_000, 0)]);
    assert_eq!(g.pickup, v(-123_000, 45_000));
    assert!(!g.over);
}

#[test]
fn random_respawn_lands_on_field() {
    let mut places = Vec::new();
    for _ in 0..50 {
        let mut g = TrailGame::new();
        g.pickup = v(15_000, 0);
        g.step(NO_TURN, 50);
        assert_eq!(g.chain.segments.len(), 4);
        assert!(g.pickup.x >= -400_000 && g.pickup.x < 400_000);
        assert!(g.pickup.y >= -300_000 && g.pickup.y < 300_000);
        places.push(g.pickup);
    }
    assert!(places.iter().any(|&p| p != places[0]));
}

#[test]
fn trail_leaving_the_top_ends() {
    let mut g = TrailGame::new();
    g.chain = Chain { segments: vec![v(0, 299_000), v(0, 289_000), v(0, 279_000)] };
    g.heading = Heading::Up;
    g.step_with(NO_TURN, 50, v(0, 0));
    assert!(g.over);
}

#[test]
fn pair_around_gap_scenario() {
    let (lower, upper) = obstacle_pair(30_000);
    assert_eq!(lower.pos, v(SPAWN_X, -180_000));
    assert_eq!(upper.pos, v(SPAWN_X, 240_000));
    assert_eq!(lower.vel, v(-3_000, 0));
    assert_eq!(upper.vel, v(-3_000, 0));
    assert_eq!(SPAWN_X, 370_000);
}

#[test]
fn obstacles_move_and_leave() {
    let mut obs = vec![
        Obstacle { pos: v(-168_000, 0), vel: v(-3_000, 0) },
        Obstacle { pos: v(0, 5), vel: v(-3_000, 0) },
        Obstacle { pos: v(-170_000, 7), vel: v(-3_000, 0) },
    ];
    move_obstacles(&mut obs);
    assert_eq!(obs[0].pos, v(-171_000, 0));
    despawn(&mut obs);
    assert_eq!(obs.len(), 1);
    assert_eq!(obs[0].pos, v(-3_000, 5));
}

#[test]
fn flight_spawns_after_interval() {
    let mut g = FlightGame::new();
    for _ in 0..3 {
        g.step_with(true, 500, 30_000);
        assert!(g.obstacles.is_empty());
    }
    g.step_with(true, 500, 30_000);
    assert_eq!(g.obstacles.len(), 2);
    assert_eq!(g.obstacles[0].pos, v(370_000, -180_000));
    assert_eq!(g.obstacles[1].pos, v(370_000, 240_000));
}

#[test]
fn flight_jump_then_gravity() {
    let mut g = FlightGame::new();
    g.step_with(true, 16, 0);
    assert_eq!(g.avatar.vel, v(0, 5_000 - 128));
    assert_eq!(g.avatar.pos, v(0, 4_872));
    assert_eq!(g.tilt, 4_872 * 50);
    assert!(!g.over);
}

#[test]
fn random_gap_in_range() {
    let mut gaps = Vec::new();
    for _ in 0..50 {
        let mut g = FlightGame::new();
        g.step(false, 2_000);
        assert_eq!(g.obstacles.len(), 2);
        let gap = g.obstacles[0].pos.y + 210_000;
        assert!(gap >= GAP_LOW && gap < GAP_HIGH);
        assert_eq!(g.obstacles[1].pos.y, gap + 210_000);
        gaps.push(gap);
    }
    assert!(gaps.iter().any(|&g| g != gaps[0]));
}

#[test]
fn reflection_at_right_edge() {
    assert_eq!(bounce_off_walls(v(396_000, 0), v(300, 300)), v(-300, 300));
    assert_eq!(bounce_off_walls(v(395_000, 0), v(300, 300)), v(300, 300));
    assert_eq!(bounce_off_walls(v(0, 296_000), v(300, 300)), v(300, -300));
    assert_eq!(bounce_off_walls(v(0, -296_000), v(300, -300)), v(300, 300));
    assert_eq!(bounce_off_walls(v(-396_000, 296_000), v(-300, 300)), v(300, -300));
}

#[test]
fn paddle_reflects_vertical_only() {
    let top = v(0, 280_000);
    let bottom = v(0, -280_000);
    assert_eq!(bounce_off_paddles(v(10_000, 272_000), v(300, 300), top, bottom), v(300, -300));
    assert_eq!(bounce_off_paddles(v(0, 0), v(300, 300), top, bottom), v(300, 300));
}

#[test]
fn paddle_steering_stops_at_edges() {
    let left = PaddleInput { left: true, right: false };
    let right = PaddleInput { left: false, right: true };
    let both = PaddleInput { left: true, right: true };
    assert_eq!(steer_paddle(0, left, 10), -4_000);
    assert_eq!(steer_paddle(0, right, 10), 4_000);
    assert_eq!(steer_paddle(0, both, 10), -4_000);
    assert_eq!(steer_paddle(-350_000, left, 10), -350_000);
    assert_eq!(steer_paddle(-350_000, both, 10), -346_000);
    assert_eq!(steer_paddle(350_000, right, 10), 350_000);
}

#[test]
fn ball_game_frame() {
    let mut g = BallGame::new();
    let idle = PaddleInput { left: false, right: false };
    g.step(PaddleInput { left: false, right: true }, idle, 100);
    assert_eq!(g.ball, v(30_000, 30_000));
    assert_eq!(g.velocity, v(300, 300));
    assert_eq!(g.top, v(40_000, 280_000));
    assert_eq!(g.bottom, v(0, -280_000));
}
