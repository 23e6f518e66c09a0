//! The two-paddle ball game: a ball that reflects off the field's edges and
//! off two paddles that the players slide sideways. It never ends.
use vstd::prelude::*;
use crate::geom::{aabb_collision, boxes_overlap, sat, saturate, scaled, Vec2};
use crate::motion::{displace, displaced};

verus! {

pub const FIELD_WIDTH: i32 = 800_000;
pub const FIELD_HEIGHT: i32 = 600_000;
pub const PADDLE_WIDTH: i32 = 100_000;
pub const PADDLE_HEIGHT: i32 = 10_000;
/// Distance of each paddle's centre from its edge of the field.
pub const PADDLE_OFFSET: i32 = 20_000;
/// Sideways speed of a paddle, in pixels per second.
pub const PADDLE_SPEED: i32 = 400;
pub const BALL_SIZE: i32 = 10_000;
/// The ball's speed along each axis at the start, in pixels per second.
pub const BALL_SPEED: i32 = 300;

/// The keys one player holds in a frame.
#[derive(Clone, Copy, Debug, PartialEq, Eq, Structural)]
pub struct PaddleInput {
    pub left: bool,
    pub right: bool,
}

/// A paddle's centre after input: left wins over right, and a paddle moves only
/// while its centre is inside the range that keeps it on the field.
pub open spec fn steered_x(x: int, input: PaddleInput, dt: int) -> int {
    if input.left && 2 * x > -FIELD_WIDTH + PADDLE_WIDTH {
        sat(x - PADDLE_SPEED * dt)
    } else if input.right && 2 * x < FIELD_WIDTH - PADDLE_WIDTH {
        sat(x + PADDLE_SPEED * dt)
    } else {
        x
    }
}

/// Moves a paddle's centre `x` by its input over `dt` milliseconds.
pub fn steer_paddle(x: i32, input: PaddleInput, dt: u32) -> (r: i32)
    ensures
        r == steered_x(x as int, input, dt as int),
{
    let step = scaled(PADDLE_SPEED, dt);
    if input.left && 2 * (x as i64) > -(FIELD_WIDTH as i64) + PADDLE_WIDTH as i64 {
        saturate(x as i64 - step)
    } else if input.right && 2 * (x as i64) < FIELD_WIDTH as i64 - PADDLE_WIDTH as i64 {
        saturate(x as i64 + step)
    } else {
        x
    }
}

/// `-v`, held to the coordinate range.
pub open spec fn flipped(v: int) -> int {
    sat(-v)
}

fn flip(v: i32) -> (r: i32)
    ensures
        r == flipped(v as int),
{
    if v == i32::MIN {
        i32::MAX
    } else {
        -v
    }
}

/// Whether the ball's centre is beyond the range that keeps it inside the field
/// along an axis of full length `extent`.
pub open spec fn beyond(c: int, extent: int) -> bool {
    2 * c < -extent + BALL_SIZE || 2 * c > extent - BALL_SIZE
}

/// The velocity after the walls: each component whose axis the ball has crossed
/// changes sign, the other stays.
pub open spec fn wall_bounced(pos: Vec2, vel: Vec2) -> Vec2 {
    Vec2 {
        x: if beyond(pos.x as int, FIELD_WIDTH as int) {
            flipped(vel.x as int) as i32
        } else {
            vel.x
        },
        y: if beyond(pos.y as int, FIELD_HEIGHT as int) {
            flipped(vel.y as int) as i32
        } else {
            vel.y
        },
    }
}

/// Reflects the ball's velocity off the edges it has crossed. The position is
/// not clamped.
pub fn bounce_off_walls(pos: Vec2, vel: Vec2) -> (r: Vec2)
    ensures
        r == wall_bounced(pos, vel),
{
    let x2 = 2 * (pos.x as i64);
    let y2 = 2 * (pos.y as i64);
    let half_x = FIELD_WIDTH as i64 - BALL_SIZE as i64;
    let half_y = FIELD_HEIGHT as i64 - BALL_SIZE as i64;
    let vx = if x2 < -half_x || x2 > half_x {
        flip(vel.x)
    } else {
        vel.x
    };
    let vy = if y2 < -half_y || y2 > half_y {
        flip(vel.y)
    } else {
        vel.y
    };
    Vec2 { x: vx, y: vy }
}

pub open spec fn ball_size() -> Vec2 {
    Vec2 { x: BALL_SIZE, y: BALL_SIZE }
}

pub open spec fn paddle_size() -> Vec2 {
    Vec2 { x: PADDLE_WIDTH, y: PADDLE_HEIGHT }
}

/// Whether the ball at `pos` overlaps a paddle centred at `paddle`.
pub open spec fn hits_paddle(pos: Vec2, paddle: Vec2) -> bool {
    boxes_overlap(pos, ball_size(), paddle, paddle_size())
}

/// The velocity after the paddles: its vertical component changes sign once if
/// the ball overlaps either paddle.
pub open spec fn paddle_bounced(pos: Vec2, vel: Vec2, top: Vec2, bottom: Vec2) -> Vec2 {
    if hits_paddle(pos, top) || hits_paddle(pos, bottom) {
        Vec2 { x: vel.x, y: flipped(vel.y as int) as i32 }
    } else {
        vel
    }
}

/// Reflects the ball's vertical velocity if it overlaps a paddle.
pub fn bounce_off_paddles(pos: Vec2, vel: Vec2, top: Vec2, bottom: Vec2) -> (r: Vec2)
    ensures
        r == paddle_bounced(pos, vel, top, bottom),
{
    let bsize = Vec2 { x: BALL_SIZE, y: BALL_SIZE };
    let psize = Vec2 { x: PADDLE_WIDTH, y: PADDLE_HEIGHT };
    if aabb_collision(pos, bsize, top, psize) || aabb_collision(pos, bsize, bottom, psize) {
        Vec2 { x: vel.x, y: flip(vel.y) }
    } else {
        vel
    }
}

/// The state of the ball game.
#[derive(Clone, Copy, Debug, PartialEq, Eq, Structural)]
pub struct BallGame {
    pub ball: Vec2,
    pub velocity: Vec2,
    /// Centre of the first player's paddle, near the top edge.
    pub top: Vec2,
    /// Centre of the second player's paddle, near the bottom edge.
    pub bottom: Vec2,
}

/// The game after one frame: the paddles move by input, the ball moves by its
/// velocity over `dt`, then the velocity reflects off the walls and paddles at
/// the ball's new place.
pub open spec fn ball_stepped(
    g: BallGame,
    first: PaddleInput,
    second: PaddleInput,
    dt: int,
) -> BallGame {
    let top = Vec2 { x: steered_x(g.top.x as int, first, dt) as i32, y: g.top.y };
    let bottom = Vec2 { x: steered_x(g.bottom.x as int, second, dt) as i32, y: g.bottom.y };
    let ball = displaced(g.ball, g.velocity, dt);
    let velocity = paddle_bounced(ball, wall_bounced(ball, g.velocity), top, bottom);
    BallGame { ball, velocity, top, bottom }
}

impl BallGame {
    /// The opening position: the ball at the centre heading up and right, the
    /// paddles centred near the top and bottom edges.
    pub fn new() -> (r: BallGame)
        ensures
            r.ball == (Vec2 { x: 0, y: 0 }),
            r.velocity == (Vec2 { x: BALL_SPEED, y: BALL_SPEED }),
            r.top.x == 0 && r.top.y == FIELD_HEIGHT / 2 - PADDLE_OFFSET,
            r.bottom.x == 0 && r.bottom.y == -FIELD_HEIGHT / 2 + PADDLE_OFFSET,
    {
        BallGame {
            ball: Vec2 { x: 0, y: 0 },
            velocity: Vec2 { x: BALL_SPEED, y: BALL_SPEED },
            top: Vec2 { x: 0, y: 280_000 },
            bottom: Vec2 { x: 0, y: -280_000 },
        }
    }

    /// One frame of `dt` milliseconds with each player's input.
    pub fn step(&mut self, first: PaddleInput, second: PaddleInput, dt: u32)
        ensures
            *final(self) == ball_stepped(*old(self), first, second, dt as int),
    {
        self.top.x = steer_paddle(self.top.x, first, dt);
        self.bottom.x = steer_paddle(self.bottom.x, second, dt);
        self.ball = displace(self.ball, self.velocity, dt);
        let v = bounce_off_walls(self.ball, self.velocity);
        self.velocity = bounce_off_paddles(self.ball, v, self.top, self.bottom);
    }
}

/// A ball past the right edge and clear of the top and bottom, moving at
/// `(s, s)`, leaves the walls at `(-s, s)`; past the top or bottom edge and
/// clear of the sides, only its vertical component changes sign.
pub proof fn lemma_reflection(pos: Vec2, vel: Vec2)
    requires
        vel.x > i32::MIN,
        vel.y > i32::MIN,
    ensures
        2 * pos.x > FIELD_WIDTH - BALL_SIZE && !beyond(pos.y as int, FIELD_HEIGHT as int)
            ==> wall_bounced(pos, vel) == (Vec2 { x: -vel.x as i32, y: vel.y }),
        beyond(pos.y as int, FIELD_HEIGHT as int) && !beyond(pos.x as int, FIELD_WIDTH as int)
            ==> wall_bounced(pos, vel) == (Vec2 { x: vel.x, y: -vel.y as i32 }),
{
}

} // verus!
