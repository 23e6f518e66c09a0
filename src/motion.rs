//! Kinematic integration: forward Euler steps, gravity, jumps and tilt.
use vstd::prelude::*;
use crate::geom::{sat, saturate, scaled, Vec2};

verus! {

/// `pos + vel * dt`, held to the coordinate range, on each axis.
pub open spec fn displaced(pos: Vec2, vel: Vec2, dt: int) -> Vec2 {
    Vec2 { x: sat(pos.x + vel.x * dt) as i32, y: sat(pos.y + vel.y * dt) as i32 }
}

/// One forward Euler step: `pos + vel * dt`, with `vel` in pixels per second
/// and `dt` in milliseconds.
pub fn displace(pos: Vec2, vel: Vec2, dt: u32) -> (r: Vec2)
    ensures
        r == displaced(pos, vel, dt as int),
{
    Vec2 {
        x: saturate(pos.x as i64 + scaled(vel.x, dt)),
        y: saturate(pos.y as i64 + scaled(vel.y, dt)),
    }
}

/// `pos + step`, held to the coordinate range: a displacement already scaled to
/// one frame.
pub open spec fn shifted(pos: Vec2, step: Vec2) -> Vec2 {
    Vec2 { x: sat(pos.x + step.x) as i32, y: sat(pos.y + step.y) as i32 }
}

/// Moves `pos` by a per-frame displacement.
pub fn shift(pos: Vec2, step: Vec2) -> (r: Vec2)
    ensures
        r == shifted(pos, step),
{
    Vec2 { x: saturate(pos.x as i64 + step.x as i64), y: saturate(pos.y as i64 + step.y as i64) }
}

/// A falling body whose velocity is a displacement per frame.
#[derive(Clone, Copy, Debug, PartialEq, Eq, Structural)]
pub struct Body {
    pub pos: Vec2,
    pub vel: Vec2,
}

/// One frame of fall: gravity over `dt` is added to the velocity, then that new
/// velocity is added to the position as it stands, not scaled by `dt` again.
pub open spec fn fallen(b: Body, gravity: Vec2, dt: int) -> Body {
    let vel = displaced(b.vel, gravity, dt);
    Body { pos: shifted(b.pos, vel), vel }
}

/// `n` frames of fall of equal length.
pub open spec fn fallen_n(b: Body, gravity: Vec2, dt: int, n: nat) -> Body
    decreases n,
{
    if n == 0 {
        b
    } else {
        fallen(fallen_n(b, gravity, dt, (n - 1) as nat), gravity, dt)
    }
}

impl Body {
    /// Advances the body by one frame of fall.
    pub fn fall(&mut self, gravity: Vec2, dt: u32)
        ensures
            *final(self) == fallen(*old(self), gravity, dt as int),
    {
        self.vel = displace(self.vel, gravity, dt);
        self.pos = shift(self.pos, self.vel);
    }

    /// A jump sets the vertical velocity to `impulse`; it does not add to it.
    pub fn jump(&mut self, impulse: i32)
        ensures
            final(self).vel.y == impulse,
            final(self).vel.x == old(self).vel.x,
            final(self).pos == old(self).pos,
    {
        self.vel.y = impulse;
    }
}

/// From rest, `n` frames of fall under gravity `g` leave the vertical velocity at
/// `n * g * dt`, as long as that stays within the coordinate range; each frame
/// moves the body by the velocity computed in that same frame.
pub proof fn lemma_fall_from_rest(b: Body, gravity: Vec2, dt: int, n: nat)
    requires
        b.vel.y == 0,
        0 <= dt,
        forall|k: nat| k <= n ==> i32::MIN <= #[trigger] (k * gravity.y * dt) <= i32::MAX,
    ensures
        fallen_n(b, gravity, dt, n).vel.y == n * gravity.y * dt,
        n > 0 ==> fallen_n(b, gravity, dt, n).pos == shifted(
            fallen_n(b, gravity, dt, (n - 1) as nat).pos,
            fallen_n(b, gravity, dt, n).vel,
        ),
    decreases n,
{
    if n > 0 {
        let m = (n - 1) as nat;
        lemma_fall_from_rest(b, gravity, dt, m);
        assert(m * gravity.y * dt + gravity.y * dt == n * gravity.y * dt) by (nonlinear_arith)
            requires
                m + 1 == n,
        ;
        assert(i32::MIN <= n * gravity.y * dt <= i32::MAX);
    } else {
        assert(0 * gravity.y * dt == 0) by (nonlinear_arith);
    }
}

/// Largest tilt of the avatar: a third of a half turn, in microradians.
pub const MAX_TILT: i64 = 1_047_198;

/// Tilt per milli-pixel of vertical velocity, in microradians.
pub const TILT_PER_SPEED: i64 = 50;

/// The avatar's tilt for a vertical velocity, `vel_y * 0.05` radians per pixel,
/// held between `-MAX_TILT` and `MAX_TILT`.
pub open spec fn tilt_of(vel_y: int) -> int {
    let a = vel_y * TILT_PER_SPEED;
    if a > MAX_TILT {
        MAX_TILT as int
    } else if a < -MAX_TILT {
        -MAX_TILT
    } else {
        a
    }
}

/// The avatar's tilt in microradians, a pure function of its vertical velocity.
pub fn tilt_angle(vel_y: i32) -> (r: i64)
    ensures
        r == tilt_of(vel_y as int),
        -MAX_TILT <= r <= MAX_TILT,
{
    let a = vel_y as i64 * TILT_PER_SPEED;
    if a > MAX_TILT {
        MAX_TILT
    } else if a < -MAX_TILT {
        -MAX_TILT
    } else {
        a
    }
}

} // verus!
