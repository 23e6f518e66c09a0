//! The growing-trail game: a chain steered by direction keys eats pickups and
//! grows; it ends when the head runs into the chain or leaves the field at the
//! top or bottom.
use vstd::prelude::*;
use crate::chain::{
    advanced, behind, grown, heading_velocity, self_hit, steered, Chain, Heading, TurnInput,
    SEGMENT_SIZE,
};
use crate::geom::{near, proximity, Vec2};
use crate::random::random_between;

verus! {

pub const FIELD_WIDTH: i32 = 800_000;
pub const FIELD_HEIGHT: i32 = 600_000;
/// Speed of the head, in pixels per second.
pub const SPEED: i32 = 200;
pub const PICKUP_SIZE: i32 = 10_000;
/// Segments in the chain at the start.
pub const START_LEN: usize = 3;

/// Whether the head has crossed the top or bottom edge of the field.
pub open spec fn head_out(head: Vec2) -> bool {
    2 * head.y > FIELD_HEIGHT || 2 * head.y < -FIELD_HEIGHT
}

/// Whether a chain's head is near the pickup at `pickup`.
pub open spec fn reaches(s: Seq<Vec2>, pickup: Vec2) -> bool {
    s.len() > 0 && near(s[0], SEGMENT_SIZE as int, pickup, PICKUP_SIZE as int)
}

/// Whether a respawn place lies on the field.
pub open spec fn on_field(p: Vec2) -> bool {
    &&& -FIELD_WIDTH / 2 <= p.x < FIELD_WIDTH / 2
    &&& -FIELD_HEIGHT / 2 <= p.y < FIELD_HEIGHT / 2
}

pub open spec fn origin() -> Vec2 {
    Vec2 { x: 0, y: 0 }
}

/// The state of one round of the trail game.
#[derive(Debug)]
pub struct TrailGame {
    pub chain: Chain,
    pub heading: Heading,
    pub pickup: Vec2,
    pub over: bool,
}

impl TrailGame {
    /// Whether `next` is this game after one frame of `dt` milliseconds with
    /// `input`, where a pickup eaten in it comes back at `respawn`.
    pub open spec fn steps_to(&self, next: &TrailGame, input: TurnInput, dt: int, respawn: Vec2) -> bool {
        let heading = steered(self.heading, input);
        let moved = advanced(self.chain.segments@, heading_velocity(heading, SPEED as int), dt);
        let ate = reaches(moved, self.pickup);
        let s = if ate { grown(moved) } else { moved };
        &&& next.heading == heading
        &&& next.chain.segments@ == s
        &&& next.pickup == (if ate { respawn } else { self.pickup })
        &&& next.over == (self.over || self_hit(s) || (s.len() > 0 && head_out(s[0])))
    }

    /// A new round: a straight chain of three segments with its head at the
    /// centre, heading right, and the pickup up and to the right.
    pub fn new() -> (r: TrailGame)
        ensures
            r.chain.segments@.len() == START_LEN,
            forall|i: int| 0 <= i < START_LEN ==> #[trigger] r.chain.segments@[i] == behind(origin(), i),
            r.heading == Heading::Right,
            r.pickup == (Vec2 { x: 50_000, y: 50_000 }),
            !r.over,
    {
        let chain = Chain::straight(Vec2 { x: 0, y: 0 }, START_LEN);
        TrailGame { chain, heading: Heading::Right, pickup: Vec2 { x: 50_000, y: 50_000 }, over: false }
    }

    /// One frame: input, the chain's move, eating and growth, then the end
    /// checks. An eaten pickup comes back at `respawn`.
    pub fn step_with(&mut self, input: TurnInput, dt: u32, respawn: Vec2)
        ensures
            old(self).steps_to(&*final(self), input, dt as int, respawn),
            final(self).chain.segments@.len() >= old(self).chain.segments@.len(),
    {
        self.heading = self.heading.steer(input);
        let vel = self.heading.velocity(SPEED);
        self.chain.advance(vel, dt);
        let n = self.chain.segments.len();
        if n > 0 && proximity(self.chain.segments[0], SEGMENT_SIZE, self.pickup, PICKUP_SIZE) {
            self.chain.grow();
            self.pickup = respawn;
        }
        let bitten = self.chain.bites_itself();
        let n = self.chain.segments.len();
        let out = n > 0 && (2 * (self.chain.segments[0].y as i64) > FIELD_HEIGHT as i64 || 2
            * (self.chain.segments[0].y as i64) < -(FIELD_HEIGHT as i64));
        if bitten || out {
            self.over = true;
        }
    }

    /// One frame, with an eaten pickup coming back at a place drawn uniformly
    /// from the field.
    pub fn step(&mut self, input: TurnInput, dt: u32)
        ensures
            exists|p: Vec2| on_field(p) && #[trigger] old(self).steps_to(&*final(self), input, dt as int, p),
    {
        let x = random_between(-400_000, 400_000);
        let y = random_between(-300_000, 300_000);
        self.step_with(input, dt, Vec2 { x, y });
    }
}

} // verus!
