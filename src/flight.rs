//! The flight game: an avatar falls under gravity and jumps between pairs of
//! obstacles that scroll in from the right.
use vstd::prelude::*;
use crate::geom::{aabb_collision, boxes_overlap, sat, saturate, Vec2};
use crate::motion::{fallen, shift, shifted, tilt_angle, tilt_of, Body};
use crate::random::random_between;
use crate::timer::{ticked, SpawnTimer};

verus! {

pub const FIELD_WIDTH: i32 = 288_000;
pub const FIELD_HEIGHT: i32 = 512_000;
pub const AVATAR_WIDTH: i32 = 24_000;
pub const AVATAR_HEIGHT: i32 = 32_000;
/// Downward pull, added to the per-frame velocity for each millisecond.
pub const GRAVITY_Y: i32 = -8;
/// Vertical velocity, per frame, that a jump sets.
pub const JUMP_SPEED: i32 = 5_000;
pub const OBSTACLE_WIDTH: i32 = 52_000;
pub const OBSTACLE_HEIGHT: i32 = 320_000;
/// Time between two obstacle pairs, in milliseconds.
pub const SPAWN_INTERVAL: u32 = 2_000;
/// Height of the opening between the two obstacles of a pair.
pub const GAP_HEIGHT: i32 = 100_000;
/// Horizontal displacement of an obstacle per frame.
pub const OBSTACLE_STEP: i32 = -3_000;
/// Distance beyond the right edge at which obstacles appear.
pub const LEAD_MARGIN: i32 = 200_000;
/// Where new obstacles appear: half the field, half an obstacle and the lead
/// margin to the right of the centre.
pub const SPAWN_X: i32 = 370_000;
/// Obstacles whose centre has moved left of this, half the field and half an
/// obstacle left of the centre, are removed.
pub const DESPAWN_X: i32 = -170_000;
/// Lowest gap centre that spawning draws.
pub const GAP_LOW: i32 = -100_000;
/// Gap centres are drawn below this.
pub const GAP_HIGH: i32 = 100_000;

/// An obstacle and its per-frame displacement.
#[derive(Clone, Copy, Debug, PartialEq, Eq, Structural)]
pub struct Obstacle {
    pub pos: Vec2,
    pub vel: Vec2,
}

pub open spec fn avatar_size() -> Vec2 {
    Vec2 { x: AVATAR_WIDTH, y: AVATAR_HEIGHT }
}

pub open spec fn obstacle_size() -> Vec2 {
    Vec2 { x: OBSTACLE_WIDTH, y: OBSTACLE_HEIGHT }
}

/// Centre height of the lower obstacle of a pair around `gap`.
pub open spec fn lower_center(gap: int) -> int {
    sat(gap - GAP_HEIGHT / 2 - OBSTACLE_HEIGHT / 2)
}

/// Centre height of the upper obstacle of a pair around `gap`.
pub open spec fn upper_center(gap: int) -> int {
    sat(gap + GAP_HEIGHT / 2 + OBSTACLE_HEIGHT / 2)
}

/// The pair of obstacles, lower first, around a gap centred at height `gap`.
pub open spec fn pair_at(gap: int) -> Seq<Obstacle> {
    seq![
        Obstacle {
            pos: Vec2 { x: SPAWN_X, y: lower_center(gap) as i32 },
            vel: Vec2 { x: OBSTACLE_STEP, y: 0 },
        },
        Obstacle {
            pos: Vec2 { x: SPAWN_X, y: upper_center(gap) as i32 },
            vel: Vec2 { x: OBSTACLE_STEP, y: 0 },
        },
    ]
}

/// Builds the two obstacles around a gap centred at height `gap`, lower first.
pub fn obstacle_pair(gap: i32) -> (r: (Obstacle, Obstacle))
    ensures
        seq![r.0, r.1] == pair_at(gap as int),
{
    let half_span = GAP_HEIGHT as i64 / 2 + OBSTACLE_HEIGHT as i64 / 2;
    let vel = Vec2 { x: OBSTACLE_STEP, y: 0 };
    let lower = Obstacle {
        pos: Vec2 { x: SPAWN_X, y: saturate(gap as i64 - half_span) },
        vel,
    };
    let upper = Obstacle {
        pos: Vec2 { x: SPAWN_X, y: saturate(gap as i64 + half_span) },
        vel,
    };
    (lower, upper)
}

/// Whether an obstacle has left the field on the trailing side.
pub open spec fn is_gone(o: Obstacle) -> bool {
    o.pos.x < DESPAWN_X
}

/// The obstacles that stay, in their order.
pub open spec fn kept(s: Seq<Obstacle>) -> Seq<Obstacle>
    decreases s.len(),
{
    if s.len() == 0 {
        s
    } else {
        let k = kept(s.drop_last());
        if is_gone(s.last()) {
            k
        } else {
            k.push(s.last())
        }
    }
}

/// Every obstacle moved by its own per-frame displacement.
pub open spec fn moved(s: Seq<Obstacle>) -> Seq<Obstacle> {
    s.map_values(|o: Obstacle| Obstacle { pos: shifted(o.pos, o.vel), vel: o.vel })
}

/// Whether the avatar touches the top or bottom of the field: its lower edge at
/// or below the bottom, or its upper edge at or above the top.
pub open spec fn out_of_field(pos: Vec2) -> bool {
    2 * pos.y - AVATAR_HEIGHT <= -FIELD_HEIGHT || 2 * pos.y + AVATAR_HEIGHT >= FIELD_HEIGHT
}

/// Whether the avatar at `pos` is out of the field or overlaps an obstacle.
pub open spec fn crashed(pos: Vec2, s: Seq<Obstacle>) -> bool {
    out_of_field(pos) || exists|i: int|
        0 <= i < s.len() && boxes_overlap(pos, avatar_size(), #[trigger] s[i].pos, obstacle_size())
}

/// Removes the obstacles that have left the field, keeping the order of the rest.
pub fn despawn(obstacles: &mut Vec<Obstacle>)
    ensures
        final(obstacles)@ == kept(old(obstacles)@),
{
    let n = obstacles.len();
    let mut out: Vec<Obstacle> = Vec::new();
    let mut i: usize = 0;
    while i < n
        invariant
            n == obstacles@.len(),
            i <= n,
            out@ == kept(obstacles@.subrange(0, i as int)),
        decreases n - i,
    {
        let o = obstacles[i];
        proof {
            let s = obstacles@.subrange(0, i + 1);
            assert(s.drop_last() =~= obstacles@.subrange(0, i as int));
        }
        if o.pos.x >= DESPAWN_X {
            out.push(o);
        }
        i = i + 1;
    }
    assert(obstacles@.subrange(0, n as int) =~= obstacles@);
    *obstacles = out;
}

/// Moves every obstacle by its per-frame displacement.
pub fn move_obstacles(obstacles: &mut Vec<Obstacle>)
    ensures
        final(obstacles)@ == moved(old(obstacles)@),
{
    let n = obstacles.len();
    let mut i: usize = 0;
    while i < n
        invariant
            n == obstacles@.len(),
            n == old(obstacles)@.len(),
            i <= n,
            forall|j: int| 0 <= j < i ==> #[trigger] obstacles@[j] == moved(old(obstacles)@)[j],
            forall|j: int| i <= j < n ==> #[trigger] obstacles@[j] == old(obstacles)@[j],
        decreases n - i,
    {
        let o = obstacles[i];
        obstacles.set(i, Obstacle { pos: shift(o.pos, o.vel), vel: o.vel });
        assert(obstacles@[i as int] == moved(old(obstacles)@)[i as int]);
        i = i + 1;
    }
    assert(obstacles@ =~= moved(old(obstacles)@));
}

/// Whether the avatar at `pos` has crashed into the field's edge or an obstacle.
pub fn avatar_crashed(pos: Vec2, obstacles: &Vec<Obstacle>) -> (r: bool)
    ensures
        r == crashed(pos, obstacles@),
{
    let bottom = 2 * (pos.y as i64) - AVATAR_HEIGHT as i64;
    let top = 2 * (pos.y as i64) + AVATAR_HEIGHT as i64;
    if bottom <= -(FIELD_HEIGHT as i64) || top >= FIELD_HEIGHT as i64 {
        return true;
    }
    let size = Vec2 { x: AVATAR_WIDTH, y: AVATAR_HEIGHT };
    let osize = Vec2 { x: OBSTACLE_WIDTH, y: OBSTACLE_HEIGHT };
    let mut i: usize = 0;
    while i < obstacles.len()
        invariant
            i <= obstacles@.len(),
            size == avatar_size(),
            osize == obstacle_size(),
            forall|j: int|
                0 <= j < i ==> !boxes_overlap(
                    pos,
                    avatar_size(),
                    #[trigger] obstacles@[j].pos,
                    obstacle_size(),
                ),
        decreases obstacles@.len() - i,
    {
        if aabb_collision(pos, size, obstacles[i].pos, osize) {
            return true;
        }
        i = i + 1;
    }
    false
}

/// The state of one round of the flight game.
#[derive(Debug)]
pub struct FlightGame {
    pub avatar: Body,
    /// The avatar's tilt in microradians, for drawing.
    pub tilt: i64,
    pub obstacles: Vec<Obstacle>,
    pub timer: SpawnTimer,
    pub over: bool,
}

/// The avatar after input: a jump sets its vertical velocity.
pub open spec fn after_input(b: Body, jump: bool) -> Body {
    if jump {
        Body { vel: Vec2 { y: JUMP_SPEED, ..b.vel }, ..b }
    } else {
        b
    }
}

pub open spec fn gravity() -> Vec2 {
    Vec2 { x: 0, y: GRAVITY_Y }
}

/// The obstacles after motion and spawning, before removal.
pub open spec fn obstacles_before_removal(
    s: Seq<Obstacle>,
    t: SpawnTimer,
    dt: int,
    gap: int,
) -> Seq<Obstacle> {
    if ticked(t, dt).1 {
        moved(s) + pair_at(gap)
    } else {
        moved(s)
    }
}

impl FlightGame {
    pub open spec fn wf(&self) -> bool {
        self.timer.wf()
    }

    /// Whether `next` is this game after one frame of `dt` milliseconds, with
    /// the jump input `jump` and `gap` as the centre of a pair spawned in it.
    pub open spec fn steps_to(&self, next: &FlightGame, jump: bool, dt: int, gap: int) -> bool {
        let avatar = fallen(after_input(self.avatar, jump), gravity(), dt);
        let all = obstacles_before_removal(self.obstacles@, self.timer, dt, gap);
        &&& next.avatar == avatar
        &&& next.tilt == tilt_of(avatar.vel.y as int)
        &&& next.timer == ticked(self.timer, dt).0
        &&& next.obstacles@ == kept(all)
        &&& next.over == (self.over || crashed(avatar.pos, all))
    }

    /// A new round: the avatar at rest in the centre, no obstacles.
    pub fn new() -> (r: FlightGame)
        ensures
            r.wf(),
            r.avatar.pos == (Vec2 { x: 0, y: 0 }),
            r.avatar.vel == (Vec2 { x: 0, y: 0 }),
            r.tilt == 0,
            r.obstacles@.len() == 0,
            r.timer == (SpawnTimer { interval: SPAWN_INTERVAL, elapsed: 0 }),
            !r.over,
    {
        FlightGame {
            avatar: Body { pos: Vec2 { x: 0, y: 0 }, vel: Vec2 { x: 0, y: 0 } },
            tilt: 0,
            obstacles: Vec::new(),
            timer: SpawnTimer::new(SPAWN_INTERVAL),
            over: false,
        }
    }

    /// One frame: input, fall, obstacle motion, spawning around `gap` when the
    /// timer fires, the crash check, then removal of obstacles that left.
    pub fn step_with(&mut self, jump: bool, dt: u32, gap: i32)
        requires
            old(self).wf(),
        ensures
            final(self).wf(),
            old(self).steps_to(&*final(self), jump, dt as int, gap as int),
    {
        if jump {
            self.avatar.jump(JUMP_SPEED);
        }
        self.avatar.fall(Vec2 { x: 0, y: GRAVITY_Y }, dt);
        self.tilt = tilt_angle(self.avatar.vel.y);
        move_obstacles(&mut self.obstacles);
        let fired = self.timer.tick(dt);
        if fired {
            let (lower, upper) = obstacle_pair(gap);
            self.obstacles.push(lower);
            self.obstacles.push(upper);
        }
        if avatar_crashed(self.avatar.pos, &self.obstacles) {
            self.over = true;
        }
        despawn(&mut self.obstacles);
        proof {
            let all = obstacles_before_removal(old(self).obstacles@, old(self).timer, dt as int, gap as int);
            if fired {
                assert(all =~= moved(old(self).obstacles@).push(pair_at(gap as int)[0]).push(pair_at(gap as int)[1]));
            }
        }
    }

    /// One frame, with the centre of any pair spawned in it drawn uniformly from
    /// `GAP_LOW..GAP_HIGH`.
    pub fn step(&mut self, jump: bool, dt: u32)
        requires
            old(self).wf(),
        ensures
            final(self).wf(),
            exists|gap: int|
                GAP_LOW <= gap < GAP_HIGH && #[trigger] old(self).steps_to(&*final(self), jump, dt as int, gap),
    {
        let gap = random_between(GAP_LOW, GAP_HIGH);
        self.step_with(jump, dt, gap);
    }
}

} // verus!
