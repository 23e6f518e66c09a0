//! The growing trail: an ordered chain of segments whose head follows the
//! current heading and whose other segments each take the place that their
//! predecessor held before the tick.
use vstd::prelude::*;
use crate::geom::{near, proximity, sat, Vec2};
use crate::motion::{displace, displaced};

verus! {

/// Full width and height of a chain segment.
pub const SEGMENT_SIZE: i32 = 10_000;

/// Shortest chain that can run into itself.
pub const MIN_FOLDING_LEN: usize = 4;

/// One of the four directions the head can take.
#[derive(Clone, Copy, Debug, PartialEq, Eq, Structural)]
pub enum Heading {
    Up,
    Down,
    Left,
    Right,
}

/// The direction keys held in one frame.
#[derive(Clone, Copy, Debug, PartialEq, Eq, Structural)]
pub struct TurnInput {
    pub up: bool,
    pub down: bool,
    pub left: bool,
    pub right: bool,
}

/// The direction opposite `h`.
pub open spec fn reverse_of(h: Heading) -> Heading {
    match h {
        Heading::Up => Heading::Down,
        Heading::Down => Heading::Up,
        Heading::Left => Heading::Right,
        Heading::Right => Heading::Left,
    }
}

/// The heading after input: the first held key, in the order up, down, left,
/// right, whose direction does not reverse the current one; else no change.
pub open spec fn steered(cur: Heading, input: TurnInput) -> Heading {
    if input.up && cur != Heading::Down {
        Heading::Up
    } else if input.down && cur != Heading::Up {
        Heading::Down
    } else if input.left && cur != Heading::Right {
        Heading::Left
    } else if input.right && cur != Heading::Left {
        Heading::Right
    } else {
        cur
    }
}

/// Velocity of `speed` along a heading, up being positive y.
pub open spec fn heading_velocity(h: Heading, speed: int) -> Vec2 {
    match h {
        Heading::Up => Vec2 { x: 0, y: sat(speed) as i32 },
        Heading::Down => Vec2 { x: 0, y: sat(-speed) as i32 },
        Heading::Left => Vec2 { x: sat(-speed) as i32, y: 0 },
        Heading::Right => Vec2 { x: sat(speed) as i32, y: 0 },
    }
}

impl Heading {
    /// Applies validated input: a turn that would reverse the heading is
    /// ignored.
    pub fn steer(self, input: TurnInput) -> (r: Heading)
        ensures
            r == steered(self, input),
            r != reverse_of(self),
    {
        if input.up && self != Heading::Down {
            Heading::Up
        } else if input.down && self != Heading::Up {
            Heading::Down
        } else if input.left && self != Heading::Right {
            Heading::Left
        } else if input.right && self != Heading::Left {
            Heading::Right
        } else {
            self
        }
    }

    /// Velocity of `speed` along this heading.
    pub fn velocity(self, speed: i32) -> (r: Vec2)
        ensures
            r == heading_velocity(self, speed as int),
    {
        let back: i32 = if speed == i32::MIN {
            i32::MAX
        } else {
            -speed
        };
        match self {
            Heading::Up => Vec2 { x: 0, y: speed },
            Heading::Down => Vec2 { x: 0, y: back },
            Heading::Left => Vec2 { x: back, y: 0 },
            Heading::Right => Vec2 { x: speed, y: 0 },
        }
    }
}

/// The chain after one tick: the head moves by `vel * dt`, and each other
/// segment takes the place its predecessor held before the tick.
pub open spec fn advanced(s: Seq<Vec2>, vel: Vec2, dt: int) -> Seq<Vec2> {
    if s.len() == 0 {
        s
    } else {
        seq![displaced(s[0], vel, dt)] + s.subrange(0, s.len() - 1)
    }
}

/// The chain after it grew: a new segment at the tail's place.
pub open spec fn grown(s: Seq<Vec2>) -> Seq<Vec2> {
    if s.len() == 0 {
        s
    } else {
        s.push(s.last())
    }
}

/// Whether the head is near a segment other than itself, in a chain long
/// enough to fold.
pub open spec fn self_hit(s: Seq<Vec2>) -> bool {
    &&& s.len() >= MIN_FOLDING_LEN
    &&& exists|i: int|
        1 <= i < s.len() && near(s[0], SEGMENT_SIZE as int, #[trigger] s[i], SEGMENT_SIZE as int)
}

/// The place `i` segment widths behind `head` along `-x`.
pub open spec fn behind(head: Vec2, i: int) -> Vec2 {
    Vec2 { x: (head.x - i * SEGMENT_SIZE) as i32, y: head.y }
}

/// An ordered list of segment positions; index 0 is the head.
#[derive(Debug)]
pub struct Chain {
    pub segments: Vec<Vec2>,
}

impl Chain {
    /// A straight chain of `len` segments, the head at `head` and each other
    /// segment one segment width behind its predecessor along `-x`.
    pub fn straight(head: Vec2, len: usize) -> (r: Chain)
        requires
            head.x - len * SEGMENT_SIZE >= i32::MIN,
        ensures
            r.segments@.len() == len,
            forall|i: int| 0 <= i < len ==> #[trigger] r.segments@[i] == behind(head, i),
    {
        let mut segments: Vec<Vec2> = Vec::new();
        let mut i: usize = 0;
        while i < len
            invariant
                i <= len,
                head.x - len * SEGMENT_SIZE >= i32::MIN,
                segments@.len() == i,
                forall|j: int| 0 <= j < i ==> #[trigger] segments@[j] == behind(head, j),
            decreases len - i,
        {
            proof {
                assert(i * SEGMENT_SIZE <= len * SEGMENT_SIZE) by (nonlinear_arith)
                    requires
                        i <= len,
                ;
            }
            let x = head.x as i64 - (i as i64) * (SEGMENT_SIZE as i64);
            segments.push(Vec2 { x: x as i32, y: head.y });
            i = i + 1;
        }
        Chain { segments }
    }

    /// Moves the head by `vel * dt` and shifts every other segment into the place
    /// its predecessor held before this tick. An empty chain stays empty.
    pub fn advance(&mut self, vel: Vec2, dt: u32)
        ensures
            final(self).segments@ == advanced(old(self).segments@, vel, dt as int),
    {
        let n = self.segments.len();
        if n == 0 {
            return;
        }
        let mut before: Vec<Vec2> = Vec::new();
        let mut i: usize = 0;
        while i < n
            invariant
                n == self.segments@.len(),
                i <= n,
                before@ == self.segments@.subrange(0, i as int),
            decreases n - i,
        {
            before.push(self.segments[i]);
            i = i + 1;
        }
        let head = displace(before[0], vel, dt);
        self.segments.set(0, head);
        let mut k: usize = 1;
        while k < n
            invariant
                1 <= k <= n,
                before@ == old(self).segments@,
                n == before@.len(),
                self.segments@.len() == n,
                self.segments@[0] == head,
                head == displaced(before@[0], vel, dt as int),
                forall|j: int| 1 <= j < k ==> #[trigger] self.segments@[j] == before@[j - 1],
            decreases n - k,
        {
            let prev = before[k - 1];
            self.segments.set(k, prev);
            k = k + 1;
        }
        assert(self.segments@ =~= advanced(before@, vel, dt as int));
    }

    /// Appends a segment at the place the tail holds now.
    pub fn grow(&mut self)
        ensures
            final(self).segments@ == grown(old(self).segments@),
    {
        let n = self.segments.len();
        if n > 0 {
            let tail = self.segments[n - 1];
            self.segments.push(tail);
        }
    }

    /// Whether the head touches any other segment, once the chain is long enough
    /// to fold onto itself.
    pub fn bites_itself(&self) -> (r: bool)
        ensures
            r == self_hit(self.segments@),
    {
        let n = self.segments.len();
        if n < MIN_FOLDING_LEN {
            return false;
        }
        let head = self.segments[0];
        let mut i: usize = 1;
        while i < n
            invariant
                1 <= i <= n,
                n == self.segments@.len(),
                n >= MIN_FOLDING_LEN,
                head == self.segments@[0],
                forall|j: int|
                    1 <= j < i ==> !near(
                        head,
                        SEGMENT_SIZE as int,
                        #[trigger] self.segments@[j],
                        SEGMENT_SIZE as int,
                    ),
            decreases n - i,
        {
            if proximity(head, SEGMENT_SIZE, self.segments[i], SEGMENT_SIZE) {
                return true;
            }
            i = i + 1;
        }
        false
    }
}

/// After one tick the chain holds as many segments as before, and the places it
/// occupies are the head's new place and the places that all segments but the
/// tail held before the tick. Growing adds exactly one segment.
pub proof fn lemma_advance_places(s: Seq<Vec2>, vel: Vec2, dt: int)
    requires
        s.len() >= 1,
    ensures
        advanced(s, vel, dt).len() == s.len(),
        grown(s).len() == s.len() + 1,
        advanced(s, vel, dt).to_set() == set![displaced(s[0], vel, dt)].union(
            s.subrange(0, s.len() - 1).to_set(),
        ),
{
    let t = advanced(s, vel, dt);
    let h = displaced(s[0], vel, dt);
    let rest = s.subrange(0, s.len() - 1);
    assert forall|p: Vec2| t.to_set().contains(p) implies set![h].union(rest.to_set()).contains(
        p,
    ) by {
        let i = choose|i: int| 0 <= i < t.len() && t[i] == p;
        if i > 0 {
            assert(rest[i - 1] == p);
        }
    }
    assert forall|p: Vec2| set![h].union(rest.to_set()).contains(p) implies t.to_set().contains(
        p,
    ) by {
        if p == h {
            assert(t[0] == p);
        } else {
            let i = choose|i: int| 0 <= i < rest.len() && rest[i] == p;
            assert(t[i + 1] == p);
        }
    }
    assert(t.to_set() =~= set![h].union(rest.to_set()));
}

} // verus!
