//! A repeating interval timer that fires at most once per tick.
use vstd::prelude::*;

verus! {

/// Counts elapsed milliseconds towards an interval.
#[derive(Clone, Copy, Debug, PartialEq, Eq, Structural)]
pub struct SpawnTimer {
    pub interval: u32,
    pub elapsed: u32,
}

/// The timer after one tick of `dt`, and whether it fired: it fires once the
/// elapsed time reaches the interval, and then starts again from zero, however
/// many intervals the tick covered.
pub open spec fn ticked(t: SpawnTimer, dt: int) -> (SpawnTimer, bool) {
    if t.elapsed + dt >= t.interval {
        (SpawnTimer { elapsed: 0, ..t }, true)
    } else {
        (SpawnTimer { elapsed: (t.elapsed + dt) as u32, ..t }, false)
    }
}

/// The timer after `n` ticks of `dt` each.
pub open spec fn ticked_n(t: SpawnTimer, dt: int, n: nat) -> SpawnTimer
    decreases n,
{
    if n == 0 {
        t
    } else {
        ticked(ticked_n(t, dt, (n - 1) as nat), dt).0
    }
}

/// Whether the `n`-th tick of `dt`, counted from 1, fires.
pub open spec fn fires_on(t: SpawnTimer, dt: int, n: nat) -> bool {
    n >= 1 && ticked(ticked_n(t, dt, (n - 1) as nat), dt).1
}

impl SpawnTimer {
    pub open spec fn wf(&self) -> bool {
        self.elapsed < self.interval || self.elapsed == 0
    }

    /// A timer of the given interval that has just started.
    pub fn new(interval: u32) -> (r: SpawnTimer)
        ensures
            r.interval == interval,
            r.elapsed == 0,
            r.wf(),
    {
        SpawnTimer { interval, elapsed: 0 }
    }

    /// Advances the timer by `dt` and says whether it fired.
    pub fn tick(&mut self, dt: u32) -> (fired: bool)
        requires
            old(self).wf(),
        ensures
            (*final(self), fired) == ticked(*old(self), dt as int),
            final(self).wf(),
    {
        let sum = self.elapsed as u64 + dt as u64;
        if sum >= self.interval as u64 {
            self.elapsed = 0;
            true
        } else {
            self.elapsed = sum as u32;
            false
        }
    }
}

/// A timer started at zero and ticked by `dt > 0` fires first on the `m`-th
/// tick, where `m` is the least count of ticks that covers the interval; it does
/// not fire before, and after that tick it is back where it began, so the next
/// firing again comes `m` ticks later.
pub proof fn lemma_fires_every(t: SpawnTimer, dt: int, m: nat)
    requires
        t.elapsed == 0,
        dt > 0,
        m >= 1,
        (m - 1) * dt < t.interval <= m * dt,
    ensures
        forall|k: nat| 1 <= k < m ==> !#[trigger] fires_on(t, dt, k),
        fires_on(t, dt, m),
        ticked_n(t, dt, m) == t,
        ticked_n(ticked_n(t, dt, m), dt, m) == t,
{
    assert forall|k: nat| k < m implies ticked_n(t, dt, k).elapsed == k * dt
        && ticked_n(t, dt, k).interval == t.interval by {
        lemma_elapsed_grows(t, dt, m, k);
    }
    assert forall|k: nat| 1 <= k < m implies !#[trigger] fires_on(t, dt, k) by {
        let j = (k - 1) as nat;
        assert(ticked_n(t, dt, j).elapsed == j * dt);
        assert(j * dt + dt == k * dt) by (nonlinear_arith)
            requires
                j + 1 == k,
        ;
        assert(k * dt <= (m - 1) * dt) by (nonlinear_arith)
            requires
                k <= m - 1,
                dt > 0,
        ;
    }
    let j = (m - 1) as nat;
    assert(ticked_n(t, dt, j).elapsed == j * dt);
    assert(j * dt + dt == m * dt) by (nonlinear_arith)
        requires
            j + 1 == m,
    ;
}

proof fn lemma_elapsed_grows(t: SpawnTimer, dt: int, m: nat, k: nat)
    requires
        t.elapsed == 0,
        dt > 0,
        (m - 1) * dt < t.interval,
        k < m,
    ensures
        ticked_n(t, dt, k).elapsed == k * dt,
        ticked_n(t, dt, k).interval == t.interval,
    decreases k,
{
    if k == 0 {
        assert(0 * dt == 0) by (nonlinear_arith);
    } else {
        let j = (k - 1) as nat;
        lemma_elapsed_grows(t, dt, m, j);
        assert(j * dt + dt == k * dt) by (nonlinear_arith)
            requires
                j + 1 == k,
        ;
        assert(k * dt <= (m - 1) * dt) by (nonlinear_arith)
            requires
                k <= m - 1,
                dt > 0,
        ;
    }
}

} // verus!
