use vstd::prelude::*;
use crate::geometry::Pos;
use crate::motion::Bounds;
use crate::registry::{created, first_player, Entity, Registry, Tag};

verus! {

/// Time between asteroid spawns, in microseconds.
pub const SPAWN_INTERVAL: u64 = 500_000;

/// Number of distinct values of one random draw; a draw `r` stands for the
/// fraction `r / DRAW_RANGE` of `[0, 1)`.
pub const DRAW_RANGE: u128 = 0x1_0000_0000;

/// The timer state after `dt` more microseconds, and whether it fired: it
/// fires once the accumulated time reaches the interval, and then restarts
/// from zero (any overage is dropped).
pub open spec fn timer_step(elapsed: nat, dt: nat) -> (bool, nat) {
    if elapsed + dt >= SPAWN_INTERVAL {
        (true, 0)
    } else {
        (false, elapsed + dt)
    }
}

/// Accumulates elapsed time and fires every `SPAWN_INTERVAL`.
pub struct SpawnTimer {
    elapsed: u64,
}

impl View for SpawnTimer {
    type V = nat;

    closed spec fn view(&self) -> nat {
        self.elapsed as nat
    }
}

impl SpawnTimer {
    /// The accumulated time is below the interval.
    pub open spec fn wf(&self) -> bool {
        self@ < SPAWN_INTERVAL
    }

    /// A timer with nothing accumulated.
    pub fn new() -> (r: SpawnTimer)
        ensures
            r.wf(),
            r@ == 0,
    {
        SpawnTimer { elapsed: 0 }
    }

    /// Microseconds accumulated since the last firing.
    pub fn elapsed(&self) -> (r: u64)
        ensures
            r == self@,
    {
        self.elapsed
    }

    /// Adds `dt` microseconds; returns whether the timer fired.
    pub fn tick(&mut self, dt: u32) -> (fired: bool)
        requires
            old(self).wf(),
        ensures
            final(self).wf(),
            (fired, final(self)@) == timer_step(old(self)@, dt as nat),
    {
        let total: u64 = self.elapsed + dt as u64;
        if total >= SPAWN_INTERVAL {
            self.elapsed = 0;
            true
        } else {
            self.elapsed = total;
            false
        }
    }
}

/// Where an asteroid appears for the draws `rx` and `ry`: anywhere across the
/// width, and above the top edge by up to one width.
pub open spec fn asteroid_origin(b: Bounds, rx: u32, ry: u32) -> Pos {
    Pos {
        x: (b.width * rx / (DRAW_RANGE as int)) as i64,
        y: (b.height + b.width * ry / (DRAW_RANGE as int)) as i64,
    }
}

/// `w * r / DRAW_RANGE`: the fraction `r / DRAW_RANGE` of `w`, rounded down.
fn scale(w: i64, r: u32) -> (s: i64)
    requires
        0 <= w <= 0x1_0000_0000_0000,
    ensures
        s == w * r / (DRAW_RANGE as int),
        0 <= s <= w,
{
    assert(w * r <= 0x1_0000_0000_0000 * 0x1_0000_0000) by (nonlinear_arith)
        requires
            0 <= w <= 0x1_0000_0000_0000,
            0 <= r < 0x1_0000_0000,
    ;
    let p: u128 = w as u128 * r as u128;
    assert(p as int / (DRAW_RANGE as int) <= w) by (nonlinear_arith)
        requires
            p == w * r,
            0 <= r < DRAW_RANGE,
            0 <= w,
    ;
    (p / DRAW_RANGE) as i64
}

/// Where an asteroid appears for the draws `rx` and `ry`.
pub fn asteroid_origin_of(b: &Bounds, rx: u32, ry: u32) -> (p: Pos)
    requires
        b.wf(),
    ensures
        p == asteroid_origin(*b, rx, ry),
        0 <= p.x <= b.width,
        b.height <= p.y <= b.height + b.width,
{
    Pos { x: scale(b.width, rx), y: b.height + scale(b.width, ry) }
}

/// Advances the timer by `dt`; when it fires, creates one asteroid at the
/// origin given by the draws. Returns whether it fired.
pub fn spawn_asteroid(reg: &mut Registry, timer: &mut SpawnTimer, bounds: &Bounds, dt: u32, rx: u32, ry: u32) -> (fired: bool)
    requires
        old(reg).wf(),
        old(timer).wf(),
        bounds.wf(),
    ensures
        final(reg).wf(),
        final(timer).wf(),
        (fired, final(timer)@) == timer_step(old(timer)@, dt as nat),
        (final(reg)@, final(reg).next_id()) == if fired {
            created(old(reg)@, old(reg).next_id(), Tag::Asteroid, asteroid_origin(*bounds, rx, ry))
        } else {
            (old(reg)@, old(reg).next_id())
        },
{
    let fired = timer.tick(dt);
    if fired {
        let origin = asteroid_origin_of(bounds, rx, ry);
        let _ = reg.create(Tag::Asteroid, origin);
    }
    fired
}

/// The fire command became active this frame.
pub open spec fn fire_edge(held_before: bool, fire: bool) -> bool {
    fire && !held_before
}

/// A shot is made: the fire command rose, a player is alive, and ids are left.
pub open spec fn shoots(s: Seq<Entity>, next: nat, edge: bool) -> bool {
    edge && first_player(s) is Some && next < u64::MAX
}

/// On a rising fire edge, creates one projectile at the player's position;
/// returns whether it did (and so whether a laser sound is due).
pub fn spawn_projectile(reg: &mut Registry, edge: bool) -> (shot: bool)
    requires
        old(reg).wf(),
    ensures
        final(reg).wf(),
        shot == shoots(old(reg)@, old(reg).next_id(), edge),
        (final(reg)@, final(reg).next_id()) == if shot {
            created(old(reg)@, old(reg).next_id(), Tag::Projectile, first_player(old(reg)@)->Some_0.pos)
        } else {
            (old(reg)@, old(reg).next_id())
        },
{
    if !edge {
        return false;
    }
    match reg.player() {
        Some(p) => {
            let id = reg.create(Tag::Projectile, p.pos);
            id.is_some()
        },
        None => false,
    }
}

} // verus!
