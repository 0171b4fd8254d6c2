use vstd::prelude::*;
use crate::geometry::{
    clamp, clamp_exec, diagonal, diagonal_step, offset, saturate, Pos, HALF_PLAYER_SIZE,
    MAX_VIEWPORT, PLAYER_SIZE, SUBUNITS,
};
use crate::registry::{Entity, Registry, Tag};

verus! {

/// Player speed, in pixels per second (sub-units per microsecond).
pub const PLAYER_SPEED: i64 = 600;

/// Projectile speed, upward.
pub const PROJECTILE_SPEED: i64 = 800;

/// Asteroid speed, downward.
pub const ASTEROID_SPEED: i64 = 200;

/// A viewport dimension that cannot be simulated.
#[derive(Clone, Copy, Debug, PartialEq, Eq, Structural)]
pub enum ConfigError {
    /// A side is smaller than the player's footprint (this includes zero).
    TooSmall,
    /// A side is larger than `MAX_VIEWPORT` pixels.
    TooLarge,
}

/// The viewport, in sub-units.
#[derive(Clone, Copy, Debug, PartialEq, Eq, Structural)]
pub struct Bounds {
    pub width: i64,
    pub height: i64,
}

/// The viewport of `width` by `height` pixels, or why it cannot be simulated.
pub open spec fn bounds_of(width: u32, height: u32) -> Result<Bounds, ConfigError> {
    if width < PLAYER_SIZE / SUBUNITS || height < PLAYER_SIZE / SUBUNITS {
        Err(ConfigError::TooSmall)
    } else if width > MAX_VIEWPORT || height > MAX_VIEWPORT {
        Err(ConfigError::TooLarge)
    } else {
        Ok(Bounds { width: (width * SUBUNITS) as i64, height: (height * SUBUNITS) as i64 })
    }
}

impl Bounds {
    /// Both sides hold the player's footprint and stay within `MAX_VIEWPORT` pixels.
    pub open spec fn wf(&self) -> bool {
        &&& PLAYER_SIZE <= self.width <= MAX_VIEWPORT * SUBUNITS
        &&& PLAYER_SIZE <= self.height <= MAX_VIEWPORT * SUBUNITS
    }

    /// The viewport of `width` by `height` pixels.
    pub fn new(width: u32, height: u32) -> (r: Result<Bounds, ConfigError>)
        ensures
            r == bounds_of(width, height),
            r is Ok ==> r->Ok_0.wf(),
    {
        if width < 64 || height < 64 {
            Err(ConfigError::TooSmall)
        } else if width > MAX_VIEWPORT || height > MAX_VIEWPORT {
            Err(ConfigError::TooLarge)
        } else {
            Ok(Bounds { width: width as i64 * SUBUNITS, height: height as i64 * SUBUNITS })
        }
    }
}

/// The keys held during one frame.
#[derive(Clone, Copy, Debug, PartialEq, Eq, Structural)]
pub struct Input {
    pub up: bool,
    pub down: bool,
    pub left: bool,
    pub right: bool,
    pub fire: bool,
}

/// Direction along one axis from a positive and a negative key: -1, 0 or 1.
pub open spec fn axis(pos: bool, neg: bool) -> int {
    (if pos { 1int } else { 0int }) - (if neg { 1int } else { 0int })
}

/// The player's displacement over `dt` microseconds: the held directions,
/// normalized to unit length, times the player's speed.
pub open spec fn player_shift(input: Input, dt: nat) -> (int, int) {
    let sx = axis(input.right, input.left);
    let sy = axis(input.up, input.down);
    let d = PLAYER_SPEED * dt;
    if sx != 0 && sy != 0 {
        (sx * diagonal(d), sy * diagonal(d))
    } else {
        (sx * d, sy * d)
    }
}

/// Displacement over `dt` microseconds of an entity of `tag`.
pub open spec fn shift(tag: Tag, input: Input, dt: nat) -> (int, int) {
    match tag {
        Tag::Player => player_shift(input, dt),
        Tag::Projectile => (0, PROJECTILE_SPEED * dt),
        Tag::Asteroid => (0, -ASTEROID_SPEED * dt),
    }
}

/// `e` after moving for `dt` microseconds.
pub open spec fn moved(e: Entity, input: Input, dt: nat) -> Entity {
    let (dx, dy) = shift(e.tag, input, dt);
    Entity { pos: Pos { x: saturate(e.pos.x + dx) as i64, y: saturate(e.pos.y + dy) as i64 }, ..e }
}

/// `e` kept inside `b` if it is the player: each axis clamped to
/// `[HALF_PLAYER_SIZE, side - HALF_PLAYER_SIZE]`.
pub open spec fn confined(e: Entity, b: Bounds) -> Entity {
    if e.tag == Tag::Player {
        Entity {
            pos: Pos {
                x: clamp(e.pos.x as int, HALF_PLAYER_SIZE as int, b.width - HALF_PLAYER_SIZE) as i64,
                y: clamp(e.pos.y as int, HALF_PLAYER_SIZE as int, b.height - HALF_PLAYER_SIZE) as i64,
            },
            ..e
        }
    } else {
        e
    }
}

fn axis_exec(pos: bool, neg: bool) -> (r: i64)
    ensures
        r == axis(pos, neg),
        -1 <= r <= 1,
{
    (if pos { 1 } else { 0 }) - (if neg { 1 } else { 0 })
}

/// `m` with the sign `s`.
fn signed(s: i64, m: i64) -> (r: i64)
    requires
        -1 <= s <= 1,
        0 <= m,
    ensures
        r == s * m,
{
    assert(s == 1 ==> s * m == m) by (nonlinear_arith);
    assert(s == -1 ==> s * m == -m) by (nonlinear_arith);
    assert(s == 0 ==> s * m == 0) by (nonlinear_arith);
    if s > 0 {
        m
    } else if s < 0 {
        -m
    } else {
        0
    }
}

/// Displacement over `dt` microseconds of an entity of `tag`.
pub fn shift_of(tag: Tag, input: &Input, dt: u32) -> (r: (i64, i64))
    ensures
        r.0 == shift(tag, *input, dt as nat).0,
        r.1 == shift(tag, *input, dt as nat).1,
{
    match tag {
        Tag::Player => {
            let sx = axis_exec(input.right, input.left);
            let sy = axis_exec(input.up, input.down);
            let d: i64 = PLAYER_SPEED * dt as i64;
            if sx != 0 && sy != 0 {
                let c = diagonal_step(d as u64) as i64;
                (signed(sx, c), signed(sy, c))
            } else {
                (signed(sx, d), signed(sy, d))
            }
        },
        Tag::Projectile => (0, PROJECTILE_SPEED * dt as i64),
        Tag::Asteroid => (0, -(ASTEROID_SPEED * dt as i64)),
    }
}

/// Advances every entity by its velocity times `dt` microseconds.
pub fn integrate(reg: &mut Registry, input: &Input, dt: u32)
    requires
        old(reg).wf(),
    ensures
        final(reg).wf(),
        final(reg).next_id() == old(reg).next_id(),
        final(reg)@ == old(reg)@.map_values(|e: Entity| moved(e, *input, dt as nat)),
{
    let n = reg.len();
    let mut i: usize = 0;
    while i < n
        invariant
            reg.wf(),
            reg.next_id() == old(reg).next_id(),
            n == reg@.len(),
            n == old(reg)@.len(),
            i <= n,
            forall|k: int| 0 <= k < i ==> reg@[k] == moved(#[trigger] old(reg)@[k], *input, dt as nat),
            forall|k: int| i <= k < n ==> reg@[k] == old(reg)@[k],
        decreases n - i,
    {
        let e = reg.get(i);
        let (dx, dy) = shift_of(e.tag, input, dt);
        reg.set_pos(i, Pos { x: offset(e.pos.x, dx), y: offset(e.pos.y, dy) });
        i = i + 1;
    }
    assert(reg@ =~= old(reg)@.map_values(|e: Entity| moved(e, *input, dt as nat)));
}

/// Clamps the player, if alive, into the viewport.
pub fn confine(reg: &mut Registry, bounds: &Bounds)
    requires
        old(reg).wf(),
        bounds.wf(),
    ensures
        final(reg).wf(),
        final(reg).next_id() == old(reg).next_id(),
        final(reg)@ == old(reg)@.map_values(|e: Entity| confined(e, *bounds)),
{
    let n = reg.len();
    let mut i: usize = 0;
    while i < n
        invariant
            reg.wf(),
            bounds.wf(),
            reg.next_id() == old(reg).next_id(),
            n == reg@.len(),
            n == old(reg)@.len(),
            i <= n,
            forall|k: int| 0 <= k < i ==> reg@[k] == confined(#[trigger] old(reg)@[k], *bounds),
            forall|k: int| i <= k < n ==> reg@[k] == old(reg)@[k],
        decreases n - i,
    {
        let e = reg.get(i);
        if e.tag == Tag::Player {
            let x = clamp_exec(e.pos.x, HALF_PLAYER_SIZE, bounds.width - HALF_PLAYER_SIZE);
            let y = clamp_exec(e.pos.y, HALF_PLAYER_SIZE, bounds.height - HALF_PLAYER_SIZE);
            reg.set_pos(i, Pos { x, y });
        }
        i = i + 1;
    }
    assert(reg@ =~= old(reg)@.map_values(|e: Entity| confined(e, *bounds)));
}

} // verus!
