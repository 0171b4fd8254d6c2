use vstd::prelude::*;

verus! {

/// Sub-units in one pixel (and microseconds in one second).
pub const SUBUNITS: i64 = 1_000_000;

/// Side of the player's square footprint, in sub-units.
pub const PLAYER_SIZE: i64 = 64_000_000;

/// Half the player's footprint: how close the player's center may come to an edge.
pub const HALF_PLAYER_SIZE: i64 = 32_000_000;

/// Centers of an asteroid and a projectile closer than this collide
/// (the asteroid's 64-pixel footprint less a 20-pixel margin).
pub const PROJECTILE_HIT_RANGE: i64 = 44_000_000;

/// Largest viewport side accepted, in pixels.
pub const MAX_VIEWPORT: u32 = 1_000_000;

/// A point of the plane, in sub-units, origin at the viewport's bottom-left.
#[derive(Clone, Copy, Debug, PartialEq, Eq, Structural)]
pub struct Pos {
    pub x: i64,
    pub y: i64,
}

/// `v` clamped into the range of `i64`.
pub open spec fn saturate(v: int) -> int {
    if v < i64::MIN {
        i64::MIN as int
    } else if v > i64::MAX {
        i64::MAX as int
    } else {
        v
    }
}

/// `v` clamped into `[lo, hi]`, the lower end checked first.
pub open spec fn clamp(v: int, lo: int, hi: int) -> int {
    if v < lo {
        lo
    } else if v > hi {
        hi
    } else {
        v
    }
}

/// Squared Euclidean distance between two points.
pub open spec fn dist_sq(p: Pos, q: Pos) -> int {
    (p.x - q.x) * (p.x - q.x) + (p.y - q.y) * (p.y - q.y)
}

/// The distance between `p` and `q` is strictly less than `range`.
pub open spec fn within(p: Pos, q: Pos, range: int) -> bool {
    dist_sq(p, q) < range * range
}

/// `c` is the length of each axis step of a diagonal move of length `d`,
/// rounded down: `c = floor(d / sqrt(2))`.
pub open spec fn is_diagonal(d: int, c: int) -> bool {
    0 <= c && 2 * c * c <= d * d && d * d < 2 * (c + 1) * (c + 1)
}

/// The axis step of a diagonal move of length `d`.
pub open spec fn diagonal(d: int) -> int {
    choose|c: int| is_diagonal(d, c)
}

/// `v + d`, saturated at the ends of `i64`.
pub fn offset(v: i64, d: i64) -> (r: i64)
    ensures
        r == saturate(v + d),
{
    let s: i128 = v as i128 + d as i128;
    if s < i64::MIN as i128 {
        i64::MIN
    } else if s > i64::MAX as i128 {
        i64::MAX
    } else {
        s as i64
    }
}

/// `v` clamped into `[lo, hi]`.
pub fn clamp_exec(v: i64, lo: i64, hi: i64) -> (r: i64)
    ensures
        r == clamp(v as int, lo as int, hi as int),
{
    if v < lo {
        lo
    } else if v > hi {
        hi
    } else {
        v
    }
}

/// Whether `p` and `q` are closer than `range`; exact, with no overflow for
/// any two points.
pub fn is_within(p: Pos, q: Pos, range: i64) -> (b: bool)
    requires
        0 <= range <= 0x1_0000_0000_0000,
    ensures
        b == within(p, q, range as int),
{
    let dx: i128 = p.x as i128 - q.x as i128;
    let dy: i128 = p.y as i128 - q.y as i128;
    let ax: i128 = if dx < 0 { -dx } else { dx };
    let ay: i128 = if dy < 0 { -dy } else { dy };
    let r: i128 = range as i128;
    assert(ax * ax == dx * dx && ay * ay == dy * dy) by (nonlinear_arith)
        requires
            ax == dx || ax == -dx,
            ay == dy || ay == -dy,
    ;
    if ax >= r || ay >= r {
        assert(ax * ax + ay * ay >= r * r) by (nonlinear_arith)
            requires
                ax >= 0,
                ay >= 0,
                r >= 0,
                ax >= r || ay >= r,
        ;
        false
    } else {
        assert(ax * ax <= r * r && ay * ay <= r * r && r * r <= 0x1_0000_0000_0000_0000_0000_0000)
            by (nonlinear_arith)
            requires
                0 <= ax < r,
                0 <= ay < r,
                r <= 0x1_0000_0000_0000,
        ;
        ax * ax + ay * ay < r * r
    }
}

/// Two axis steps for one diagonal length are the same.
pub proof fn lemma_diagonal_unique(d: int, c1: int, c2: int)
    requires
        is_diagonal(d, c1),
        is_diagonal(d, c2),
    ensures
        c1 == c2,
{
    if c1 < c2 {
        assert(2 * (c1 + 1) * (c1 + 1) <= 2 * c2 * c2) by (nonlinear_arith)
            requires
                0 <= c1 + 1 <= c2,
        ;
    } else if c2 < c1 {
        assert(2 * (c2 + 1) * (c2 + 1) <= 2 * c1 * c1) by (nonlinear_arith)
            requires
                0 <= c2 + 1 <= c1,
        ;
    }
}

/// A move of length zero has no diagonal step.
pub proof fn lemma_diagonal_zero()
    ensures
        diagonal(0) == 0,
{
    assert(is_diagonal(0, 0));
    let c = diagonal(0);
    lemma_diagonal_unique(0, c, 0);
}

/// The axis step of a diagonal move of length `d`: `floor(d / sqrt(2))`.
pub fn diagonal_step(d: u64) -> (c: u64)
    requires
        d <= 0x1_0000_0000_0000,
    ensures
        c == diagonal(d as int),
        c <= d,
{
    assert(d * d <= 0x1_0000_0000_0000_0000_0000_0000) by (nonlinear_arith)
        requires
            d <= 0x1_0000_0000_0000,
    ;
    let n: u128 = (d as u128) * (d as u128);
    if d == 0 {
        proof {
            lemma_diagonal_zero();
        }
        return 0;
    }
    let mut lo: u128 = 0;
    let mut hi: u128 = d as u128;
    assert(2 * hi * hi > n) by (nonlinear_arith)
        requires
            hi == d,
            n == d * d,
            d > 0,
    ;
    while hi - lo > 1
        invariant
            lo < hi <= d,
            n == d * d,
            d <= 0x1_0000_0000_0000,
            2 * lo * lo <= n,
            n < 2 * hi * hi,
        decreases hi - lo,
    {
        let mid: u128 = lo + (hi - lo) / 2;
        assert(2 * mid * mid <= 2 * d * d <= 0x2_0000_0000_0000_0000_0000_0000) by (nonlinear_arith)
            requires
                0 <= mid <= d,
                d <= 0x1_0000_0000_0000,
        ;
        if 2 * mid * mid <= n {
            lo = mid;
        } else {
            hi = mid;
        }
    }
    proof {
        assert(is_diagonal(d as int, lo as int));
        let c = diagonal(d as int);
        lemma_diagonal_unique(d as int, c, lo as int);
    }
    lo as u64
}

} // verus!
