//! Points, velocities and headings on the integer play plane.
//!
//! Positions are counted in billionths of a unit, velocities in millionths of a
//! unit per second, and time in milliseconds, so that a velocity times a step
//! is a displacement with no rounding.
use vstd::prelude::*;

verus! {

/// Subdivisions of one unit of length in a position.
pub const POS_PER_UNIT: i64 = 1_000_000_000;

/// Half a unit of length, in position subdivisions: a diameter in units
/// times this is a radius.
pub const HALF_UNIT: i64 = 500_000_000;

/// Subdivisions of one unit per second in a velocity.
pub const VEL_PER_UNIT: i64 = 1_000_000;

/// Length of a unit heading: each component is in thousandths.
pub const HEADING_ONE: i64 = 1000;

/// Largest half-width or half-height of the play rectangle: a million units.
pub const MAX_HALF_EXTENT: i64 = 1_000_000_000_000_000;

/// How far outside an edge the periodic spawner places an asteroid: 50 units.
pub const EDGE_MARGIN: i64 = 50 * POS_PER_UNIT;

/// Bound on each coordinate of every entity between frames.
pub const MAX_COORD: i64 = MAX_HALF_EXTENT + EDGE_MARGIN;

/// Bound on each velocity component: a million units per second.
pub const MAX_SPEED: i64 = 1_000_000_000_000;

/// Longest frame step, in milliseconds.
pub const MAX_STEP_MS: u64 = 1_000_000;

/// A point or a velocity on the plane.
#[derive(Clone, Copy, Debug, PartialEq, Eq, Structural)]
pub struct Vec2 {
    pub x: i64,
    pub y: i64,
}

impl Vec2 {
    /// Both components lie in `[-lim, lim]`.
    pub open spec fn within(self, lim: int) -> bool {
        -lim <= self.x <= lim && -lim <= self.y <= lim
    }
}

/// A direction as a vector of length about `HEADING_ONE`, in thousandths.
/// The heading of angle `a` is `(cos a, sin a)` scaled by a thousand.
#[derive(Clone, Copy, Debug, PartialEq, Eq, Structural)]
pub struct Heading {
    pub x: i64,
    pub y: i64,
}

/// Least and greatest squared length of a heading: a unit vector in
/// thousandths, within the rounding of its two components.
pub const HEADING_MIN_SQ: i64 = 998_000;
pub const HEADING_MAX_SQ: i64 = 1_002_000;

impl Heading {
    /// Each component within `HEADING_ONE`, and the length within rounding
    /// of `HEADING_ONE`.
    pub open spec fn wf(self) -> bool {
        &&& -HEADING_ONE <= self.x <= HEADING_ONE
        &&& -HEADING_ONE <= self.y <= HEADING_ONE
        &&& HEADING_MIN_SQ <= self.x * self.x + self.y * self.y <= HEADING_MAX_SQ
    }
}

/// The play rectangle, centred on the origin, given by its half extents.
#[derive(Clone, Copy, Debug, PartialEq, Eq, Structural)]
pub struct Bounds {
    pub half_width: i64,
    pub half_height: i64,
}

impl Bounds {
    pub open spec fn wf(self) -> bool {
        0 < self.half_width <= MAX_HALF_EXTENT && 0 < self.half_height <= MAX_HALF_EXTENT
    }

    /// The point lies in the closed play rectangle.
    pub open spec fn holds(self, p: Vec2) -> bool {
        -self.half_width <= p.x <= self.half_width && -self.half_height <= p.y
            <= self.half_height
    }

    /// Whether `p` lies in the closed play rectangle.
    pub fn contains(&self, p: Vec2) -> (r: bool)
        requires
            self.wf(),
        ensures
            r == self.holds(p),
    {
        -self.half_width <= p.x && p.x <= self.half_width && -self.half_height <= p.y && p.y
            <= self.half_height
    }
}

/// `p` advanced by velocity `v` for `dt_ms` milliseconds.
pub open spec fn moved(p: Vec2, v: Vec2, dt_ms: u64) -> Vec2 {
    Vec2 { x: (p.x + v.x * dt_ms) as i64, y: (p.y + v.y * dt_ms) as i64 }
}

/// Advances `p` by velocity `v` for `dt_ms` milliseconds.
pub fn displace(p: Vec2, v: Vec2, dt_ms: u64) -> (r: Vec2)
    requires
        p.within(MAX_COORD as int),
        v.within(MAX_SPEED as int),
        dt_ms <= MAX_STEP_MS,
    ensures
        r.x == p.x + v.x * dt_ms,
        r.y == p.y + v.y * dt_ms,
        r == moved(p, v, dt_ms),
{
    let dt = dt_ms as i64;
    proof {
        let (vx, vy, t) = (v.x as int, v.y as int, dt as int);
        assert(-MAX_SPEED * MAX_STEP_MS <= vx * t <= MAX_SPEED * MAX_STEP_MS) by (nonlinear_arith)
            requires
                -MAX_SPEED <= vx <= MAX_SPEED,
                0 <= t <= MAX_STEP_MS,
        ;
        assert(-MAX_SPEED * MAX_STEP_MS <= vy * t <= MAX_SPEED * MAX_STEP_MS) by (nonlinear_arith)
            requires
                -MAX_SPEED <= vy <= MAX_SPEED,
                0 <= t <= MAX_STEP_MS,
        ;
    }
    Vec2 { x: p.x + v.x * dt, y: p.y + v.y * dt }
}

/// One coordinate after wrapping: past an edge it jumps to the opposite edge.
pub open spec fn wrap_coord(c: i64, half: i64) -> i64 {
    if c > half {
        (-half) as i64
    } else if c < -half {
        half
    } else {
        c
    }
}

/// `p` after wrapping each coordinate independently.
pub open spec fn wrapped(p: Vec2, b: Bounds) -> Vec2 {
    Vec2 { x: wrap_coord(p.x, b.half_width), y: wrap_coord(p.y, b.half_height) }
}

/// Wraps `p` across the edges of the play rectangle.
pub fn wrap_point(p: Vec2, b: Bounds) -> (r: Vec2)
    requires
        b.wf(),
    ensures
        r == wrapped(p, b),
        b.holds(r),
{
    let x = if p.x > b.half_width {
        -b.half_width
    } else if p.x < -b.half_width {
        b.half_width
    } else {
        p.x
    };
    let y = if p.y > b.half_height {
        -b.half_height
    } else if p.y < -b.half_height {
        b.half_height
    } else {
        p.y
    };
    Vec2 { x, y }
}

/// Squared Euclidean distance between two points.
pub open spec fn sq_dist(p: Vec2, q: Vec2) -> int {
    (p.x - q.x) * (p.x - q.x) + (p.y - q.y) * (p.y - q.y)
}

/// Two circles whose radii add up to `reach` overlap: the distance between
/// their centres is less than `reach`.
pub open spec fn overlaps(p: Vec2, q: Vec2, reach: int) -> bool {
    sq_dist(p, q) < reach * reach
}

/// Whether circles at `p` and `q` whose radii add up to `reach` overlap.
pub fn touching(p: Vec2, q: Vec2, reach: i64) -> (r: bool)
    requires
        p.within(MAX_COORD as int),
        q.within(MAX_COORD as int),
        0 <= reach <= MAX_COORD,
    ensures
        r == overlaps(p, q, reach as int),
{
    let dx = p.x as i128 - q.x as i128;
    let dy = p.y as i128 - q.y as i128;
    proof {
        let lim: int = 3_000_000_000_000_000;
        let sq: int = 9_000_000_000_000_000_000_000_000_000_000;
        assert(0 <= dx * dx <= sq) by (nonlinear_arith)
            requires
                -lim <= dx <= lim,
                sq == lim * lim,
        ;
        assert(0 <= dy * dy <= sq) by (nonlinear_arith)
            requires
                -lim <= dy <= lim,
                sq == lim * lim,
        ;
        assert(0 <= reach * reach <= sq) by (nonlinear_arith)
            requires
                0 <= reach <= lim,
                sq == lim * lim,
        ;
    }
    let r2 = reach as i128;
    dx * dx + dy * dy < r2 * r2
}

/// The velocity of `speed` units per second along heading `h`.
pub open spec fn scaled(h: Heading, speed: i64) -> Vec2 {
    Vec2 {
        x: (h.x * speed * (VEL_PER_UNIT / HEADING_ONE)) as i64,
        y: (h.y * speed * (VEL_PER_UNIT / HEADING_ONE)) as i64,
    }
}

/// The velocity of `speed` units per second along heading `h`.
pub fn scale_heading(h: Heading, speed: i64) -> (r: Vec2)
    requires
        h.wf(),
        0 <= speed <= 1000,
    ensures
        r == scaled(h, speed),
        r.x == h.x * speed * (VEL_PER_UNIT / HEADING_ONE),
        r.y == h.y * speed * (VEL_PER_UNIT / HEADING_ONE),
        r.within(1_000_000_000),
{
    proof {
        let (hx, hy, s) = (h.x as int, h.y as int, speed as int);
        assert(-1_000_000 <= hx * s <= 1_000_000) by (nonlinear_arith)
            requires
                -1000 <= hx <= 1000,
                0 <= s <= 1000,
        ;
        assert(-1_000_000 <= hy * s <= 1_000_000) by (nonlinear_arith)
            requires
                -1000 <= hy <= 1000,
                0 <= s <= 1000,
        ;
    }
    let k = VEL_PER_UNIT / HEADING_ONE;
    Vec2 { x: h.x * speed * k, y: h.y * speed * k }
}

/// `r` is the integer square root of `n`.
pub open spec fn is_root(n: int, r: int) -> bool {
    0 <= r && r * r <= n < (r + 1) * (r + 1)
}

/// The integer square root of a non-negative `n`.
pub open spec fn root(n: int) -> int {
    choose|r: int| is_root(n, r)
}

/// A number has at most one integer square root.
pub proof fn lemma_root_unique(n: int, r: int, s: int)
    requires
        is_root(n, r),
        is_root(n, s),
    ensures
        r == s,
{
    if r < s {
        assert((r + 1) * (r + 1) <= s * s) by (nonlinear_arith)
            requires
                0 <= r < s,
        ;
    } else if s < r {
        assert((s + 1) * (s + 1) <= r * r) by (nonlinear_arith)
            requires
                0 <= s < r,
        ;
    }
}

/// Integer square root by bisection.
pub fn isqrt(n: u128) -> (r: u128)
    requires
        n < 0x4000_0000_0000_0000_0000_0000_0000_0000,
    ensures
        is_root(n as int, r as int),
        r == root(n as int),
{
    let mut lo: u128 = 0;
    let mut hi: u128 = 0x8000_0000_0000_0000;
    assert(hi * hi == 0x4000_0000_0000_0000_0000_0000_0000_0000);
    while hi - lo > 1
        invariant
            lo < hi <= 0x8000_0000_0000_0000,
            lo * lo <= n,
            n < hi * hi,
        decreases hi - lo,
    {
        let mid = lo + (hi - lo) / 2;
        assert(mid * mid < 0x4000_0000_0000_0000_0000_0000_0000_0000) by (nonlinear_arith)
            requires
                mid < 0x8000_0000_0000_0000,
        ;
        if mid * mid <= n {
            lo = mid;
        } else {
            hi = mid;
        }
    }
    proof {
        assert(is_root(n as int, lo as int));
        lemma_root_unique(n as int, lo as int, root(n as int));
    }
    lo
}

/// Division that rounds toward zero.
pub open spec fn div_toward_zero(a: int, d: int) -> int {
    if a >= 0 {
        a / d
    } else {
        -((-a) / d)
    }
}

/// The vector from `pos` to the origin, turned by `spin` (a heading whose
/// angle is the turn), in thousandths.
pub open spec fn turned_to_centre(pos: Vec2, spin: Heading) -> (int, int) {
    let ax = -pos.x;
    let ay = -pos.y;
    (spin.x * ax - spin.y * ay, spin.y * ax + spin.x * ay)
}

/// A velocity of `speed` units per second from `pos` toward the origin, turned
/// by `spin`; zero at the origin itself.
pub open spec fn aimed(pos: Vec2, spin: Heading, speed: i64) -> Vec2 {
    let (rx, ry) = turned_to_centre(pos, spin);
    let len = root(rx * rx + ry * ry);
    let sv = speed * VEL_PER_UNIT;
    if len == 0 {
        Vec2 { x: 0, y: 0 }
    } else {
        Vec2 { x: div_toward_zero(rx * sv, len) as i64, y: div_toward_zero(ry * sv, len) as i64 }
    }
}

/// `|c| * sv / len`, with the sign of `c`, where `|c| <= len`.
fn scale_component(c: i128, sv: u128, len: u128) -> (r: i64)
    requires
        c * c < (len + 1) * (len + 1),
        0 < len < 0x8000_0000_0000_0000,
        sv <= 1_000_000_000,
    ensures
        r == div_toward_zero(c * sv, len as int),
        -sv <= r <= sv,
{
    assert(-(len as int) <= c <= len) by (nonlinear_arith)
        requires
            c * c < (len + 1) * (len + 1),
            len >= 0,
    ;
    let m: u128 = if c >= 0 {
        c as u128
    } else {
        (-c) as u128
    };
    assert(m <= len);
    assert(m * sv <= len * sv) by (nonlinear_arith)
        requires
            m <= len,
            sv >= 0,
    ;
    assert(len * sv <= 0x8000_0000_0000_0000 * 1_000_000_000) by (nonlinear_arith)
        requires
            len < 0x8000_0000_0000_0000,
            sv <= 1_000_000_000,
    ;
    let q = m * sv / len;
    assert(q <= sv) by (nonlinear_arith)
        requires
            q == (m * sv) / (len as int),
            m * sv <= len * sv,
            len > 0,
    ;
    proof {
        if c < 0 {
            assert(-(c * sv) == m * sv) by (nonlinear_arith)
                requires
                    m == -c,
            ;
        } else {
            assert(c * sv >= 0) by (nonlinear_arith)
                requires
                    c >= 0,
                    sv >= 0,
            ;
        }
    }
    if c >= 0 {
        q as i64
    } else {
        -(q as i64)
    }
}

/// A velocity of `speed` units per second from `pos` toward the origin,
/// turned by `spin`.
pub fn aim(pos: Vec2, spin: Heading, speed: i64) -> (r: Vec2)
    requires
        pos.within(MAX_COORD as int),
        spin.wf(),
        0 <= speed <= 1000,
    ensures
        r == aimed(pos, spin, speed),
        r.within(speed * VEL_PER_UNIT),
{
    let ax = -(pos.x as i128);
    let ay = -(pos.y as i128);
    let (sx, sy) = (spin.x as i128, spin.y as i128);
    let lim: i128 = 1_000_050_000_000_000_000;
    assert(-lim <= sx * ax <= lim && -lim <= sy * ay <= lim && -lim <= sy * ax <= lim && -lim
        <= sx * ay <= lim) by (nonlinear_arith)
        requires
            -1000 <= sx <= 1000,
            -1000 <= sy <= 1000,
            -1_000_050_000_000_000 <= ax <= 1_000_050_000_000_000,
            -1_000_050_000_000_000 <= ay <= 1_000_050_000_000_000,
            lim == 1_000_050_000_000_000_000,
    ;
    let rx = sx * ax - sy * ay;
    let ry = sy * ax + sx * ay;
    let ghost big: int = 2_000_100_000_000_000_000;
    let ghost big_sq: int = 4_000_400_010_000_000_000_000_000_000_000_000_000;
    assert(0 <= rx * rx <= big_sq && 0 <= ry * ry <= big_sq) by (nonlinear_arith)
        requires
            -big <= rx <= big,
            -big <= ry <= big,
            big_sq == big * big,
    ;
    let n = (rx * rx + ry * ry) as u128;
    let len = isqrt(n);
    let sv = speed as u128 * VEL_PER_UNIT as u128;
    if len == 0 {
        Vec2 { x: 0, y: 0 }
    } else {
        assert(len < 0x8000_0000_0000_0000) by (nonlinear_arith)
            requires
                len * len <= n,
                n < 0x4000_0000_0000_0000_0000_0000_0000_0000,
        ;
        assert(rx * rx < (len + 1) * (len + 1) && ry * ry < (len + 1) * (len + 1)) by (
        nonlinear_arith)
            requires
                n < (len + 1) * (len + 1),
                n == rx * rx + ry * ry,
                0 <= rx * rx,
                0 <= ry * ry,
        ;
        let x = scale_component(rx, sv, len);
        let y = scale_component(ry, sv, len);
        Vec2 { x, y }
    }
}

} // verus!
