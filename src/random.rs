//! Random placement: where initial asteroids go and where periodic ones enter.
use vstd::prelude::*;
use crate::geometry::{Bounds, Vec2, sq_dist, EDGE_MARGIN, POS_PER_UNIT};

verus! {

/// How many positions initial seeding samples before it settles for the last.
pub const MAX_SEED_TRIES: u32 = 64;

/// Least distance from the centre of an initial asteroid: 100 units.
pub const MIN_SPAWN_DISTANCE: i64 = 100 * POS_PER_UNIT;

/// Relies on rand's `thread_rng().gen_range(lo..hi)` on `i64`: a value in
/// `[lo, hi)` (it panics on an empty range, which `requires` rules out).
#[verifier::external_body]
fn draw_in(lo: i64, hi: i64) -> (r: i64)
    requires
        lo < hi,
    ensures
        lo <= r < hi,
{
    rand::Rng::gen_range(&mut rand::thread_rng(), lo..hi)
}

/// The point lies in the half-open play rectangle that seeding samples from.
pub open spec fn in_seed_area(p: Vec2, b: Bounds) -> bool {
    -b.half_width <= p.x < b.half_width && -b.half_height <= p.y < b.half_height
}

/// The point is far enough from the centre for an initial asteroid.
pub open spec fn clear_of_centre(p: Vec2) -> bool {
    sq_dist(p, Vec2 { x: 0, y: 0 }) > MIN_SPAWN_DISTANCE * MIN_SPAWN_DISTANCE
}

/// Whether `p` is far enough from the centre for an initial asteroid.
pub fn is_clear_of_centre(p: Vec2, b: Bounds) -> (r: bool)
    requires
        b.wf(),
        in_seed_area(p, b),
    ensures
        r == clear_of_centre(p),
{
    let x = p.x as i128;
    let y = p.y as i128;
    let m = MIN_SPAWN_DISTANCE as i128;
    assert(0 <= x * x <= 1_000_000_000_000_000_000_000_000_000_000 && 0 <= y * y
        <= 1_000_000_000_000_000_000_000_000_000_000) by (nonlinear_arith)
        requires
            -1_000_000_000_000_000 <= x <= 1_000_000_000_000_000,
            -1_000_000_000_000_000 <= y <= 1_000_000_000_000_000,
    ;
    x * x + y * y > m * m
}

/// The position seeding settles on among the samples drawn, in order: the
/// first clear of the centre, or the last if none is.
pub open spec fn seed_choice(samples: Seq<Vec2>) -> Vec2
    decreases samples.len(),
{
    if samples.len() <= 1 || clear_of_centre(samples[0]) {
        samples[0]
    } else {
        seed_choice(samples.drop_first())
    }
}

/// The samples are a possible run of seeding: between one and
/// `MAX_SEED_TRIES` of them, all in the play rectangle, and sampling stopped
/// at the first that is clear of the centre.
pub open spec fn seed_run(samples: Seq<Vec2>, b: Bounds) -> bool {
    &&& 1 <= samples.len() <= MAX_SEED_TRIES
    &&& forall|i: int| 0 <= i < samples.len() ==> in_seed_area(#[trigger] samples[i], b)
    &&& forall|i: int| 0 <= i < samples.len() - 1 ==> !clear_of_centre(#[trigger] samples[i])
}

/// `p` is what seeding settles on for some possible run of samples.
pub open spec fn seeded_at(p: Vec2, b: Bounds) -> bool {
    exists|samples: Seq<Vec2>| seed_run(samples, b) && p == seed_choice(samples)
}

/// Picks a seed position from samples drawn in order: the first one clear of
/// the centre, or the last one when none is.
pub fn pick_seed(samples: &Vec<Vec2>, b: Bounds) -> (r: Vec2)
    requires
        b.wf(),
        1 <= samples@.len() <= MAX_SEED_TRIES,
        forall|i: int| 0 <= i < samples@.len() ==> in_seed_area(#[trigger] samples@[i], b),
    ensures
        r == seed_choice(samples@),
        in_seed_area(r, b),
{
    let n = samples.len();
    let mut i: usize = 0;
    assert(samples@.subrange(0, n as int) =~= samples@);
    while i + 1 < n && !is_clear_of_centre(samples[i], b)
        invariant
            b.wf(),
            n == samples@.len(),
            1 <= n <= MAX_SEED_TRIES,
            forall|k: int| 0 <= k < n ==> in_seed_area(#[trigger] samples@[k], b),
            0 <= i < n,
            seed_choice(samples@) == seed_choice(samples@.subrange(i as int, n as int)),
        decreases n - i,
    {
        let ghost rest = samples@.subrange(i as int, n as int);
        assert(rest.drop_first() =~= samples@.subrange(i + 1, n as int));
        i = i + 1;
    }
    let ghost rest = samples@.subrange(i as int, n as int);
    assert(rest[0] == samples@[i as int]);
    samples[i]
}

/// A position for an initial asteroid: samples drawn uniformly in the play
/// rectangle until one is clear of the centre or `MAX_SEED_TRIES` were drawn,
/// then the choice of `pick_seed` among them.
pub fn seed_position(b: Bounds) -> (r: Vec2)
    requires
        b.wf(),
    ensures
        in_seed_area(r, b),
        seeded_at(r, b),
{
    let mut samples: Vec<Vec2> = Vec::new();
    let mut done = false;
    while !done
        invariant
            b.wf(),
            samples@.len() <= MAX_SEED_TRIES,
            done ==> 1 <= samples@.len(),
            !done ==> samples@.len() < MAX_SEED_TRIES,
            forall|i: int| 0 <= i < samples@.len() ==> in_seed_area(#[trigger] samples@[i], b),
            forall|i: int|
                0 <= i < samples@.len() - 1 ==> !clear_of_centre(#[trigger] samples@[i]),
            !done ==> forall|i: int|
                0 <= i < samples@.len() ==> !clear_of_centre(#[trigger] samples@[i]),
        decreases MAX_SEED_TRIES - samples@.len(),
    {
        let p = Vec2 {
            x: draw_in(-b.half_width, b.half_width),
            y: draw_in(-b.half_height, b.half_height),
        };
        let clear = is_clear_of_centre(p, b);
        samples.push(p);
        done = clear || samples.len() >= MAX_SEED_TRIES as usize;
    }
    let r = pick_seed(&samples, b);
    assert(seed_run(samples@, b));
    r
}

/// The screen edges a periodic asteroid can enter from.
#[derive(Clone, Copy, Debug, PartialEq, Eq, Structural)]
pub enum Edge {
    Top,
    Bottom,
    Left,
    Right,
}

/// The entry point on `edge` at coordinate `along` of that edge, `EDGE_MARGIN`
/// outside the play rectangle.
pub open spec fn edge_point_of(edge: Edge, along: i64, b: Bounds) -> Vec2 {
    match edge {
        Edge::Top => Vec2 { x: along, y: (b.half_height + EDGE_MARGIN) as i64 },
        Edge::Bottom => Vec2 { x: along, y: (-b.half_height - EDGE_MARGIN) as i64 },
        Edge::Left => Vec2 { x: (-b.half_width - EDGE_MARGIN) as i64, y: along },
        Edge::Right => Vec2 { x: (b.half_width + EDGE_MARGIN) as i64, y: along },
    }
}

/// The coordinate along `edge` lies on that edge of the play rectangle.
pub open spec fn along_fits(edge: Edge, along: i64, b: Bounds) -> bool {
    match edge {
        Edge::Top | Edge::Bottom => -b.half_width <= along < b.half_width,
        Edge::Left | Edge::Right => -b.half_height <= along < b.half_height,
    }
}

/// The point is an entry point of some edge.
pub open spec fn is_entry_point(p: Vec2, b: Bounds) -> bool {
    exists|edge: Edge, along: i64| along_fits(edge, along, b) && p == edge_point_of(edge, along, b)
}

/// The entry point on `edge` at coordinate `along`.
pub fn edge_point(edge: Edge, along: i64, b: Bounds) -> (r: Vec2)
    requires
        b.wf(),
    ensures
        r == edge_point_of(edge, along, b),
{
    match edge {
        Edge::Top => Vec2 { x: along, y: b.half_height + EDGE_MARGIN },
        Edge::Bottom => Vec2 { x: along, y: -b.half_height - EDGE_MARGIN },
        Edge::Left => Vec2 { x: -b.half_width - EDGE_MARGIN, y: along },
        Edge::Right => Vec2 { x: b.half_width + EDGE_MARGIN, y: along },
    }
}

/// A uniformly chosen edge and a uniformly chosen coordinate along it.
pub fn entry_point(b: Bounds) -> (r: Vec2)
    requires
        b.wf(),
    ensures
        is_entry_point(r, b),
{
    let k = draw_in(0, 4);
    let edge = if k == 0 {
        Edge::Top
    } else if k == 1 {
        Edge::Bottom
    } else if k == 2 {
        Edge::Left
    } else {
        Edge::Right
    };
    let along = match edge {
        Edge::Top | Edge::Bottom => draw_in(-b.half_width, b.half_width),
        Edge::Left | Edge::Right => draw_in(-b.half_height, b.half_height),
    };
    let r = edge_point(edge, along, b);
    assert(along_fits(edge, along, b));
    r
}

} // verus!
