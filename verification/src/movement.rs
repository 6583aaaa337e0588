//! The swept-AABB sweep resolver: given one moving rectangle, a
//! requested displacement and a candidate obstacle, decide whether the
//! move completes, is truncated (and by which exact fraction), or starts
//! from an already-penetrating position.
//!
//! All arithmetic is exact: coordinates are integers and the collision
//! fraction is an exact rational, so the no-penetration and
//! fraction-boundedness guarantees below are unconditional. Exactness
//! also replaces the epsilon snapping that floating-point sweeps need
//! against near-zero jitter: a fraction is zero here exactly when the
//! mover already touches the obstacle it pushes against.

use vstd::prelude::*;
use vstd::arithmetic::div_mod::{
    lemma_div_is_ordered, lemma_div_multiples_vanish, lemma_div_of0, lemma_div_pos_is_pos,
};
use vstd::arithmetic::mul::{
    lemma_mul_by_zero_is_zero, lemma_mul_inequality, lemma_mul_is_commutative,
    lemma_mul_nonnegative,
};
use crate::geom::{Rect, Vec2};
use crate::level::CollisionShape;
use crate::COORD_LIMIT;

verus! {

/// Non-overlap of the closed ranges `[a1, a2]` and `[b1, b2]` under the
/// half-open convention: ranges that merely touch count as
/// non-overlapping.
pub open spec fn spec_non_overlap(a1: int, a2: int, b1: int, b2: int) -> bool {
    b1 >= a2 || b2 <= a1
}

/// Two ranges `[a1,a2]` and `[b1,b2]` do not overlap when `b1 >= a2` or
/// `b2 <= a1`; touching edges count as non-overlapping.
pub fn range_non_overlap(a1: i64, a2: i64, b1: i64, b2: i64) -> (r: bool)
    ensures
        r == spec_non_overlap(a1 as int, a2 as int, b1 as int, b2 as int),
{
    b1 >= a2 || b2 <= a1
}

/// The obstacle `r1` and the mover `r2` are separated on the X axis.
pub open spec fn x_free(r1: Rect, r2: Rect) -> bool {
    spec_non_overlap(r1.left as int, r1.right as int, r2.left as int, r2.right as int)
}

/// The obstacle `r1` and the mover `r2` are separated on the Y axis.
pub open spec fn y_free(r1: Rect, r2: Rect) -> bool {
    spec_non_overlap(r1.bottom as int, r1.top as int, r2.bottom as int, r2.top as int)
}

/// Absolute value.
pub open spec fn iabs(x: int) -> int {
    if x >= 0 {
        x
    } else {
        -x
    }
}

/// The signed separation of `rect` from `shape` on one axis: of the two
/// edge-to-edge distances, the one smaller in magnitude.
pub open spec fn spec_axis_dist(s_low: int, s_high: int, r_low: int, r_high: int) -> int {
    let d1 = s_high - r_low;
    let d2 = s_low - r_high;
    if iabs(d1) < iabs(d2) {
        d1
    } else {
        d2
    }
}

/// The minimum-separation vector between a shape and a probe rectangle:
/// on each axis, the signed edge distance of smaller magnitude.
pub fn intersect_dist2(shape: &CollisionShape, rect: &Rect) -> (r: Vec2)
    requires
        shape.wf(),
        rect.wf(),
    ensures
        r.x == spec_axis_dist(
            shape.rect().left as int,
            shape.rect().right as int,
            rect.left as int,
            rect.right as int,
        ),
        r.y == spec_axis_dist(
            shape.rect().bottom as int,
            shape.rect().top as int,
            rect.bottom as int,
            rect.top as int,
        ),
{
    match shape {
        CollisionShape::Rect(s) => {
            let dx1 = s.right - rect.left;
            let dx2 = s.left - rect.right;
            let dy1 = s.top - rect.bottom;
            let dy2 = s.bottom - rect.top;
            let ax1: i64 = if dx1 >= 0 { dx1 } else { -dx1 };
            let ax2: i64 = if dx2 >= 0 { dx2 } else { -dx2 };
            let ay1: i64 = if dy1 >= 0 { dy1 } else { -dy1 };
            let ay2: i64 = if dy2 >= 0 { dy2 } else { -dy2 };
            let x = if ax1 < ax2 { dx1 } else { dx2 };
            let y = if ay1 < ay2 { dy1 } else { dy2 };
            Vec2 { x, y }
        }
    }
}

/// An exact movement fraction `num / den`, `0 <= num <= den`.
#[derive(Clone, Copy, Debug, PartialEq, Eq, Structural)]
pub struct Frac {
    pub num: i64,
    pub den: i64,
}

impl Frac {
    pub open spec fn wf(self) -> bool {
        &&& 0 <= self.num <= self.den
        &&& 1 <= self.den <= 2 * COORD_LIMIT
    }

    /// `self <= other` as rationals, by cross-multiplication.
    pub open spec fn spec_le(self, other: Frac) -> bool {
        self.num * other.den <= other.num * self.den
    }

    /// `self < other` as rationals, by cross-multiplication.
    pub open spec fn spec_lt(self, other: Frac) -> bool {
        self.num * other.den < other.num * self.den
    }

    /// The fraction 0.
    pub fn zero() -> (r: Frac)
        ensures
            r.num == 0,
            r.den == 1,
            r.wf(),
    {
        Frac { num: 0, den: 1 }
    }

    /// The fraction 1.
    pub fn one() -> (r: Frac)
        ensures
            r.num == 1,
            r.den == 1,
            r.wf(),
    {
        Frac { num: 1, den: 1 }
    }

    /// Strict rational comparison.
    pub fn lt(&self, other: &Frac) -> (r: bool)
        requires
            self.wf(),
            other.wf(),
        ensures
            r == self.spec_lt(*other),
    {
        proof {
            lemma_mul_bounds(self.num as int, other.den as int);
            lemma_mul_bounds(other.num as int, self.den as int);
        }
        (self.num as i128) * (other.den as i128) < (other.num as i128) * (self.den as i128)
    }
}

/// Bounds on a product of non-negative factors each at most twice the
/// coordinate limit: the product stays far inside the 128-bit range.
proof fn lemma_mul_bounds(a: int, b: int)
    by (nonlinear_arith)
    requires
        0 <= a <= 0x2_0000_0000,
        0 <= b <= 0x2_0000_0000,
    ensures
        0 <= a * b <= 0x4_0000_0000_0000_0000,
{
}

/// One displacement component scaled by `num / den`, truncated toward
/// zero: the scaled magnitude never exceeds the requested one.
pub open spec fn scale1(d: int, num: int, den: int) -> int {
    if d >= 0 {
        (d * num) / den
    } else {
        -(((-d) * num) / den)
    }
}

proof fn lemma_scale_bounds(m: int, num: int, den: int)
    requires
        0 <= m,
        0 <= num <= den,
        1 <= den,
    ensures
        0 <= (m * num) / den <= m,
{
    lemma_mul_nonnegative(m, num);
    lemma_div_pos_is_pos(m * num, den);
    lemma_mul_inequality(num, den, m);
    lemma_mul_is_commutative(num, m);
    lemma_mul_is_commutative(den, m);
    lemma_div_is_ordered(m * num, m * den, den);
    lemma_div_multiples_vanish(m, den);
}

/// Scaling by a whole fraction (`num == den`) changes nothing.
proof fn lemma_scale_full(m: int, den: int)
    requires
        0 <= m,
        1 <= den,
    ensures
        (m * den) / den == m,
{
    lemma_div_multiples_vanish(m, den);
    lemma_mul_is_commutative(m, den);
}

fn scale_component(d: i64, f: &Frac) -> (r: i64)
    requires
        f.wf(),
        -COORD_LIMIT <= d <= COORD_LIMIT,
    ensures
        r == scale1(d as int, f.num as int, f.den as int),
        d >= 0 ==> 0 <= r <= d,
        d <= 0 ==> d <= r <= 0,
        f.num == f.den ==> r == d,
        f.num == 0 ==> r == 0,
{
    let mag: u64 = if d >= 0 {
        d as u64
    } else {
        (-d) as u64
    };
    proof {
        lemma_mul_bounds(mag as int, f.num as int);
        lemma_scale_bounds(mag as int, f.num as int, f.den as int);
        if f.num == f.den {
            lemma_scale_full(mag as int, f.den as int);
        }
        if f.num == 0 {
            lemma_mul_by_zero_is_zero(mag as int);
            lemma_div_of0(f.den as int);
        }
    }
    let p: u128 = (mag as u128) * (f.num as u128);
    let q: u64 = (p / (f.den as u128)) as u64;
    if d >= 0 {
        q as i64
    } else {
        -(q as i64)
    }
}

/// A displacement scaled by an exact fraction, each component truncated
/// toward zero; scaling by 1 is the identity and scaling by 0 gives the
/// zero vector.
pub fn scale(d: &Vec2, f: &Frac) -> (r: Vec2)
    requires
        f.wf(),
        d.in_bounds(),
    ensures
        r.x == scale1(d.x as int, f.num as int, f.den as int),
        r.y == scale1(d.y as int, f.num as int, f.den as int),
        d.x >= 0 ==> 0 <= r.x <= d.x,
        d.x <= 0 ==> d.x <= r.x <= 0,
        d.y >= 0 ==> 0 <= r.y <= d.y,
        d.y <= 0 ==> d.y <= r.y <= 0,
        f.num == f.den ==> r == *d,
        f.num == 0 ==> r.x == 0 && r.y == 0,
{
    Vec2 { x: scale_component(d.x, f), y: scale_component(d.y, f) }
}

/// Which directional faces of the mover were blocked, for the direction
/// actually travelled.
#[derive(Clone, Copy, Debug, PartialEq, Eq, Structural)]
pub struct HitFaces {
    pub x_neg: bool,
    pub x_pos: bool,
    pub y_neg: bool,
    pub y_pos: bool,
}

/// The outcome of resolving one mover against one obstacle.
#[derive(Clone, Copy, Debug, PartialEq, Eq, Structural)]
pub enum MoveRes {
    /// The full requested displacement is safe.
    Complete(Vec2),
    /// The displacement must be truncated: the clamped displacement, the
    /// exact allowed fraction, and the blocked faces.
    Collision(Vec2, Frac, HitFaces),
    /// The mover already penetrates the obstacle on both axes before the
    /// move: a degenerate state, not a normal collision.
    Stuck,
}

/// Already penetrating: no separating axis at the start position.
pub open spec fn spec_stuck(r1: Rect, r2: Rect) -> bool {
    !x_free(r1, r2) && !y_free(r1, r2)
}

/// The move is unobstructed: not stuck, and a separating axis holds at
/// the target position (which certifies the final position penetrates
/// nothing).
pub open spec fn spec_complete(r1: Rect, r2: Rect, d: Vec2) -> bool {
    !spec_stuck(r1, r2) && (x_free(r1, r2.spec_translated(d)) || y_free(r1, r2.spec_translated(d)))
}

/// The X axis blocks the move: free at the start, no longer free at the
/// target, and actually travelling on X.
pub open spec fn x_blocked(r1: Rect, r2: Rect, d: Vec2) -> bool {
    x_free(r1, r2) && !x_free(r1, r2.spec_translated(d)) && d.x != 0
}

pub open spec fn y_blocked(r1: Rect, r2: Rect, d: Vec2) -> bool {
    y_free(r1, r2) && !y_free(r1, r2.spec_translated(d)) && d.y != 0
}

/// Distance from the mover's leading X edge to the obstacle's opposing
/// edge, by direction of travel.
pub open spec fn x_contact(r1: Rect, r2: Rect, d: Vec2) -> int {
    if d.x > 0 {
        r1.left - r2.right
    } else {
        r2.left - r1.right
    }
}

pub open spec fn y_contact(r1: Rect, r2: Rect, d: Vec2) -> int {
    if d.y > 0 {
        r1.bottom - r2.top
    } else {
        r2.bottom - r1.top
    }
}

/// The exact allowed fraction of a colliding move: the fraction of the
/// most restrictive blocked axis, ties broken toward X.
pub open spec fn spec_collision_frac(r1: Rect, r2: Rect, d: Vec2) -> Frac {
    let fx = Frac { num: x_contact(r1, r2, d) as i64, den: iabs(d.x as int) as i64 };
    let fy = Frac { num: y_contact(r1, r2, d) as i64, den: iabs(d.y as int) as i64 };
    if x_blocked(r1, r2, d) && (!y_blocked(r1, r2, d) || fx.spec_le(fy)) {
        fx
    } else {
        fy
    }
}

/// In a true collision (neither stuck nor complete) the exact fraction
/// is well-formed: it lies in `[0, 1)`.
pub proof fn lemma_collision_frac_wf(r1: Rect, r2: Rect, d: Vec2)
    requires
        r1.wf(),
        r2.wf(),
        d.in_bounds(),
        !spec_stuck(r1, r2),
        !spec_complete(r1, r2, d),
    ensures
        spec_collision_frac(r1, r2, d).wf(),
        spec_collision_frac(r1, r2, d).num < spec_collision_frac(r1, r2, d).den,
{
    let m = r2.spec_translated(d);
    assert(!x_free(r1, m) && !y_free(r1, m));
    if x_free(r1, r2) && d.x == 0 {
        assert(x_free(r1, m));
    }
    if y_free(r1, r2) && d.y == 0 {
        assert(y_free(r1, m));
    }
}

/// The blocked-face record of a colliding move.
pub open spec fn spec_faces(r1: Rect, r2: Rect, d: Vec2) -> HitFaces {
    let m = r2.spec_translated(d);
    HitFaces {
        x_neg: d.x < 0 && !x_free(r1, m),
        x_pos: d.x > 0 && !x_free(r1, m),
        y_neg: d.y < 0 && !y_free(r1, m),
        y_pos: d.y > 0 && !y_free(r1, m),
    }
}

/// No-penetration: whatever the outcome, applying the returned
/// displacement leaves at least one separating axis between mover and
/// obstacle.
pub open spec fn no_penetration(r1: Rect, r2: Rect, res: MoveRes) -> bool {
    match res {
        MoveRes::Complete(c) => x_free(r1, r2.spec_translated(c)) || y_free(
            r1,
            r2.spec_translated(c),
        ),
        MoveRes::Collision(c, f, faces) => x_free(r1, r2.spec_translated(c)) || y_free(
            r1,
            r2.spec_translated(c),
        ),
        MoveRes::Stuck => true,
    }
}

/// The full contract of `try_move`: the three outcomes are decided
/// exactly, and a collision carries the exact fraction, the scaled
/// displacement and the blocked faces.
pub open spec fn try_move_post(s1: CollisionShape, r2: Rect, d: Vec2, res: MoveRes) -> bool {
    let r1 = s1.rect();
    &&& (res is Stuck <==> spec_stuck(r1, r2))
    &&& (res is Complete <==> spec_complete(r1, r2, d))
    &&& (res matches MoveRes::Complete(c) ==> c == d)
    &&& (res matches MoveRes::Collision(c, f, faces) ==> {
        &&& f == spec_collision_frac(r1, r2, d)
        &&& f.wf()
        &&& f.num < f.den
        &&& c.x == scale1(d.x as int, f.num as int, f.den as int)
        &&& c.y == scale1(d.y as int, f.num as int, f.den as int)
        &&& (d.x >= 0 ==> 0 <= c.x <= d.x)
        &&& (d.x <= 0 ==> d.x <= c.x <= 0)
        &&& (d.y >= 0 ==> 0 <= c.y <= d.y)
        &&& (d.y <= 0 ==> d.y <= c.y <= 0)
        &&& faces == spec_faces(r1, r2, d)
        &&& (f.num == 0 ==> c.x == 0 && c.y == 0)
    })
}

/// Resolve one mover rectangle against one obstacle shape for a
/// requested displacement.
///
/// Outcomes, decided exactly:
/// - `Stuck` iff mover and obstacle already overlap on both axes;
/// - `Complete` iff not stuck and a separating axis holds at the target;
/// - otherwise `Collision` with the fraction of the most restrictive
///   blocked axis (ties toward X), the displacement scaled by it, and
///   the blocked faces. The fraction lies in `[0, 1)` and a zero
///   fraction clamps the displacement to the zero vector.
///
/// Whatever the outcome, the returned displacement never leaves the
/// mover penetrating the obstacle (`no_penetration`).
pub fn try_move(s1: &CollisionShape, r2: &Rect, d_target: &Vec2) -> (res: MoveRes)
    requires
        s1.wf(),
        r2.wf(),
        d_target.in_bounds(),
    ensures
        try_move_post(*s1, *r2, *d_target, res),
        no_penetration(s1.rect(), *r2, res),
{
    let r1: &Rect = match s1 {
        CollisionShape::Rect(r) => r,
    };
    let d = *d_target;

    let xfree_start = range_non_overlap(r1.left, r1.right, r2.left, r2.right);
    let yfree_start = range_non_overlap(r1.bottom, r1.top, r2.bottom, r2.top);

    if !xfree_start && !yfree_start {
        return MoveRes::Stuck;
    }

    let r2t = r2.translated(&d);
    let xfree_end = range_non_overlap(r1.left, r1.right, r2t.left, r2t.right);
    let yfree_end = range_non_overlap(r1.bottom, r1.top, r2t.bottom, r2t.top);

    if xfree_end || yfree_end {
        return MoveRes::Complete(d);
    }

    // A collision: every axis that was free at the start is blocked,
    // and at least one axis was free at the start.
    let xb = xfree_start && d.x != 0;
    let yb = yfree_start && d.y != 0;
    proof {
        // An axis free at the start with no travel on it stays free.
        assert(xfree_start ==> d.x != 0);
        assert(yfree_start ==> d.y != 0);
        assert(xb == x_blocked(s1.rect(), *r2, d));
        assert(yb == y_blocked(s1.rect(), *r2, d));
        assert(xb || yb);
    }

    let fx: Frac = if xb {
        let num = if d.x > 0 {
            r1.left - r2.right
        } else {
            r2.left - r1.right
        };
        let den = if d.x >= 0 {
            d.x
        } else {
            -d.x
        };
        Frac { num, den }
    } else {
        Frac { num: 0, den: 1 }
    };
    let fy: Frac = if yb {
        let num = if d.y > 0 {
            r1.bottom - r2.top
        } else {
            r2.bottom - r1.top
        };
        let den = if d.y >= 0 {
            d.y
        } else {
            -d.y
        };
        Frac { num, den }
    } else {
        Frac { num: 0, den: 1 }
    };
    proof {
        // A blocked axis' contact distance is non-negative (it was free
        // on the approaching side) and strictly under the travel.
        if xb {
            assert(fx.wf() && fx.num < fx.den);
        }
        if yb {
            assert(fy.wf() && fy.num < fy.den);
        }
    }

    let f: Frac = if xb && yb {
        if !fy.lt(&fx) {
            fx
        } else {
            fy
        }
    } else if xb {
        fx
    } else {
        fy
    };
    assert(f == spec_collision_frac(s1.rect(), *r2, d));

    let c = scale(&d, &f);

    proof {
        // The chosen axis' clamp lands exactly on first contact, which
        // re-establishes that axis as separating.
        let r1s = s1.rect();
        if xb && (!yb || fx.spec_le(fy)) {
            if d.x > 0 {
                lemma_div_multiples_vanish(fx.num as int, d.x as int);
                assert(c.x == fx.num);
            } else {
                lemma_div_multiples_vanish(fx.num as int, -(d.x as int));
                assert(c.x == -fx.num);
            }
            assert(x_free(r1s, r2.spec_translated(c)));
        } else {
            if d.y > 0 {
                lemma_div_multiples_vanish(fy.num as int, d.y as int);
                assert(c.y == fy.num);
            } else {
                lemma_div_multiples_vanish(fy.num as int, -(d.y as int));
                assert(c.y == -fy.num);
            }
            assert(y_free(r1s, r2.spec_translated(c)));
        }
    }

    let faces = HitFaces {
        x_neg: d.x < 0 && !xfree_end,
        x_pos: d.x > 0 && !xfree_end,
        y_neg: d.y < 0 && !yfree_end,
        y_pos: d.y > 0 && !yfree_end,
    };

    MoveRes::Collision(c, f, faces)
}

} // verus!
