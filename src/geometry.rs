//! Integer points and axis-aligned bounding boxes.
use vstd::prelude::*;

verus! {

/// A point or offset in scene space, in micrometres.
#[derive(Clone, Copy, Debug, PartialEq, Eq, Structural)]
pub struct Vec3i {
    pub x: i64,
    pub y: i64,
    pub z: i64,
}

impl Vec3i {
    pub fn new(x: i64, y: i64, z: i64) -> (r: Vec3i)
        ensures
            r == (Vec3i { x, y, z }),
    {
        Vec3i { x, y, z }
    }

    pub fn zero() -> (r: Vec3i)
        ensures
            r == (Vec3i { x: 0, y: 0, z: 0 }),
    {
        Vec3i { x: 0, y: 0, z: 0 }
    }
}

pub open spec fn min_i64(a: i64, b: i64) -> i64 {
    if a <= b {
        a
    } else {
        b
    }
}

pub open spec fn max_i64(a: i64, b: i64) -> i64 {
    if a >= b {
        a
    } else {
        b
    }
}

/// Component-wise minimum of two points.
pub open spec fn min_vec(a: Vec3i, b: Vec3i) -> Vec3i {
    Vec3i { x: min_i64(a.x, b.x), y: min_i64(a.y, b.y), z: min_i64(a.z, b.z) }
}

/// Component-wise maximum of two points.
pub open spec fn max_vec(a: Vec3i, b: Vec3i) -> Vec3i {
    Vec3i { x: max_i64(a.x, b.x), y: max_i64(a.y, b.y), z: max_i64(a.z, b.z) }
}

/// Half of the distance from `lo` to `hi`, rounded down.
pub open spec fn half_span(lo: i64, hi: i64) -> int {
    (hi - lo) / 2
}

/// An axis-aligned box given by its minimum and maximum corners.
#[derive(Clone, Copy, Debug, PartialEq, Eq, Structural)]
pub struct Aabb {
    pub min: Vec3i,
    pub max: Vec3i,
}

/// The smallest box that holds both `a` and `b`.
pub open spec fn union_spec(a: Aabb, b: Aabb) -> Aabb {
    Aabb { min: min_vec(a.min, b.min), max: max_vec(a.max, b.max) }
}

impl Aabb {
    /// Every minimum coordinate is at most the matching maximum one.
    pub open spec fn wf(self) -> bool {
        &&& self.min.x <= self.max.x
        &&& self.min.y <= self.max.y
        &&& self.min.z <= self.max.z
    }

    /// Half of the box's extent along each axis, rounded down.
    pub open spec fn half_extents_spec(self) -> (int, int, int) {
        (
            half_span(self.min.x, self.max.x),
            half_span(self.min.y, self.max.y),
            half_span(self.min.z, self.max.z),
        )
    }

    /// The box spanned by two corners; `None` when `min` exceeds `max` on an axis.
    pub fn from_min_max(min: Vec3i, max: Vec3i) -> (r: Option<Aabb>)
        ensures
            r == (if (Aabb { min, max }).wf() {
                Some(Aabb { min, max })
            } else {
                None
            }),
    {
        if min.x <= max.x && min.y <= max.y && min.z <= max.z {
            Some(Aabb { min, max })
        } else {
            None
        }
    }

    /// The degenerate box that holds only the origin.
    pub fn zero() -> (r: Aabb)
        ensures
            r == (Aabb { min: Vec3i { x: 0, y: 0, z: 0 }, max: Vec3i { x: 0, y: 0, z: 0 } }),
            r.wf(),
    {
        Aabb { min: Vec3i::zero(), max: Vec3i::zero() }
    }

    /// Half of the box's extent along each axis, in micrometres, rounded down.
    pub fn half_extents(&self) -> (r: Vec3i)
        requires
            self.wf(),
        ensures
            (r.x as int, r.y as int, r.z as int) == self.half_extents_spec(),
            r.x >= 0 && r.y >= 0 && r.z >= 0,
    {
        Vec3i {
            x: half_span_exec(self.min.x, self.max.x),
            y: half_span_exec(self.min.y, self.max.y),
            z: half_span_exec(self.min.z, self.max.z),
        }
    }
}

fn half_span_exec(lo: i64, hi: i64) -> (r: i64)
    requires
        lo <= hi,
    ensures
        r as int == half_span(lo, hi),
        r >= 0,
{
    let d: i128 = hi as i128 - lo as i128;
    let h: i128 = d / 2;
    h as i64
}

fn min_exec(a: i64, b: i64) -> (r: i64)
    ensures
        r == min_i64(a, b),
{
    if a <= b {
        a
    } else {
        b
    }
}

fn max_exec(a: i64, b: i64) -> (r: i64)
    ensures
        r == max_i64(a, b),
{
    if a >= b {
        a
    } else {
        b
    }
}

/// The smallest box that holds both `a` and `b`: component-wise minimum of
/// the minimum corners and maximum of the maximum corners.
pub fn union_aabb(a: &Aabb, b: &Aabb) -> (r: Aabb)
    ensures
        r == union_spec(*a, *b),
        a.wf() && b.wf() ==> r.wf(),
{
    Aabb {
        min: Vec3i {
            x: min_exec(a.min.x, b.min.x),
            y: min_exec(a.min.y, b.min.y),
            z: min_exec(a.min.z, b.min.z),
        },
        max: Vec3i {
            x: max_exec(a.max.x, b.max.x),
            y: max_exec(a.max.y, b.max.y),
            z: max_exec(a.max.z, b.max.z),
        },
    }
}

/// Union of boxes is associative: grouping does not change the result.
pub proof fn lemma_union_associative(a: Aabb, b: Aabb, c: Aabb)
    ensures
        union_spec(union_spec(a, b), c) == union_spec(a, union_spec(b, c)),
{
}

/// Union of boxes is commutative: the order of the two operands does not
/// change the result.
pub proof fn lemma_union_commutative(a: Aabb, b: Aabb)
    ensures
        union_spec(a, b) == union_spec(b, a),
{
}

/// `outer` holds every point of `inner`.
pub open spec fn contains_box(outer: Aabb, inner: Aabb) -> bool {
    &&& outer.min.x <= inner.min.x && inner.max.x <= outer.max.x
    &&& outer.min.y <= inner.min.y && inner.max.y <= outer.max.y
    &&& outer.min.z <= inner.min.z && inner.max.z <= outer.max.z
}

} // verus!
