//! Index lists of built-in flat shapes.
use vstd::prelude::*;

verus! {

/// Triangle `t` of a circle with `num_points` rim points: a fan around rim
/// point 0, each triangle joining point 0 to points `t + 1` and `t`; the
/// last triangle is `(0, num_points - 1, 0)`.
pub open spec fn circle_triangle(num_points: u32, t: int) -> (u32, u32, u32) {
    if t < num_points - 1 {
        (0, (t + 1) as u32, t as u32)
    } else {
        (0, (num_points - 1) as u32, 0)
    }
}

/// The index list of a circle drawn with `num_points` rim points: one
/// triangle per point, three indices each.
pub fn circle_indices(num_points: u32) -> (r: Vec<u32>)
    requires
        1 <= num_points,
        3 * num_points <= u32::MAX,
    ensures
        r@.len() == 3 * num_points,
        forall|t: int|
            0 <= t < num_points ==> {
                &&& #[trigger] r@[3 * t] == circle_triangle(num_points, t).0
                &&& r@[3 * t + 1] == circle_triangle(num_points, t).1
                &&& r@[3 * t + 2] == circle_triangle(num_points, t).2
            },
{
    let mut r: Vec<u32> = Vec::new();
    let mut i: u32 = 1;
    while i < num_points
        invariant
            1 <= i <= num_points,
            3 * num_points <= u32::MAX,
            r@.len() == 3 * (i - 1),
            forall|t: int|
                0 <= t < i - 1 ==> {
                    &&& #[trigger] r@[3 * t] == circle_triangle(num_points, t).0
                    &&& r@[3 * t + 1] == circle_triangle(num_points, t).1
                    &&& r@[3 * t + 2] == circle_triangle(num_points, t).2
                },
        decreases num_points - i,
    {
        r.push(0);
        r.push(i);
        r.push(i - 1);
        i += 1;
    }
    r.push(0);
    r.push(num_points - 1);
    r.push(0);
    r
}

} // verus!
