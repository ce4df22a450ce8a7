use vstd::prelude::*;

verus! {

/// Half of `x`, rounded toward zero as Rust's integer division does.
pub open spec fn half_toward_zero(x: int) -> int {
    if x >= 0 {
        x / 2
    } else {
        -((-x) / 2)
    }
}

/// The centre of the monitor rectangle with the given edges: the midpoints of its
/// horizontal and vertical extents, each rounded toward zero.
pub fn center_of_rect(left: i32, top: i32, right: i32, bottom: i32) -> (r: (i32, i32))
    requires
        i32::MIN <= left + right <= i32::MAX,
        i32::MIN <= top + bottom <= i32::MAX,
    ensures
        r.0 == half_toward_zero(left + right),
        r.1 == half_toward_zero(top + bottom),
{
    (half_i32(left + right), half_i32(top + bottom))
}

fn half_i32(x: i32) -> (r: i32)
    ensures
        r == half_toward_zero(x as int),
{
    if x >= 0 {
        x / 2
    } else {
        let m: i64 = -(x as i64);
        -((m / 2) as i32)
    }
}

} // verus!
