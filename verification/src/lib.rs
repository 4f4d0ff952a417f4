use vstd::prelude::*;

pub mod laws;
pub mod physics;
pub mod rng;
pub mod store;

verus! {

/// Side length of one grid cell, in pixels.
pub const BLOCK_SIZE: i32 = 20;

/// Canvas width in pixels.
pub const CANVAS_W: i32 = 600;

/// Canvas height in pixels.
pub const CANVAS_H: i32 = 600;

/// Largest valid cell-origin coordinate on either axis.
pub const MAX_COORD: i32 = 580;

/// The largest multiple of `BLOCK_SIZE` that is at most `n`: the origin of the
/// grid cell that encloses pixel coordinate `n`.
pub open spec fn snap_spec(n: int) -> int {
    n - (n % (BLOCK_SIZE as int))
}

/// Snapping never moves a coordinate up, lands on a multiple of
/// `BLOCK_SIZE` less than one cell below the input, does nothing to an
/// already snapped coordinate, and keeps the order of coordinates.
pub proof fn lemma_snap_properties(n: int)
    requires
        n >= 0,
    ensures
        0 <= snap_spec(n) <= n,
        n - BLOCK_SIZE < snap_spec(n),
        snap_spec(n) % (BLOCK_SIZE as int) == 0,
        snap_spec(snap_spec(n)) == snap_spec(n),
        forall|m: int| 0 <= m <= n ==> snap_spec(m) <= snap_spec(n),
{
    let s = BLOCK_SIZE as int;
    vstd::arithmetic::div_mod::lemma_mod_bound(n, s);
    vstd::arithmetic::div_mod::lemma_fundamental_div_mod(n, s);
    vstd::arithmetic::div_mod::lemma_mod_multiples_basic(n / s, s);
    assert(snap_spec(n) == (n / s) * s);
    assert(snap_spec(snap_spec(n)) == snap_spec(n));
    assert forall|m: int| 0 <= m <= n implies snap_spec(m) <= snap_spec(n) by {
        vstd::arithmetic::div_mod::lemma_mod_bound(m, s);
        vstd::arithmetic::div_mod::lemma_fundamental_div_mod(m, s);
        vstd::arithmetic::div_mod::lemma_div_is_ordered(m, n, s);
        vstd::arithmetic::mul::lemma_mul_inequality(m / s, n / s, s);
    }
}

/// Snap a pixel coordinate to the origin of the grid cell that encloses it,
/// by walking downward until a multiple of `BLOCK_SIZE` is reached. Defined
/// for any input whose snapped value is still representable; an input
/// outside the canvas snaps to an out-of-canvas cell origin, which is the
/// caller's to avoid.
pub fn get_closest_coord(num: i32) -> (r: i32)
    requires
        num >= i32::MIN + BLOCK_SIZE - 1,
    ensures
        r == snap_spec(num as int),
{
    let ghost n0: int = num as int;
    let mut num: i32 = num;
    while num % BLOCK_SIZE != 0
        invariant
            num as int >= snap_spec(n0),
            snap_spec(num as int) == snap_spec(n0),
            snap_spec(n0) >= i32::MIN,
        decreases num - snap_spec(n0),
    {
        num = num - 1;
    }
    num
}

} // verus!
