//! Workgroup dispatch sizing for compute passes.
//!
//! A compute kernel runs in workgroups with a fixed footprint declared in
//! the shader. The engine's covering policy is to round the dispatch count
//! up, so the launched workgroups always cover the whole domain; a kernel
//! over a domain that is not an exact multiple of the footprint must
//! bound-check its own coordinates.

use vstd::prelude::*;

verus! {

/// The workgroup side length the engine's kernels declare.
pub const WORKGROUP_DIM: u32 = 16;

/// The device limit on workgroups launched per dispatch axis.
pub const MAX_DISPATCH_DIMENSION: u32 = 65535;

/// The largest domain side a dispatch can cover: one full workgroup
/// footprint per launchable workgroup.
pub const MAX_DISPATCH_DOMAIN: u32 = 1048560;

/// The least number of workgroups of size `d` that cover `x` items.
pub open spec fn spec_cover_count(x: int, d: int) -> int
    recommends
        d > 0,
{
    (x + d - 1) / d
}

/// The least number of workgroups of size `d` that cover `x` items.
pub fn cover_count(x: u32, d: u32) -> (r: u32)
    requires
        0 < d,
    ensures
        r == spec_cover_count(x as int, d as int),
        r * d >= x,
        x > 0 ==> (r - 1) * d < x,
        x == 0 ==> r == 0,
        x <= d * MAX_DISPATCH_DIMENSION ==> r <= MAX_DISPATCH_DIMENSION,
{
    let q: u32 = x / d;
    let rem: u32 = x % d;
    proof {
        assert(rem != 0 ==> q < x) by (nonlinear_arith)
            requires
                d > 0,
                q == x as int / d as int,
                rem == x as int % d as int,
        ;
    }
    let r: u32 = if rem == 0 {
        q
    } else {
        q + 1
    };
    proof {
        assert(x == d * q + rem) by (nonlinear_arith)
            requires
                d > 0,
                q == x as int / d as int,
                rem == x as int % d as int,
        ;
        assert(r == (x + d - 1) as int / d as int) by (nonlinear_arith)
            requires
                d > 0,
                x == d * q + rem,
                0 <= rem < d,
                r == if rem == 0 { q as int } else { q + 1 },
        ;
        assert(r * d >= x && (x > 0 ==> (r - 1) * d < x)) by (nonlinear_arith)
            requires
                d > 0,
                x == d * q + rem,
                0 <= rem < d,
                r == if rem == 0 { q as int } else { q + 1 },
        ;
        assert(x <= d * MAX_DISPATCH_DIMENSION ==> r <= MAX_DISPATCH_DIMENSION) by (
        nonlinear_arith)
            requires
                d > 0,
                x == d * q + rem,
                0 <= rem < d,
                r == if rem == 0 { q as int } else { q + 1 },
                MAX_DISPATCH_DIMENSION == 65535,
        ;
    }
    r
}

/// The workgroup dispatch counts covering a `width` by `height` domain
/// with the engine's fixed workgroup footprint: the least counts whose
/// covered area reaches the domain in each axis, and a single layer.
pub fn workgroup_counts(width: u32, height: u32) -> (r: (u32, u32, u32))
    ensures
        r.0 == spec_cover_count(width as int, WORKGROUP_DIM as int),
        r.1 == spec_cover_count(height as int, WORKGROUP_DIM as int),
        r.2 == 1,
        r.0 * WORKGROUP_DIM >= width,
        r.1 * WORKGROUP_DIM >= height,
        width > 0 ==> (r.0 - 1) * WORKGROUP_DIM < width,
        height > 0 ==> (r.1 - 1) * WORKGROUP_DIM < height,
        width <= MAX_DISPATCH_DOMAIN ==> r.0 <= MAX_DISPATCH_DIMENSION,
        height <= MAX_DISPATCH_DOMAIN ==> r.1 <= MAX_DISPATCH_DIMENSION,
{
    proof {
        assert(MAX_DISPATCH_DOMAIN == WORKGROUP_DIM * MAX_DISPATCH_DIMENSION);
    }
    (cover_count(width, WORKGROUP_DIM), cover_count(height, WORKGROUP_DIM), 1)
}

} // verus!
