//! Workgroup sizer: maps image dimensions and a workgroup tile size to the
//! dispatch grid that covers every pixel.

use vstd::prelude::*;
use vstd::arithmetic::div_mod::{lemma_fundamental_div_mod, lemma_mod_bound};

verus! {

/// The tightest grid count along one axis: the smallest `g` with
/// `g * tile >= extent`, i.e. the ceiling of `extent / tile`.
pub open spec fn ceil_div(extent: int, tile: int) -> int
    recommends
        tile > 0,
{
    (extent + tile - 1) / tile
}

proof fn lemma_ceil_div_covers(extent: int, tile: int)
    requires
        extent > 0,
        tile > 0,
    ensures
        ceil_div(extent, tile) * tile >= extent,
        (ceil_div(extent, tile) - 1) * tile < extent,
{
    let q = (extent + tile - 1) / tile;
    lemma_fundamental_div_mod(extent + tile - 1, tile);
    lemma_mod_bound(extent + tile - 1, tile);
    assert(q * tile == tile * q);
    assert((q - 1) * tile == tile * q - tile) by (nonlinear_arith);
}

/// Computes the dispatch grid `(x, y)` for an image of `image_size` pixels
/// processed by workgroups of `workgroup_size` lanes: the tightest grid whose
/// launched lanes cover the whole image along both axes.
pub fn compute_work_group_count(image_size: (u32, u32), workgroup_size: (u32, u32)) -> (r: (
    u32,
    u32,
))
    requires
        image_size.0 > 0,
        image_size.1 > 0,
        workgroup_size.0 > 0,
        workgroup_size.1 > 0,
        image_size.0 + workgroup_size.0 - 1 <= u32::MAX,
        image_size.1 + workgroup_size.1 - 1 <= u32::MAX,
    ensures
        r.0 * workgroup_size.0 >= image_size.0,
        r.1 * workgroup_size.1 >= image_size.1,
        (r.0 - 1) * workgroup_size.0 < image_size.0,
        (r.1 - 1) * workgroup_size.1 < image_size.1,
        r.0 == ceil_div(image_size.0 as int, workgroup_size.0 as int),
        r.1 == ceil_div(image_size.1 as int, workgroup_size.1 as int),
{
    let x: u32 = (image_size.0 - 1 + workgroup_size.0) / workgroup_size.0;
    let y: u32 = (image_size.1 - 1 + workgroup_size.1) / workgroup_size.1;
    proof {
        lemma_ceil_div_covers(image_size.0 as int, workgroup_size.0 as int);
        lemma_ceil_div_covers(image_size.1 as int, workgroup_size.1 as int);
    }
    (x, y)
}

} // verus!
