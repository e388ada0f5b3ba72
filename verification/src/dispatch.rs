//! How many compute workgroups cover the storage texture.
//!
//! The compute shader runs in square workgroups of `WORKGROUP_SIZE` ×
//! `WORKGROUP_SIZE` invocations, one invocation per pixel. Each frame
//! dispatches enough workgroups along each axis to reach every pixel.

use vstd::prelude::*;

verus! {

/// Side length, in invocations, of the square workgroup declared by the
/// compute shader (`@workgroup_size(16, 16)`).
pub const WORKGROUP_SIZE: u32 = 16;

/// The number of workgroups needed along one axis of `extent` pixels: the
/// extent divided by the workgroup size, rounded up.
pub open spec fn spec_workgroup_count(extent: int) -> int {
    (extent + WORKGROUP_SIZE - 1) / (WORKGROUP_SIZE as int)
}

/// Whether one axis of `extent` pixels can be rounded up to a whole number of
/// workgroups without leaving `u32`.
pub open spec fn extent_fits(extent: int) -> bool {
    extent + WORKGROUP_SIZE - 1 <= u32::MAX
}

/// Number of workgroups along one axis of `extent` pixels.
pub fn workgroup_count(extent: u32) -> (count: u32)
    requires
        extent_fits(extent as int),
    ensures
        count == spec_workgroup_count(extent as int),
{
    (extent + (WORKGROUP_SIZE - 1)) / WORKGROUP_SIZE
}

/// Workgroup counts along x and y for a `width` × `height` texture.
pub fn dispatch_size(width: u32, height: u32) -> (groups: (u32, u32))
    requires
        extent_fits(width as int),
        extent_fits(height as int),
    ensures
        groups.0 == spec_workgroup_count(width as int),
        groups.1 == spec_workgroup_count(height as int),
{
    (workgroup_count(width), workgroup_count(height))
}

/// Every pixel of an axis falls into a dispatched workgroup, and every
/// dispatched workgroup holds at least one pixel of that axis.
pub proof fn lemma_dispatch_covers_exactly(extent: int)
    requires
        extent >= 0,
    ensures
        forall|pixel: int| 0 <= pixel < extent ==>
            #[trigger] (pixel / (WORKGROUP_SIZE as int)) < spec_workgroup_count(extent),
        forall|group: int| 0 <= group < spec_workgroup_count(extent) ==>
            #[trigger] (group * WORKGROUP_SIZE) < extent,
        spec_workgroup_count(extent) * WORKGROUP_SIZE >= extent,
        spec_workgroup_count(extent) * WORKGROUP_SIZE < extent + WORKGROUP_SIZE,
{
    let n = spec_workgroup_count(extent);
    assert(n * 16 <= extent + 15 && extent + 15 < n * 16 + 16) by (nonlinear_arith)
        requires
            n == (extent + 15) / 16,
            extent >= 0,
    ;
    assert forall|pixel: int| 0 <= pixel < extent implies
        #[trigger] (pixel / (WORKGROUP_SIZE as int)) < n by {
        assert(pixel / 16 < n) by (nonlinear_arith)
            requires
                0 <= pixel < extent,
                extent <= n * 16,
        ;
    }
    assert forall|group: int| 0 <= group < n implies
        #[trigger] (group * WORKGROUP_SIZE) < extent by {
        assert(group * 16 < extent) by (nonlinear_arith)
            requires
                0 <= group,
                group + 1 <= n,
                n * 16 <= extent + 15,
        ;
    }
}

} // verus!
