//! The result marshaller: transcribes the solver's solution and diagnostics
//! into the uniform, caller-facing output record.  Vectors and scalars pass
//! through untouched; only the termination status is shifted to the host's
//! one-based convention.

use vstd::prelude::*;

verus! {

/// What the solver hands back: primal, dual and slack vectors, the
/// objective value, its termination code (zero-based), the solve time in
/// seconds, the iteration count, and the primal/dual residual norms.
/// Real numbers are opaque bit patterns.
#[derive(Debug, Clone)]
pub struct SolverOutcome {
    pub x: Vec<u64>,
    pub z: Vec<u64>,
    pub s: Vec<u64>,
    pub obj_val: u64,
    pub status: i32,
    pub solve_time: u64,
    pub iterations: u32,
    pub r_prim: u64,
    pub r_dual: u64,
}

/// The caller-visible output record: exactly nine named fields, with the
/// termination status offset to the host's one-based convention.
#[derive(Debug, Clone)]
pub struct HostResult {
    pub x: Vec<u64>,
    pub z: Vec<u64>,
    pub s: Vec<u64>,
    pub obj_val: u64,
    pub status: i32,
    pub solve_time: u64,
    pub iterations: i32,
    pub r_prim: u64,
    pub r_dual: u64,
}

/// Transcribes the solver's outcome into the caller-visible record: every
/// field passes through unchanged, except that the status code is shifted
/// up by one for the host's one-based convention and the iteration count is
/// narrowed to the host's integer type.
pub fn marshal_result(o: SolverOutcome) -> (r: HostResult)
    requires
        o.status < i32::MAX,
        o.iterations <= i32::MAX,
    ensures
        r.x@ == o.x@,
        r.z@ == o.z@,
        r.s@ == o.s@,
        r.obj_val == o.obj_val,
        r.status == o.status + 1,
        r.solve_time == o.solve_time,
        r.iterations == o.iterations as i32,
        r.r_prim == o.r_prim,
        r.r_dual == o.r_dual,
{
    HostResult {
        x: o.x,
        z: o.z,
        s: o.s,
        obj_val: o.obj_val,
        status: o.status + 1,
        solve_time: o.solve_time,
        iterations: o.iterations as i32,
        r_prim: o.r_prim,
        r_dual: o.r_dual,
    }
}

} // verus!
