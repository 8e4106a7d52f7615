//! Assembly of one solver call's inputs: builds both matrices, classifies
//! the cone specification, and overlays the settings — everything the
//! solver needs, validated, in one pass.  Only structural malformation of
//! the matrices is fatal; unknown cone labels and mismatched overrides
//! degrade gracefully.

use vstd::prelude::*;
use crate::cones::{classify_cones, cones_of, labels_view, unknown_labels, ConeDescriptor};
use crate::matrix::{build_csc, build_quadratic, valid_csc, BuildError, SparseMatrix};
use crate::scalar::{entries_model, TaggedValue};
use crate::settings::{default_model, overlaid, settings_from_overrides, SolverSettings};

verus! {

/// Everything the solver consumes for one call, assembled and validated:
/// the quadratic objective matrix `P` (`n x n`), the constraint matrix `A`
/// (`m x n`), the linear cost `q`, the right-hand side `b`, the ordered
/// cone set, the configured settings, and the non-fatal diagnostics
/// gathered along the way (one per unrecognized cone label).
#[derive(Debug, Clone)]
pub struct PreparedProblem {
    pub quadratic: SparseMatrix,
    pub constraint: SparseMatrix,
    pub linear_cost: Vec<u64>,
    pub rhs: Vec<u64>,
    pub cones: Vec<ConeDescriptor>,
    pub settings: SolverSettings,
    pub warnings: Vec<String>,
}

/// Builds the solver inputs for one call.
///
/// The constraint matrix triplets must form a structurally valid `m x n`
/// CSC matrix, and the objective triplets a valid `n x n` one — except
/// that an empty objective value array means "no quadratic term" and
/// yields the all-zero matrix whatever the objective index arrays hold.
/// Malformed triplets abort with `MalformedMatrix` before anything is
/// solved; nothing else fails.
pub fn prepare_problem(
    m: usize,
    n: usize,
    a_row_idx: Vec<i32>,
    a_col_ptr: Vec<i32>,
    a_values: Vec<u64>,
    b: Vec<u64>,
    q: Vec<u64>,
    p_row_idx: Vec<i32>,
    p_col_ptr: Vec<i32>,
    p_values: Vec<u64>,
    cone_spec: &Vec<(String, TaggedValue)>,
    overrides: &Vec<(String, TaggedValue)>,
) -> (r: Result<PreparedProblem, BuildError>)
    requires
        n < usize::MAX,
    ensures
        match r {
            Ok(p) => {
                &&& p.quadratic.wf()
                &&& p.quadratic.rows == n
                &&& p.quadratic.cols == n
                &&& (p_values@.len() == 0 ==> p.quadratic.nnz() == 0)
                &&& (p_values@.len() > 0 ==> {
                    &&& valid_csc(n, n, p_col_ptr@, p_row_idx@, p_values@.len())
                    &&& p.quadratic.values@ == p_values@
                })
                &&& valid_csc(m, n, a_col_ptr@, a_row_idx@, a_values@.len())
                &&& p.constraint.wf()
                &&& p.constraint.rows == m
                &&& p.constraint.cols == n
                &&& p.constraint.values@ == a_values@
                &&& p.linear_cost@ == q@
                &&& p.rhs@ == b@
                &&& p.cones@ == cones_of(entries_model(cone_spec@))
                &&& labels_view(p.warnings@) == unknown_labels(entries_model(cone_spec@))
                &&& p.settings@ == overlaid(default_model(), entries_model(overrides@))
            },
            Err(e) => {
                &&& e == BuildError::MalformedMatrix
                &&& {
                    ||| !valid_csc(m, n, a_col_ptr@, a_row_idx@, a_values@.len())
                    ||| (p_values@.len() > 0 && !valid_csc(
                        n,
                        n,
                        p_col_ptr@,
                        p_row_idx@,
                        p_values@.len(),
                    ))
                }
            },
        },
{
    let quadratic = match build_quadratic(n, p_col_ptr, p_row_idx, p_values) {
        Ok(mat) => mat,
        Err(e) => {
            return Err(e);
        },
    };
    let constraint = match build_csc(m, n, a_col_ptr, a_row_idx, a_values) {
        Ok(mat) => mat,
        Err(e) => {
            return Err(e);
        },
    };
    let (cones, warnings) = classify_cones(cone_spec);
    let settings = settings_from_overrides(overrides);
    Ok(
        PreparedProblem {
            quadratic,
            constraint,
            linear_cost: q,
            rhs: b,
            cones,
            settings,
            warnings,
        },
    )
}

} // verus!
