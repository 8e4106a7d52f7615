//! The settings overlay: a complete, fully-populated solver configuration
//! record, and the key-driven, type-checked overlay of named overrides onto
//! it.  Unrecognized names and type-mismatched values are ignored; every
//! field keeps its prior value unless a well-typed override replaces it.
//!
//! Real-valued fields are opaque real numbers carried as IEEE-754 bit
//! patterns.

use vstd::prelude::*;
use crate::scalar::{entries_model, ScalarModel, TaggedValue};
use crate::strutil::str_eq;

verus! {

/// Default run-time limit: positive infinity, as a bit pattern.
pub const DEFAULT_TIME_LIMIT_BITS: u64 = 0x7FF0000000000000;

/// Default maximum interior-point step fraction: 0.99.
pub const DEFAULT_MAX_STEP_FRACTION_BITS: u64 = 0x3FEFAE147AE147AE;

/// Default absolute duality-gap tolerance: 1e-8.
pub const DEFAULT_TOL_GAP_ABS_BITS: u64 = 0x3E45798EE2308C3A;

/// Default relative duality-gap tolerance: 1e-8.
pub const DEFAULT_TOL_GAP_REL_BITS: u64 = 0x3E45798EE2308C3A;

/// Default feasibility tolerance: 1e-8.
pub const DEFAULT_TOL_FEAS_BITS: u64 = 0x3E45798EE2308C3A;

/// Default absolute infeasibility tolerance: 1e-8.
pub const DEFAULT_TOL_INFEAS_ABS_BITS: u64 = 0x3E45798EE2308C3A;

/// Default relative infeasibility tolerance: 1e-8.
pub const DEFAULT_TOL_INFEAS_REL_BITS: u64 = 0x3E45798EE2308C3A;

/// Default kappa/tau ratio tolerance: 1e-6.
pub const DEFAULT_TOL_KTRATIO_BITS: u64 = 0x3EB0C6F7A0B5ED8D;

/// Default reduced absolute duality-gap tolerance: 5e-5.
pub const DEFAULT_REDUCED_TOL_GAP_ABS_BITS: u64 = 0x3F0A36E2EB1C432D;

/// Default reduced relative duality-gap tolerance: 5e-5.
pub const DEFAULT_REDUCED_TOL_GAP_REL_BITS: u64 = 0x3F0A36E2EB1C432D;

/// Default reduced feasibility tolerance: 1e-4.
pub const DEFAULT_REDUCED_TOL_FEAS_BITS: u64 = 0x3F1A36E2EB1C432D;

/// Default reduced absolute infeasibility tolerance: 5e-12.
pub const DEFAULT_REDUCED_TOL_INFEAS_ABS_BITS: u64 = 0x3D95FD7FE1796495;

/// Default reduced relative infeasibility tolerance: 5e-5.
pub const DEFAULT_REDUCED_TOL_INFEAS_REL_BITS: u64 = 0x3F0A36E2EB1C432D;

/// Default reduced kappa/tau ratio tolerance: 1e-4.
pub const DEFAULT_REDUCED_TOL_KTRATIO_BITS: u64 = 0x3F1A36E2EB1C432D;

/// Default minimum equilibration scaling: 1e-4.
pub const DEFAULT_EQUILIBRATE_MIN_SCALING_BITS: u64 = 0x3F1A36E2EB1C432D;

/// Default maximum equilibration scaling: 1e4.
pub const DEFAULT_EQUILIBRATE_MAX_SCALING_BITS: u64 = 0x40C3880000000000;

/// Default linesearch backtracking step: 0.8.
pub const DEFAULT_LINESEARCH_BACKTRACK_STEP_BITS: u64 = 0x3FE999999999999A;

/// Default minimum scaling-switch step length: 0.1.
pub const DEFAULT_MIN_SWITCH_STEP_LENGTH_BITS: u64 = 0x3FB999999999999A;

/// Default minimum terminating step length: 1e-4.
pub const DEFAULT_MIN_TERMINATE_STEP_LENGTH_BITS: u64 = 0x3F1A36E2EB1C432D;

/// Default static regularization constant: 1e-8.
pub const DEFAULT_STATIC_REGULARIZATION_CONSTANT_BITS: u64 = 0x3E45798EE2308C3A;

/// Default proportional static regularization: the square of the machine
/// epsilon of a double-precision number.
pub const DEFAULT_STATIC_REGULARIZATION_PROPORTIONAL_BITS: u64 = 0x3970000000000000;

/// Default dynamic regularization threshold: 1e-13.
pub const DEFAULT_DYNAMIC_REGULARIZATION_EPS_BITS: u64 = 0x3D3C25C268497682;

/// Default dynamic regularization shift: 2e-7.
pub const DEFAULT_DYNAMIC_REGULARIZATION_DELTA_BITS: u64 = 0x3E8AD7F29ABCAF48;

/// Default iterative-refinement relative tolerance: 1e-13.
pub const DEFAULT_ITERATIVE_REFINEMENT_RELTOL_BITS: u64 = 0x3D3C25C268497682;

/// Default iterative-refinement absolute tolerance: 1e-12.
pub const DEFAULT_ITERATIVE_REFINEMENT_ABSTOL_BITS: u64 = 0x3D719799812DEA11;

/// Default iterative-refinement stop ratio: 5.0.
pub const DEFAULT_ITERATIVE_REFINEMENT_STOP_RATIO_BITS: u64 = 0x4014000000000000;

/// The complete solver configuration record.  Always fully populated:
/// construction starts from the defaults and overrides only ever replace
/// individual fields.
#[derive(Debug, Clone, PartialEq)]
pub struct SolverSettings {
    pub max_iter: u32,
    pub time_limit: u64,
    pub verbose: bool,
    pub max_step_fraction: u64,
    pub tol_gap_abs: u64,
    pub tol_gap_rel: u64,
    pub tol_feas: u64,
    pub tol_infeas_abs: u64,
    pub tol_infeas_rel: u64,
    pub tol_ktratio: u64,
    pub reduced_tol_gap_abs: u64,
    pub reduced_tol_gap_rel: u64,
    pub reduced_tol_feas: u64,
    pub reduced_tol_infeas_abs: u64,
    pub reduced_tol_infeas_rel: u64,
    pub reduced_tol_ktratio: u64,
    pub equilibrate_enable: bool,
    pub equilibrate_max_iter: u32,
    pub equilibrate_min_scaling: u64,
    pub equilibrate_max_scaling: u64,
    pub linesearch_backtrack_step: u64,
    pub min_switch_step_length: u64,
    pub min_terminate_step_length: u64,
    pub direct_kkt_solver: bool,
    pub direct_solve_method: String,
    pub static_regularization_enable: bool,
    pub static_regularization_constant: u64,
    pub static_regularization_proportional: u64,
    pub dynamic_regularization_enable: bool,
    pub dynamic_regularization_eps: u64,
    pub dynamic_regularization_delta: u64,
    pub iterative_refinement_enable: bool,
    pub iterative_refinement_reltol: u64,
    pub iterative_refinement_abstol: u64,
    pub iterative_refinement_max_iter: u32,
    pub iterative_refinement_stop_ratio: u64,
    pub presolve_enable: bool,
    pub chordal_decomposition_enable: bool,
    pub chordal_decomposition_merge_method: String,
    pub chordal_decomposition_compact: bool,
    pub chordal_decomposition_complete_dual: bool,
}

/// The mathematical model of the configuration record: the same fields,
/// with the method-name strings abstracted to character sequences.
#[verifier::ext_equal]
pub ghost struct SettingsModel {
    pub max_iter: u32,
    pub time_limit: u64,
    pub verbose: bool,
    pub max_step_fraction: u64,
    pub tol_gap_abs: u64,
    pub tol_gap_rel: u64,
    pub tol_feas: u64,
    pub tol_infeas_abs: u64,
    pub tol_infeas_rel: u64,
    pub tol_ktratio: u64,
    pub reduced_tol_gap_abs: u64,
    pub reduced_tol_gap_rel: u64,
    pub reduced_tol_feas: u64,
    pub reduced_tol_infeas_abs: u64,
    pub reduced_tol_infeas_rel: u64,
    pub reduced_tol_ktratio: u64,
    pub equilibrate_enable: bool,
    pub equilibrate_max_iter: u32,
    pub equilibrate_min_scaling: u64,
    pub equilibrate_max_scaling: u64,
    pub linesearch_backtrack_step: u64,
    pub min_switch_step_length: u64,
    pub min_terminate_step_length: u64,
    pub direct_kkt_solver: bool,
    pub direct_solve_method: Seq<char>,
    pub static_regularization_enable: bool,
    pub static_regularization_constant: u64,
    pub static_regularization_proportional: u64,
    pub dynamic_regularization_enable: bool,
    pub dynamic_regularization_eps: u64,
    pub dynamic_regularization_delta: u64,
    pub iterative_refinement_enable: bool,
    pub iterative_refinement_reltol: u64,
    pub iterative_refinement_abstol: u64,
    pub iterative_refinement_max_iter: u32,
    pub iterative_refinement_stop_ratio: u64,
    pub presolve_enable: bool,
    pub chordal_decomposition_enable: bool,
    pub chordal_decomposition_merge_method: Seq<char>,
    pub chordal_decomposition_compact: bool,
    pub chordal_decomposition_complete_dual: bool,
}

impl View for SolverSettings {
    type V = SettingsModel;

    open spec fn view(&self) -> SettingsModel {
        SettingsModel {
            max_iter: self.max_iter,
            time_limit: self.time_limit,
            verbose: self.verbose,
            max_step_fraction: self.max_step_fraction,
            tol_gap_abs: self.tol_gap_abs,
            tol_gap_rel: self.tol_gap_rel,
            tol_feas: self.tol_feas,
            tol_infeas_abs: self.tol_infeas_abs,
            tol_infeas_rel: self.tol_infeas_rel,
            tol_ktratio: self.tol_ktratio,
            reduced_tol_gap_abs: self.reduced_tol_gap_abs,
            reduced_tol_gap_rel: self.reduced_tol_gap_rel,
            reduced_tol_feas: self.reduced_tol_feas,
            reduced_tol_infeas_abs: self.reduced_tol_infeas_abs,
            reduced_tol_infeas_rel: self.reduced_tol_infeas_rel,
            reduced_tol_ktratio: self.reduced_tol_ktratio,
            equilibrate_enable: self.equilibrate_enable,
            equilibrate_max_iter: self.equilibrate_max_iter,
            equilibrate_min_scaling: self.equilibrate_min_scaling,
            equilibrate_max_scaling: self.equilibrate_max_scaling,
            linesearch_backtrack_step: self.linesearch_backtrack_step,
            min_switch_step_length: self.min_switch_step_length,
            min_terminate_step_length: self.min_terminate_step_length,
            direct_kkt_solver: self.direct_kkt_solver,
            direct_solve_method: self.direct_solve_method@,
            static_regularization_enable: self.static_regularization_enable,
            static_regularization_constant: self.static_regularization_constant,
            static_regularization_proportional: self.static_regularization_proportional,
            dynamic_regularization_enable: self.dynamic_regularization_enable,
            dynamic_regularization_eps: self.dynamic_regularization_eps,
            dynamic_regularization_delta: self.dynamic_regularization_delta,
            iterative_refinement_enable: self.iterative_refinement_enable,
            iterative_refinement_reltol: self.iterative_refinement_reltol,
            iterative_refinement_abstol: self.iterative_refinement_abstol,
            iterative_refinement_max_iter: self.iterative_refinement_max_iter,
            iterative_refinement_stop_ratio: self.iterative_refinement_stop_ratio,
            presolve_enable: self.presolve_enable,
            chordal_decomposition_enable: self.chordal_decomposition_enable,
            chordal_decomposition_merge_method: self.chordal_decomposition_merge_method@,
            chordal_decomposition_compact: self.chordal_decomposition_compact,
            chordal_decomposition_complete_dual: self.chordal_decomposition_complete_dual,
        }
    }
}

/// The default configuration: every field populated with the solver's
/// stock value.
pub open spec fn default_model() -> SettingsModel {
    SettingsModel {
        max_iter: 200u32,
        time_limit: DEFAULT_TIME_LIMIT_BITS,
        verbose: true,
        max_step_fraction: DEFAULT_MAX_STEP_FRACTION_BITS,
        tol_gap_abs: DEFAULT_TOL_GAP_ABS_BITS,
        tol_gap_rel: DEFAULT_TOL_GAP_REL_BITS,
        tol_feas: DEFAULT_TOL_FEAS_BITS,
        tol_infeas_abs: DEFAULT_TOL_INFEAS_ABS_BITS,
        tol_infeas_rel: DEFAULT_TOL_INFEAS_REL_BITS,
        tol_ktratio: DEFAULT_TOL_KTRATIO_BITS,
        reduced_tol_gap_abs: DEFAULT_REDUCED_TOL_GAP_ABS_BITS,
        reduced_tol_gap_rel: DEFAULT_REDUCED_TOL_GAP_REL_BITS,
        reduced_tol_feas: DEFAULT_REDUCED_TOL_FEAS_BITS,
        reduced_tol_infeas_abs: DEFAULT_REDUCED_TOL_INFEAS_ABS_BITS,
        reduced_tol_infeas_rel: DEFAULT_REDUCED_TOL_INFEAS_REL_BITS,
        reduced_tol_ktratio: DEFAULT_REDUCED_TOL_KTRATIO_BITS,
        equilibrate_enable: true,
        equilibrate_max_iter: 10u32,
        equilibrate_min_scaling: DEFAULT_EQUILIBRATE_MIN_SCALING_BITS,
        equilibrate_max_scaling: DEFAULT_EQUILIBRATE_MAX_SCALING_BITS,
        linesearch_backtrack_step: DEFAULT_LINESEARCH_BACKTRACK_STEP_BITS,
        min_switch_step_length: DEFAULT_MIN_SWITCH_STEP_LENGTH_BITS,
        min_terminate_step_length: DEFAULT_MIN_TERMINATE_STEP_LENGTH_BITS,
        direct_kkt_solver: true,
        direct_solve_method: "auto"@,
        static_regularization_enable: true,
        static_regularization_constant: DEFAULT_STATIC_REGULARIZATION_CONSTANT_BITS,
        static_regularization_proportional: DEFAULT_STATIC_REGULARIZATION_PROPORTIONAL_BITS,
        dynamic_regularization_enable: true,
        dynamic_regularization_eps: DEFAULT_DYNAMIC_REGULARIZATION_EPS_BITS,
        dynamic_regularization_delta: DEFAULT_DYNAMIC_REGULARIZATION_DELTA_BITS,
        iterative_refinement_enable: true,
        iterative_refinement_reltol: DEFAULT_ITERATIVE_REFINEMENT_RELTOL_BITS,
        iterative_refinement_abstol: DEFAULT_ITERATIVE_REFINEMENT_ABSTOL_BITS,
        iterative_refinement_max_iter: 10u32,
        iterative_refinement_stop_ratio: DEFAULT_ITERATIVE_REFINEMENT_STOP_RATIO_BITS,
        presolve_enable: true,
        chordal_decomposition_enable: true,
        chordal_decomposition_merge_method: "clique_graph"@,
        chordal_decomposition_compact: true,
        chordal_decomposition_complete_dual: true,
    }
}

/// One recognized field of the configuration record, as a name of its own:
/// the overlay is specified, and carried out, field-wise through these.
#[derive(Debug, Clone, Copy, PartialEq, Eq, Structural)]
pub enum SettingsField {
    MaxIter,
    TimeLimit,
    Verbose,
    MaxStepFraction,
    TolGapAbs,
    TolGapRel,
    TolFeas,
    TolInfeasAbs,
    TolInfeasRel,
    TolKtratio,
    ReducedTolGapAbs,
    ReducedTolGapRel,
    ReducedTolFeas,
    ReducedTolInfeasAbs,
    ReducedTolInfeasRel,
    ReducedTolKtratio,
    EquilibrateEnable,
    EquilibrateMaxIter,
    EquilibrateMinScaling,
    EquilibrateMaxScaling,
    LinesearchBacktrackStep,
    MinSwitchStepLength,
    MinTerminateStepLength,
    DirectKktSolver,
    DirectSolveMethod,
    StaticRegularizationEnable,
    StaticRegularizationConstant,
    StaticRegularizationProportional,
    DynamicRegularizationEnable,
    DynamicRegularizationEps,
    DynamicRegularizationDelta,
    IterativeRefinementEnable,
    IterativeRefinementReltol,
    IterativeRefinementAbstol,
    IterativeRefinementMaxIter,
    IterativeRefinementStopRatio,
    PresolveEnable,
    ChordalDecompositionEnable,
    ChordalDecompositionMergeMethod,
    ChordalDecompositionCompact,
    ChordalDecompositionCompleteDual,
}

/// The fixed lookup table of recognized override names: maps a name to the
/// field it addresses, or to nothing if the name is unrecognized.
pub open spec fn field_of(name: Seq<char>) -> Option<SettingsField> {
    if name == "max_iter"@ {
        Some(SettingsField::MaxIter)
    } else if name == "time_limit"@ {
        Some(SettingsField::TimeLimit)
    } else if name == "verbose"@ {
        Some(SettingsField::Verbose)
    } else if name == "max_step_fraction"@ {
        Some(SettingsField::MaxStepFraction)
    } else if name == "tol_gap_abs"@ {
        Some(SettingsField::TolGapAbs)
    } else if name == "tol_gap_rel"@ {
        Some(SettingsField::TolGapRel)
    } else if name == "tol_feas"@ {
        Some(SettingsField::TolFeas)
    } else if name == "tol_infeas_abs"@ {
        Some(SettingsField::TolInfeasAbs)
    } else if name == "tol_infeas_rel"@ {
        Some(SettingsField::TolInfeasRel)
    } else if name == "tol_ktratio"@ {
        Some(SettingsField::TolKtratio)
    } else if name == "reduced_tol_gap_abs"@ {
        Some(SettingsField::ReducedTolGapAbs)
    } else if name == "reduced_tol_gap_rel"@ {
        Some(SettingsField::ReducedTolGapRel)
    } else if name == "reduced_tol_feas"@ {
        Some(SettingsField::ReducedTolFeas)
    } else if name == "reduced_tol_infeas_abs"@ {
        Some(SettingsField::ReducedTolInfeasAbs)
    } else if name == "reduced_tol_infeas_rel"@ {
        Some(SettingsField::ReducedTolInfeasRel)
    } else if name == "reduced_tol_ktratio"@ {
        Some(SettingsField::ReducedTolKtratio)
    } else if name == "equilibrate_enable"@ {
        Some(SettingsField::EquilibrateEnable)
    } else if name == "equilibrate_max_iter"@ {
        Some(SettingsField::EquilibrateMaxIter)
    } else if name == "equilibrate_min_scaling"@ {
        Some(SettingsField::EquilibrateMinScaling)
    } else if name == "equilibrate_max_scaling"@ {
        Some(SettingsField::EquilibrateMaxScaling)
    } else if name == "linesearch_backtrack_step"@ {
        Some(SettingsField::LinesearchBacktrackStep)
    } else if name == "min_switch_step_length"@ {
        Some(SettingsField::MinSwitchStepLength)
    } else if name == "min_terminate_step_length"@ {
        Some(SettingsField::MinTerminateStepLength)
    } else if name == "direct_kkt_solver"@ {
        Some(SettingsField::DirectKktSolver)
    } else if name == "direct_solve_method"@ {
        Some(SettingsField::DirectSolveMethod)
    } else if name == "static_regularization_enable"@ {
        Some(SettingsField::StaticRegularizationEnable)
    } else if name == "static_regularization_constant"@ {
        Some(SettingsField::StaticRegularizationConstant)
    } else if name == "static_regularization_proportional"@ {
        Some(SettingsField::StaticRegularizationProportional)
    } else if name == "dynamic_regularization_enable"@ {
        Some(SettingsField::DynamicRegularizationEnable)
    } else if name == "dynamic_regularization_eps"@ {
        Some(SettingsField::DynamicRegularizationEps)
    } else if name == "dynamic_regularization_delta"@ {
        Some(SettingsField::DynamicRegularizationDelta)
    } else if name == "iterative_refinement_enable"@ {
        Some(SettingsField::IterativeRefinementEnable)
    } else if name == "iterative_refinement_reltol"@ {
        Some(SettingsField::IterativeRefinementReltol)
    } else if name == "iterative_refinement_abstol"@ {
        Some(SettingsField::IterativeRefinementAbstol)
    } else if name == "iterative_refinement_max_iter"@ {
        Some(SettingsField::IterativeRefinementMaxIter)
    } else if name == "iterative_refinement_stop_ratio"@ {
        Some(SettingsField::IterativeRefinementStopRatio)
    } else if name == "presolve_enable"@ {
        Some(SettingsField::PresolveEnable)
    } else if name == "chordal_decomposition_enable"@ {
        Some(SettingsField::ChordalDecompositionEnable)
    } else if name == "chordal_decomposition_merge_method"@ {
        Some(SettingsField::ChordalDecompositionMergeMethod)
    } else if name == "chordal_decomposition_compact"@ {
        Some(SettingsField::ChordalDecompositionCompact)
    } else if name == "chordal_decomposition_complete_dual"@ {
        Some(SettingsField::ChordalDecompositionCompleteDual)
    } else {
        None
    }
}

/// Whether an override name is in the fixed table at all.
pub open spec fn recognized(name: Seq<char>) -> bool {
    field_of(name) is Some
}

/// Whether a tagged value's runtime type is the one the field declares:
/// integer for the iteration counts, string for the method names, boolean
/// for the toggles, real for everything else.
pub open spec fn type_ok(f: SettingsField, v: ScalarModel) -> bool {
    match f {
        SettingsField::MaxIter => v is Int,
        SettingsField::EquilibrateMaxIter => v is Int,
        SettingsField::IterativeRefinementMaxIter => v is Int,
        SettingsField::DirectSolveMethod => v is Text,
        SettingsField::ChordalDecompositionMergeMethod => v is Text,
        SettingsField::Verbose => v is Bool,
        SettingsField::EquilibrateEnable => v is Bool,
        SettingsField::DirectKktSolver => v is Bool,
        SettingsField::StaticRegularizationEnable => v is Bool,
        SettingsField::DynamicRegularizationEnable => v is Bool,
        SettingsField::IterativeRefinementEnable => v is Bool,
        SettingsField::PresolveEnable => v is Bool,
        SettingsField::ChordalDecompositionEnable => v is Bool,
        SettingsField::ChordalDecompositionCompact => v is Bool,
        SettingsField::ChordalDecompositionCompleteDual => v is Bool,
        _ => v is Real,
    }
}

/// Whether a tagged value matches the type declared for a recognized name.
pub open spec fn type_matches(name: Seq<char>, v: ScalarModel) -> bool {
    match field_of(name) {
        Some(f) => type_ok(f, v),
        None => false,
    }
}

/// The host's integer narrowed to an iteration count, with the host's own
/// wrap-around conversion for negative inputs.
pub open spec fn wrap_u32(i: i32) -> u32 {
    if i >= 0 {
        i as u32
    } else {
        (i + 0x1_0000_0000) as u32
    }
}

/// Narrows a host integer to an iteration count, wrapping as the host
/// conversion does.
pub fn wrap_to_u32(i: i32) -> (r: u32)
    ensures
        r == wrap_u32(i),
{
    if i >= 0 {
        i as u32
    } else {
        ((i as i64) + 0x1_0000_0000i64) as u32
    }
}

impl Default for SolverSettings {
    /// The stock configuration record.
    fn default() -> (r: SolverSettings)
        ensures
            r@ == default_model(),
    {
        let r = SolverSettings {
            max_iter: 200,
            time_limit: DEFAULT_TIME_LIMIT_BITS,
            verbose: true,
            max_step_fraction: DEFAULT_MAX_STEP_FRACTION_BITS,
            tol_gap_abs: DEFAULT_TOL_GAP_ABS_BITS,
            tol_gap_rel: DEFAULT_TOL_GAP_REL_BITS,
            tol_feas: DEFAULT_TOL_FEAS_BITS,
            tol_infeas_abs: DEFAULT_TOL_INFEAS_ABS_BITS,
            tol_infeas_rel: DEFAULT_TOL_INFEAS_REL_BITS,
            tol_ktratio: DEFAULT_TOL_KTRATIO_BITS,
            reduced_tol_gap_abs: DEFAULT_REDUCED_TOL_GAP_ABS_BITS,
            reduced_tol_gap_rel: DEFAULT_REDUCED_TOL_GAP_REL_BITS,
            reduced_tol_feas: DEFAULT_REDUCED_TOL_FEAS_BITS,
            reduced_tol_infeas_abs: DEFAULT_REDUCED_TOL_INFEAS_ABS_BITS,
            reduced_tol_infeas_rel: DEFAULT_REDUCED_TOL_INFEAS_REL_BITS,
            reduced_tol_ktratio: DEFAULT_REDUCED_TOL_KTRATIO_BITS,
            equilibrate_enable: true,
            equilibrate_max_iter: 10,
            equilibrate_min_scaling: DEFAULT_EQUILIBRATE_MIN_SCALING_BITS,
            equilibrate_max_scaling: DEFAULT_EQUILIBRATE_MAX_SCALING_BITS,
            linesearch_backtrack_step: DEFAULT_LINESEARCH_BACKTRACK_STEP_BITS,
            min_switch_step_length: DEFAULT_MIN_SWITCH_STEP_LENGTH_BITS,
            min_terminate_step_length: DEFAULT_MIN_TERMINATE_STEP_LENGTH_BITS,
            direct_kkt_solver: true,
            direct_solve_method: "auto".to_string(),
            static_regularization_enable: true,
            static_regularization_constant: DEFAULT_STATIC_REGULARIZATION_CONSTANT_BITS,
            static_regularization_proportional: DEFAULT_STATIC_REGULARIZATION_PROPORTIONAL_BITS,
            dynamic_regularization_enable: true,
            dynamic_regularization_eps: DEFAULT_DYNAMIC_REGULARIZATION_EPS_BITS,
            dynamic_regularization_delta: DEFAULT_DYNAMIC_REGULARIZATION_DELTA_BITS,
            iterative_refinement_enable: true,
            iterative_refinement_reltol: DEFAULT_ITERATIVE_REFINEMENT_RELTOL_BITS,
            iterative_refinement_abstol: DEFAULT_ITERATIVE_REFINEMENT_ABSTOL_BITS,
            iterative_refinement_max_iter: 10,
            iterative_refinement_stop_ratio: DEFAULT_ITERATIVE_REFINEMENT_STOP_RATIO_BITS,
            presolve_enable: true,
            chordal_decomposition_enable: true,
            chordal_decomposition_merge_method: "clique_graph".to_string(),
            chordal_decomposition_compact: true,
            chordal_decomposition_complete_dual: true,
        };
        proof {
            assert(r@ =~= default_model());
        }
        r
    }
}

/// The effect of one well-typed value on one field; a value of the wrong
/// type leaves the record unchanged.
pub open spec fn apply_field(s: SettingsModel, f: SettingsField, v: ScalarModel) -> SettingsModel {
    match f {
        SettingsField::MaxIter => match v {
            ScalarModel::Int(i) => SettingsModel { max_iter: wrap_u32(i), ..s },
            _ => s,
        },
        SettingsField::TimeLimit => match v {
            ScalarModel::Real(b) => SettingsModel { time_limit: b, ..s },
            _ => s,
        },
        SettingsField::Verbose => match v {
            ScalarModel::Bool(b) => SettingsModel { verbose: b, ..s },
            _ => s,
        },
        SettingsField::MaxStepFraction => match v {
            ScalarModel::Real(b) => SettingsModel { max_step_fraction: b, ..s },
            _ => s,
        },
        SettingsField::TolGapAbs => match v {
            ScalarModel::Real(b) => SettingsModel { tol_gap_abs: b, ..s },
            _ => s,
        },
        SettingsField::TolGapRel => match v {
            ScalarModel::Real(b) => SettingsModel { tol_gap_rel: b, ..s },
            _ => s,
        },
        SettingsField::TolFeas => match v {
            ScalarModel::Real(b) => SettingsModel { tol_feas: b, ..s },
            _ => s,
        },
        SettingsField::TolInfeasAbs => match v {
            ScalarModel::Real(b) => SettingsModel { tol_infeas_abs: b, ..s },
            _ => s,
        },
        SettingsField::TolInfeasRel => match v {
            ScalarModel::Real(b) => SettingsModel { tol_infeas_rel: b, ..s },
            _ => s,
        },
        SettingsField::TolKtratio => match v {
            ScalarModel::Real(b) => SettingsModel { tol_ktratio: b, ..s },
            _ => s,
        },
        SettingsField::ReducedTolGapAbs => match v {
            ScalarModel::Real(b) => SettingsModel { reduced_tol_gap_abs: b, ..s },
            _ => s,
        },
        SettingsField::ReducedTolGapRel => match v {
            ScalarModel::Real(b) => SettingsModel { reduced_tol_gap_rel: b, ..s },
            _ => s,
        },
        SettingsField::ReducedTolFeas => match v {
            ScalarModel::Real(b) => SettingsModel { reduced_tol_feas: b, ..s },
            _ => s,
        },
        SettingsField::ReducedTolInfeasAbs => match v {
            ScalarModel::Real(b) => SettingsModel { reduced_tol_infeas_abs: b, ..s },
            _ => s,
        },
        SettingsField::ReducedTolInfeasRel => match v {
            ScalarModel::Real(b) => SettingsModel { reduced_tol_infeas_rel: b, ..s },
            _ => s,
        },
        SettingsField::ReducedTolKtratio => match v {
            ScalarModel::Real(b) => SettingsModel { reduced_tol_ktratio: b, ..s },
            _ => s,
        },
        SettingsField::EquilibrateEnable => match v {
            ScalarModel::Bool(b) => SettingsModel { equilibrate_enable: b, ..s },
            _ => s,
        },
        SettingsField::EquilibrateMaxIter => match v {
            ScalarModel::Int(i) => SettingsModel { equilibrate_max_iter: wrap_u32(i), ..s },
            _ => s,
        },
        SettingsField::EquilibrateMinScaling => match v {
            ScalarModel::Real(b) => SettingsModel { equilibrate_min_scaling: b, ..s },
            _ => s,
        },
        SettingsField::EquilibrateMaxScaling => match v {
            ScalarModel::Real(b) => SettingsModel { equilibrate_max_scaling: b, ..s },
            _ => s,
        },
        SettingsField::LinesearchBacktrackStep => match v {
            ScalarModel::Real(b) => SettingsModel { linesearch_backtrack_step: b, ..s },
            _ => s,
        },
        SettingsField::MinSwitchStepLength => match v {
            ScalarModel::Real(b) => SettingsModel { min_switch_step_length: b, ..s },
            _ => s,
        },
        SettingsField::MinTerminateStepLength => match v {
            ScalarModel::Real(b) => SettingsModel { min_terminate_step_length: b, ..s },
            _ => s,
        },
        SettingsField::DirectKktSolver => match v {
            ScalarModel::Bool(b) => SettingsModel { direct_kkt_solver: b, ..s },
            _ => s,
        },
        SettingsField::DirectSolveMethod => match v {
            ScalarModel::Text(t) => SettingsModel { direct_solve_method: t, ..s },
            _ => s,
        },
        SettingsField::StaticRegularizationEnable => match v {
            ScalarModel::Bool(b) => SettingsModel { static_regularization_enable: b, ..s },
            _ => s,
        },
        SettingsField::StaticRegularizationConstant => match v {
            ScalarModel::Real(b) => SettingsModel { static_regularization_constant: b, ..s },
            _ => s,
        },
        SettingsField::StaticRegularizationProportional => match v {
            ScalarModel::Real(b) => SettingsModel { static_regularization_proportional: b, ..s },
            _ => s,
        },
        SettingsField::DynamicRegularizationEnable => match v {
            ScalarModel::Bool(b) => SettingsModel { dynamic_regularization_enable: b, ..s },
            _ => s,
        },
        SettingsField::DynamicRegularizationEps => match v {
            ScalarModel::Real(b) => SettingsModel { dynamic_regularization_eps: b, ..s },
            _ => s,
        },
        SettingsField::DynamicRegularizationDelta => match v {
            ScalarModel::Real(b) => SettingsModel { dynamic_regularization_delta: b, ..s },
            _ => s,
        },
        SettingsField::IterativeRefinementEnable => match v {
            ScalarModel::Bool(b) => SettingsModel { iterative_refinement_enable: b, ..s },
            _ => s,
        },
        SettingsField::IterativeRefinementReltol => match v {
            ScalarModel::Real(b) => SettingsModel { iterative_refinement_reltol: b, ..s },
            _ => s,
        },
        SettingsField::IterativeRefinementAbstol => match v {
            ScalarModel::Real(b) => SettingsModel { iterative_refinement_abstol: b, ..s },
            _ => s,
        },
        SettingsField::IterativeRefinementMaxIter => match v {
            ScalarModel::Int(i) => SettingsModel { iterative_refinement_max_iter: wrap_u32(i), ..s },
            _ => s,
        },
        SettingsField::IterativeRefinementStopRatio => match v {
            ScalarModel::Real(b) => SettingsModel { iterative_refinement_stop_ratio: b, ..s },
            _ => s,
        },
        SettingsField::PresolveEnable => match v {
            ScalarModel::Bool(b) => SettingsModel { presolve_enable: b, ..s },
            _ => s,
        },
        SettingsField::ChordalDecompositionEnable => match v {
            ScalarModel::Bool(b) => SettingsModel { chordal_decomposition_enable: b, ..s },
            _ => s,
        },
        SettingsField::ChordalDecompositionMergeMethod => match v {
            ScalarModel::Text(t) => SettingsModel { chordal_decomposition_merge_method: t, ..s },
            _ => s,
        },
        SettingsField::ChordalDecompositionCompact => match v {
            ScalarModel::Bool(b) => SettingsModel { chordal_decomposition_compact: b, ..s },
            _ => s,
        },
        SettingsField::ChordalDecompositionCompleteDual => match v {
            ScalarModel::Bool(b) => SettingsModel { chordal_decomposition_complete_dual: b, ..s },
            _ => s,
        },
    }
}

/// The effect of one (name, value) override pair: an unrecognized name, or
/// a value of the wrong type, changes nothing.
pub open spec fn apply_one(s: SettingsModel, name: Seq<char>, v: ScalarModel) -> SettingsModel {
    match field_of(name) {
        Some(f) => apply_field(s, f, v),
        None => s,
    }
}

/// The overlay of a whole override list, first entry first: a total fold
/// of `apply_one` over the list.
pub open spec fn overlaid(s: SettingsModel, o: Seq<(Seq<char>, ScalarModel)>) -> SettingsModel
    decreases o.len(),
{
    if o.len() == 0 {
        s
    } else {
        overlaid(apply_one(s, o[0].0, o[0].1), o.drop_first())
    }
}

/// Whether two records hold the same value in the given field.
pub open spec fn field_eq(s: SettingsModel, t: SettingsModel, f: SettingsField) -> bool {
    match f {
        SettingsField::MaxIter => s.max_iter == t.max_iter,
        SettingsField::TimeLimit => s.time_limit == t.time_limit,
        SettingsField::Verbose => s.verbose == t.verbose,
        SettingsField::MaxStepFraction => s.max_step_fraction == t.max_step_fraction,
        SettingsField::TolGapAbs => s.tol_gap_abs == t.tol_gap_abs,
        SettingsField::TolGapRel => s.tol_gap_rel == t.tol_gap_rel,
        SettingsField::TolFeas => s.tol_feas == t.tol_feas,
        SettingsField::TolInfeasAbs => s.tol_infeas_abs == t.tol_infeas_abs,
        SettingsField::TolInfeasRel => s.tol_infeas_rel == t.tol_infeas_rel,
        SettingsField::TolKtratio => s.tol_ktratio == t.tol_ktratio,
        SettingsField::ReducedTolGapAbs => s.reduced_tol_gap_abs == t.reduced_tol_gap_abs,
        SettingsField::ReducedTolGapRel => s.reduced_tol_gap_rel == t.reduced_tol_gap_rel,
        SettingsField::ReducedTolFeas => s.reduced_tol_feas == t.reduced_tol_feas,
        SettingsField::ReducedTolInfeasAbs => s.reduced_tol_infeas_abs == t.reduced_tol_infeas_abs,
        SettingsField::ReducedTolInfeasRel => s.reduced_tol_infeas_rel == t.reduced_tol_infeas_rel,
        SettingsField::ReducedTolKtratio => s.reduced_tol_ktratio == t.reduced_tol_ktratio,
        SettingsField::EquilibrateEnable => s.equilibrate_enable == t.equilibrate_enable,
        SettingsField::EquilibrateMaxIter => s.equilibrate_max_iter == t.equilibrate_max_iter,
        SettingsField::EquilibrateMinScaling => s.equilibrate_min_scaling
            == t.equilibrate_min_scaling,
        SettingsField::EquilibrateMaxScaling => s.equilibrate_max_scaling
            == t.equilibrate_max_scaling,
        SettingsField::LinesearchBacktrackStep => s.linesearch_backtrack_step
            == t.linesearch_backtrack_step,
        SettingsField::MinSwitchStepLength => s.min_switch_step_length
            == t.min_switch_step_length,
        SettingsField::MinTerminateStepLength => s.min_terminate_step_length
            == t.min_terminate_step_length,
        SettingsField::DirectKktSolver => s.direct_kkt_solver == t.direct_kkt_solver,
        SettingsField::DirectSolveMethod => s.direct_solve_method == t.direct_solve_method,
        SettingsField::StaticRegularizationEnable => s.static_regularization_enable
            == t.static_regularization_enable,
        SettingsField::StaticRegularizationConstant => s.static_regularization_constant
            == t.static_regularization_constant,
        SettingsField::StaticRegularizationProportional => s.static_regularization_proportional
            == t.static_regularization_proportional,
        SettingsField::DynamicRegularizationEnable => s.dynamic_regularization_enable
            == t.dynamic_regularization_enable,
        SettingsField::DynamicRegularizationEps => s.dynamic_regularization_eps
            == t.dynamic_regularization_eps,
        SettingsField::DynamicRegularizationDelta => s.dynamic_regularization_delta
            == t.dynamic_regularization_delta,
        SettingsField::IterativeRefinementEnable => s.iterative_refinement_enable
            == t.iterative_refinement_enable,
        SettingsField::IterativeRefinementReltol => s.iterative_refinement_reltol
            == t.iterative_refinement_reltol,
        SettingsField::IterativeRefinementAbstol => s.iterative_refinement_abstol
            == t.iterative_refinement_abstol,
        SettingsField::IterativeRefinementMaxIter => s.iterative_refinement_max_iter
            == t.iterative_refinement_max_iter,
        SettingsField::IterativeRefinementStopRatio => s.iterative_refinement_stop_ratio
            == t.iterative_refinement_stop_ratio,
        SettingsField::PresolveEnable => s.presolve_enable == t.presolve_enable,
        SettingsField::ChordalDecompositionEnable => s.chordal_decomposition_enable
            == t.chordal_decomposition_enable,
        SettingsField::ChordalDecompositionMergeMethod => s.chordal_decomposition_merge_method
            == t.chordal_decomposition_merge_method,
        SettingsField::ChordalDecompositionCompact => s.chordal_decomposition_compact
            == t.chordal_decomposition_compact,
        SettingsField::ChordalDecompositionCompleteDual => s.chordal_decomposition_complete_dual
            == t.chordal_decomposition_complete_dual,
    }
}

/// Whether one override pair effectively writes the given field: its name
/// addresses the field and its value has the declared type.
pub open spec fn pair_writes(p: (Seq<char>, ScalarModel), f: SettingsField) -> bool {
    field_of(p.0) == Some(f) && type_ok(f, p.1)
}

/// Whether any pair of the list effectively writes the given field.
pub open spec fn list_writes(o: Seq<(Seq<char>, ScalarModel)>, f: SettingsField) -> bool
    decreases o.len(),
{
    o.len() != 0 && (pair_writes(o[0], f) || list_writes(o.drop_first(), f))
}

/// Whether two records agree on every field that the list never writes.
pub open spec fn agree_off_list(
    s: SettingsModel,
    t: SettingsModel,
    o: Seq<(Seq<char>, ScalarModel)>,
) -> bool {
    forall|f: SettingsField| !list_writes(o, f) ==> field_eq(s, t, f)
}

proof fn lemma_apply_field_mismatch(s: SettingsModel, f: SettingsField, v: ScalarModel)
    requires
        !type_ok(f, v),
    ensures
        apply_field(s, f, v) == s,
{
}

#[verifier::rlimit(100)]
#[verifier::spinoff_prover]
proof fn lemma_apply_field_other(
    s: SettingsModel,
    g: SettingsField,
    v: ScalarModel,
    f: SettingsField,
)
    requires
        f != g,
    ensures
        field_eq(apply_field(s, g, v), s, f),
{
}

proof fn lemma_apply_field_same(
    s: SettingsModel,
    t: SettingsModel,
    f: SettingsField,
    v: ScalarModel,
)
    requires
        type_ok(f, v),
    ensures
        field_eq(apply_field(s, f, v), apply_field(t, f, v), f),
{
}

proof fn lemma_fields_determine(s: SettingsModel, t: SettingsModel)
    requires
        forall|f: SettingsField| field_eq(s, t, f),
    ensures
        s == t,
{
    assert(field_eq(s, t, SettingsField::MaxIter));
    assert(field_eq(s, t, SettingsField::TimeLimit));
    assert(field_eq(s, t, SettingsField::Verbose));
    assert(field_eq(s, t, SettingsField::MaxStepFraction));
    assert(field_eq(s, t, SettingsField::TolGapAbs));
    assert(field_eq(s, t, SettingsField::TolGapRel));
    assert(field_eq(s, t, SettingsField::TolFeas));
    assert(field_eq(s, t, SettingsField::TolInfeasAbs));
    assert(field_eq(s, t, SettingsField::TolInfeasRel));
    assert(field_eq(s, t, SettingsField::TolKtratio));
    assert(field_eq(s, t, SettingsField::ReducedTolGapAbs));
    assert(field_eq(s, t, SettingsField::ReducedTolGapRel));
    assert(field_eq(s, t, SettingsField::ReducedTolFeas));
    assert(field_eq(s, t, SettingsField::ReducedTolInfeasAbs));
    assert(field_eq(s, t, SettingsField::ReducedTolInfeasRel));
    assert(field_eq(s, t, SettingsField::ReducedTolKtratio));
    assert(field_eq(s, t, SettingsField::EquilibrateEnable));
    assert(field_eq(s, t, SettingsField::EquilibrateMaxIter));
    assert(field_eq(s, t, SettingsField::EquilibrateMinScaling));
    assert(field_eq(s, t, SettingsField::EquilibrateMaxScaling));
    assert(field_eq(s, t, SettingsField::LinesearchBacktrackStep));
    assert(field_eq(s, t, SettingsField::MinSwitchStepLength));
    assert(field_eq(s, t, SettingsField::MinTerminateStepLength));
    assert(field_eq(s, t, SettingsField::DirectKktSolver));
    assert(field_eq(s, t, SettingsField::DirectSolveMethod));
    assert(field_eq(s, t, SettingsField::StaticRegularizationEnable));
    assert(field_eq(s, t, SettingsField::StaticRegularizationConstant));
    assert(field_eq(s, t, SettingsField::StaticRegularizationProportional));
    assert(field_eq(s, t, SettingsField::DynamicRegularizationEnable));
    assert(field_eq(s, t, SettingsField::DynamicRegularizationEps));
    assert(field_eq(s, t, SettingsField::DynamicRegularizationDelta));
    assert(field_eq(s, t, SettingsField::IterativeRefinementEnable));
    assert(field_eq(s, t, SettingsField::IterativeRefinementReltol));
    assert(field_eq(s, t, SettingsField::IterativeRefinementAbstol));
    assert(field_eq(s, t, SettingsField::IterativeRefinementMaxIter));
    assert(field_eq(s, t, SettingsField::IterativeRefinementStopRatio));
    assert(field_eq(s, t, SettingsField::PresolveEnable));
    assert(field_eq(s, t, SettingsField::ChordalDecompositionEnable));
    assert(field_eq(s, t, SettingsField::ChordalDecompositionMergeMethod));
    assert(field_eq(s, t, SettingsField::ChordalDecompositionCompact));
    assert(field_eq(s, t, SettingsField::ChordalDecompositionCompleteDual));
    assert(s =~= t);
}

#[verifier::rlimit(100)]
#[verifier::spinoff_prover]
proof fn lemma_overlaid_agree(
    s: SettingsModel,
    t: SettingsModel,
    o: Seq<(Seq<char>, ScalarModel)>,
)
    requires
        agree_off_list(s, t, o),
    ensures
        overlaid(s, o) == overlaid(t, o),
    decreases o.len(),
{
    if o.len() == 0 {
        assert forall|f: SettingsField| field_eq(s, t, f) by {
            assert(!list_writes(o, f));
        }
        lemma_fields_determine(s, t);
    } else {
        let p = o[0];
        let rest = o.drop_first();
        let s1 = apply_one(s, p.0, p.1);
        let t1 = apply_one(t, p.0, p.1);
        assert forall|f: SettingsField| !list_writes(rest, f) implies field_eq(s1, t1, f) by {
            match field_of(p.0) {
                Option::None => {
                    assert(!list_writes(o, f));
                    assert(field_eq(s, t, f));
                },
                Option::Some(g) => {
                    if !type_ok(g, p.1) {
                        lemma_apply_field_mismatch(s, g, p.1);
                        lemma_apply_field_mismatch(t, g, p.1);
                        assert(!pair_writes(p, f));
                        assert(!list_writes(o, f));
                        assert(field_eq(s, t, f));
                    } else if g == f {
                        lemma_apply_field_same(s, t, f, p.1);
                    } else {
                        lemma_apply_field_other(s, g, p.1, f);
                        lemma_apply_field_other(t, g, p.1, f);
                        assert(!pair_writes(p, f));
                        assert(!list_writes(o, f));
                        assert(field_eq(s, t, f));
                    }
                },
            }
        }
        lemma_overlaid_agree(s1, t1, rest);
    }
}

#[verifier::rlimit(100)]
#[verifier::spinoff_prover]
proof fn lemma_overlaid_untouched(s: SettingsModel, o: Seq<(Seq<char>, ScalarModel)>)
    ensures
        agree_off_list(s, overlaid(s, o), o),
    decreases o.len(),
{
    if o.len() == 0 {
        assert forall|f: SettingsField| !list_writes(o, f) implies field_eq(
            s,
            overlaid(s, o),
            f,
        ) by {}
    } else {
        let p = o[0];
        let rest = o.drop_first();
        let s1 = apply_one(s, p.0, p.1);
        lemma_overlaid_untouched(s1, rest);
        assert forall|f: SettingsField| !list_writes(o, f) implies field_eq(
            s,
            overlaid(s, o),
            f,
        ) by {
            assert(!pair_writes(p, f));
            assert(!list_writes(rest, f));
            match field_of(p.0) {
                Option::None => {},
                Option::Some(g) => {
                    if !type_ok(g, p.1) {
                        lemma_apply_field_mismatch(s, g, p.1);
                    } else {
                        lemma_apply_field_other(s, g, p.1, f);
                    }
                },
            }
            assert(field_eq(s, s1, f));
            assert(field_eq(s1, overlaid(s1, rest), f));
            assert(overlaid(s, o) == overlaid(s1, rest));
        }
    }
}

/// Law: overlaying an override list a second time, on top of its own
/// output, changes nothing — the overlay is idempotent.
pub proof fn lemma_overlay_idempotent(s: SettingsModel, o: Seq<(Seq<char>, ScalarModel)>)
    ensures
        overlaid(overlaid(s, o), o) == overlaid(s, o),
{
    lemma_overlaid_untouched(s, o);
    lemma_overlaid_agree(s, overlaid(s, o), o);
}

proof fn lemma_overlaid_append(
    s: SettingsModel,
    a: Seq<(Seq<char>, ScalarModel)>,
    b: Seq<(Seq<char>, ScalarModel)>,
)
    ensures
        overlaid(s, a + b) == overlaid(overlaid(s, a), b),
    decreases a.len(),
{
    if a.len() == 0 {
        assert(a + b =~= b);
    } else {
        assert((a + b)[0] == a[0]);
        assert((a + b).drop_first() =~= a.drop_first() + b);
        lemma_overlaid_append(apply_one(s, a[0].0, a[0].1), a.drop_first(), b);
    }
}

/// Law: an override pair whose name is recognized but whose value has the
/// wrong runtime type leaves the overlay output exactly as if the pair
/// were omitted from the list.
pub proof fn lemma_mismatched_override_omitted(
    s: SettingsModel,
    o1: Seq<(Seq<char>, ScalarModel)>,
    o2: Seq<(Seq<char>, ScalarModel)>,
    name: Seq<char>,
    v: ScalarModel,
)
    requires
        recognized(name),
        !type_matches(name, v),
    ensures
        overlaid(s, o1 + seq![(name, v)] + o2) == overlaid(s, o1 + o2),
{
    let mid = seq![(name, v)];
    lemma_overlaid_append(s, o1 + mid, o2);
    lemma_overlaid_append(s, o1, mid);
    lemma_overlaid_append(s, o1, o2);
    let s1 = overlaid(s, o1);
    reveal_with_fuel(overlaid, 3);
    assert(mid.drop_first() =~= Seq::<(Seq<char>, ScalarModel)>::empty());
    match field_of(name) {
        Option::Some(g) => {
            lemma_apply_field_mismatch(s1, g, v);
        },
        Option::None => {
            assert(false);
        },
    }
    assert(overlaid(s1, mid) == s1);
}

proof fn lemma_overlaid_snoc(
    s: SettingsModel,
    o: Seq<(Seq<char>, ScalarModel)>,
    p: (Seq<char>, ScalarModel),
)
    ensures
        overlaid(s, o.push(p)) == apply_one(overlaid(s, o), p.0, p.1),
    decreases o.len(),
{
    if o.len() == 0 {
        reveal_with_fuel(overlaid, 3);
        assert(o.push(p)[0] == p);
        assert(o.push(p).drop_first() =~= Seq::<(Seq<char>, ScalarModel)>::empty());
    } else {
        assert(o.push(p)[0] == o[0]);
        assert(o.push(p).drop_first() =~= o.drop_first().push(p));
        lemma_overlaid_snoc(apply_one(s, o[0].0, o[0].1), o.drop_first(), p);
    }
}

/// Looks a name up in the fixed table of recognized override names.
#[verifier::rlimit(100)]
#[verifier::spinoff_prover]
pub fn lookup_field(name: &str) -> (r: Option<SettingsField>)
    ensures
        r == field_of(name@),
{
    if str_eq(name, "max_iter") {
        Some(SettingsField::MaxIter)
    } else if str_eq(name, "time_limit") {
        Some(SettingsField::TimeLimit)
    } else if str_eq(name, "verbose") {
        Some(SettingsField::Verbose)
    } else if str_eq(name, "max_step_fraction") {
        Some(SettingsField::MaxStepFraction)
    } else if str_eq(name, "tol_gap_abs") {
        Some(SettingsField::TolGapAbs)
    } else if str_eq(name, "tol_gap_rel") {
        Some(SettingsField::TolGapRel)
    } else if str_eq(name, "tol_feas") {
        Some(SettingsField::TolFeas)
    } else if str_eq(name, "tol_infeas_abs") {
        Some(SettingsField::TolInfeasAbs)
    } else if str_eq(name, "tol_infeas_rel") {
        Some(SettingsField::TolInfeasRel)
    } else if str_eq(name, "tol_ktratio") {
        Some(SettingsField::TolKtratio)
    } else if str_eq(name, "reduced_tol_gap_abs") {
        Some(SettingsField::ReducedTolGapAbs)
    } else if str_eq(name, "reduced_tol_gap_rel") {
        Some(SettingsField::ReducedTolGapRel)
    } else if str_eq(name, "reduced_tol_feas") {
        Some(SettingsField::ReducedTolFeas)
    } else if str_eq(name, "reduced_tol_infeas_abs") {
        Some(SettingsField::ReducedTolInfeasAbs)
    } else if str_eq(name, "reduced_tol_infeas_rel") {
        Some(SettingsField::ReducedTolInfeasRel)
    } else if str_eq(name, "reduced_tol_ktratio") {
        Some(SettingsField::ReducedTolKtratio)
    } else if str_eq(name, "equilibrate_enable") {
        Some(SettingsField::EquilibrateEnable)
    } else if str_eq(name, "equilibrate_max_iter") {
        Some(SettingsField::EquilibrateMaxIter)
    } else if str_eq(name, "equilibrate_min_scaling") {
        Some(SettingsField::EquilibrateMinScaling)
    } else if str_eq(name, "equilibrate_max_scaling") {
        Some(SettingsField::EquilibrateMaxScaling)
    } else if str_eq(name, "linesearch_backtrack_step") {
        Some(SettingsField::LinesearchBacktrackStep)
    } else if str_eq(name, "min_switch_step_length") {
        Some(SettingsField::MinSwitchStepLength)
    } else if str_eq(name, "min_terminate_step_length") {
        Some(SettingsField::MinTerminateStepLength)
    } else if str_eq(name, "direct_kkt_solver") {
        Some(SettingsField::DirectKktSolver)
    } else if str_eq(name, "direct_solve_method") {
        Some(SettingsField::DirectSolveMethod)
    } else if str_eq(name, "static_regularization_enable") {
        Some(SettingsField::StaticRegularizationEnable)
    } else if str_eq(name, "static_regularization_constant") {
        Some(SettingsField::StaticRegularizationConstant)
    } else if str_eq(name, "static_regularization_proportional") {
        Some(SettingsField::StaticRegularizationProportional)
    } else if str_eq(name, "dynamic_regularization_enable") {
        Some(SettingsField::DynamicRegularizationEnable)
    } else if str_eq(name, "dynamic_regularization_eps") {
        Some(SettingsField::DynamicRegularizationEps)
    } else if str_eq(name, "dynamic_regularization_delta") {
        Some(SettingsField::DynamicRegularizationDelta)
    } else if str_eq(name, "iterative_refinement_enable") {
        Some(SettingsField::IterativeRefinementEnable)
    } else if str_eq(name, "iterative_refinement_reltol") {
        Some(SettingsField::IterativeRefinementReltol)
    } else if str_eq(name, "iterative_refinement_abstol") {
        Some(SettingsField::IterativeRefinementAbstol)
    } else if str_eq(name, "iterative_refinement_max_iter") {
        Some(SettingsField::IterativeRefinementMaxIter)
    } else if str_eq(name, "iterative_refinement_stop_ratio") {
        Some(SettingsField::IterativeRefinementStopRatio)
    } else if str_eq(name, "presolve_enable") {
        Some(SettingsField::PresolveEnable)
    } else if str_eq(name, "chordal_decomposition_enable") {
        Some(SettingsField::ChordalDecompositionEnable)
    } else if str_eq(name, "chordal_decomposition_merge_method") {
        Some(SettingsField::ChordalDecompositionMergeMethod)
    } else if str_eq(name, "chordal_decomposition_compact") {
        Some(SettingsField::ChordalDecompositionCompact)
    } else if str_eq(name, "chordal_decomposition_complete_dual") {
        Some(SettingsField::ChordalDecompositionCompleteDual)
    } else {
        None
    }
}

/// Writes one well-typed value to one field of the record; a value of
/// the wrong runtime type leaves the record unchanged.
#[verifier::rlimit(100)]
#[verifier::spinoff_prover]
pub fn write_field(s: SolverSettings, f: SettingsField, value: &TaggedValue) -> (r: SolverSettings)
    ensures
        r@ == apply_field(s@, f, value@),
{
    let mut out = s;
    match f {
        SettingsField::MaxIter => match value {
            TaggedValue::Int(i) => out.max_iter = wrap_to_u32(*i),
            _ => {},
        },
        SettingsField::TimeLimit => match value {
            TaggedValue::Real(b) => out.time_limit = *b,
            _ => {},
        },
        SettingsField::Verbose => match value {
            TaggedValue::Bool(b) => out.verbose = *b,
            _ => {},
        },
        SettingsField::MaxStepFraction => match value {
            TaggedValue::Real(b) => out.max_step_fraction = *b,
            _ => {},
        },
        SettingsField::TolGapAbs => match value {
            TaggedValue::Real(b) => out.tol_gap_abs = *b,
            _ => {},
        },
        SettingsField::TolGapRel => match value {
            TaggedValue::Real(b) => out.tol_gap_rel = *b,
            _ => {},
        },
        SettingsField::TolFeas => match value {
            TaggedValue::Real(b) => out.tol_feas = *b,
            _ => {},
        },
        SettingsField::TolInfeasAbs => match value {
            TaggedValue::Real(b) => out.tol_infeas_abs = *b,
            _ => {},
        },
        SettingsField::TolInfeasRel => match value {
            TaggedValue::Real(b) => out.tol_infeas_rel = *b,
            _ => {},
        },
        SettingsField::TolKtratio => match value {
            TaggedValue::Real(b) => out.tol_ktratio = *b,
            _ => {},
        },
        SettingsField::ReducedTolGapAbs => match value {
            TaggedValue::Real(b) => out.reduced_tol_gap_abs = *b,
            _ => {},
        },
        SettingsField::ReducedTolGapRel => match value {
            TaggedValue::Real(b) => out.reduced_tol_gap_rel = *b,
            _ => {},
        },
        SettingsField::ReducedTolFeas => match value {
            TaggedValue::Real(b) => out.reduced_tol_feas = *b,
            _ => {},
        },
        SettingsField::ReducedTolInfeasAbs => match value {
            TaggedValue::Real(b) => out.reduced_tol_infeas_abs = *b,
            _ => {},
        },
        SettingsField::ReducedTolInfeasRel => match value {
            TaggedValue::Real(b) => out.reduced_tol_infeas_rel = *b,
            _ => {},
        },
        SettingsField::ReducedTolKtratio => match value {
            TaggedValue::Real(b) => out.reduced_tol_ktratio = *b,
            _ => {},
        },
        SettingsField::EquilibrateEnable => match value {
            TaggedValue::Bool(b) => out.equilibrate_enable = *b,
            _ => {},
        },
        SettingsField::EquilibrateMaxIter => match value {
            TaggedValue::Int(i) => out.equilibrate_max_iter = wrap_to_u32(*i),
            _ => {},
        },
        SettingsField::EquilibrateMinScaling => match value {
            TaggedValue::Real(b) => out.equilibrate_min_scaling = *b,
            _ => {},
        },
        SettingsField::EquilibrateMaxScaling => match value {
            TaggedValue::Real(b) => out.equilibrate_max_scaling = *b,
            _ => {},
        },
        SettingsField::LinesearchBacktrackStep => match value {
            TaggedValue::Real(b) => out.linesearch_backtrack_step = *b,
            _ => {},
        },
        SettingsField::MinSwitchStepLength => match value {
            TaggedValue::Real(b) => out.min_switch_step_length = *b,
            _ => {},
        },
        SettingsField::MinTerminateStepLength => match value {
            TaggedValue::Real(b) => out.min_terminate_step_length = *b,
            _ => {},
        },
        SettingsField::DirectKktSolver => match value {
            TaggedValue::Bool(b) => out.direct_kkt_solver = *b,
            _ => {},
        },
        SettingsField::DirectSolveMethod => match value {
            TaggedValue::Text(t) => out.direct_solve_method = t.clone(),
            _ => {},
        },
        SettingsField::StaticRegularizationEnable => match value {
            TaggedValue::Bool(b) => out.static_regularization_enable = *b,
            _ => {},
        },
        SettingsField::StaticRegularizationConstant => match value {
            TaggedValue::Real(b) => out.static_regularization_constant = *b,
            _ => {},
        },
        SettingsField::StaticRegularizationProportional => match value {
            TaggedValue::Real(b) => out.static_regularization_proportional = *b,
            _ => {},
        },
        SettingsField::DynamicRegularizationEnable => match value {
            TaggedValue::Bool(b) => out.dynamic_regularization_enable = *b,
            _ => {},
        },
        SettingsField::DynamicRegularizationEps => match value {
            TaggedValue::Real(b) => out.dynamic_regularization_eps = *b,
            _ => {},
        },
        SettingsField::DynamicRegularizationDelta => match value {
            TaggedValue::Real(b) => out.dynamic_regularization_delta = *b,
            _ => {},
        },
        SettingsField::IterativeRefinementEnable => match value {
            TaggedValue::Bool(b) => out.iterative_refinement_enable = *b,
            _ => {},
        },
        SettingsField::IterativeRefinementReltol => match value {
            TaggedValue::Real(b) => out.iterative_refinement_reltol = *b,
            _ => {},
        },
        SettingsField::IterativeRefinementAbstol => match value {
            TaggedValue::Real(b) => out.iterative_refinement_abstol = *b,
            _ => {},
        },
        SettingsField::IterativeRefinementMaxIter => match value {
            TaggedValue::Int(i) => out.iterative_refinement_max_iter = wrap_to_u32(*i),
            _ => {},
        },
        SettingsField::IterativeRefinementStopRatio => match value {
            TaggedValue::Real(b) => out.iterative_refinement_stop_ratio = *b,
            _ => {},
        },
        SettingsField::PresolveEnable => match value {
            TaggedValue::Bool(b) => out.presolve_enable = *b,
            _ => {},
        },
        SettingsField::ChordalDecompositionEnable => match value {
            TaggedValue::Bool(b) => out.chordal_decomposition_enable = *b,
            _ => {},
        },
        SettingsField::ChordalDecompositionMergeMethod => match value {
            TaggedValue::Text(t) => out.chordal_decomposition_merge_method = t.clone(),
            _ => {},
        },
        SettingsField::ChordalDecompositionCompact => match value {
            TaggedValue::Bool(b) => out.chordal_decomposition_compact = *b,
            _ => {},
        },
        SettingsField::ChordalDecompositionCompleteDual => match value {
            TaggedValue::Bool(b) => out.chordal_decomposition_complete_dual = *b,
            _ => {},
        },
    }
    proof {
        assert(out@ =~= apply_field(s@, f, value@));
    }
    out
}

/// Applies one (name, value) override pair to the record: replaces the
/// addressed field when the name is recognized and the value is of the
/// declared type, and changes nothing otherwise.
pub fn apply_override(s: SolverSettings, name: &String, value: &TaggedValue) -> (r: SolverSettings)
    ensures
        r@ == apply_one(s@, name@, value@),
{
    match lookup_field(name.as_str()) {
        Some(f) => write_field(s, f, value),
        None => s,
    }
}

/// Overlays an ordered override list onto a complete base record: a total
/// fold of `apply_override`, first entry first.  Unknown names and
/// type-mismatched values are tolerated as normal operation.
pub fn apply_overrides(base: SolverSettings, overrides: &Vec<(String, TaggedValue)>) -> (r:
    SolverSettings)
    ensures
        r@ == overlaid(base@, entries_model(overrides@)),
{
    let ghost om = entries_model(overrides@);
    let mut cur = base;
    let mut i: usize = 0;
    while i < overrides.len()
        invariant
            i <= overrides.len(),
            om == entries_model(overrides@),
            om.len() == overrides@.len(),
            cur@ == overlaid(base@, om.take(i as int)),
        decreases overrides.len() - i,
    {
        proof {
            assert(om[i as int] == (overrides@[i as int].0@, overrides@[i as int].1@));
            assert(om.take(i + 1) =~= om.take(i as int).push(om[i as int]));
            lemma_overlaid_snoc(base@, om.take(i as int), om[i as int]);
        }
        cur = apply_override(cur, &overrides[i].0, &overrides[i].1);
        i = i + 1;
    }
    proof {
        assert(om.take(overrides@.len() as int) =~= om);
    }
    cur
}

/// The settings for one call: the stock defaults with the host's override
/// list overlaid.
pub fn settings_from_overrides(overrides: &Vec<(String, TaggedValue)>) -> (r: SolverSettings)
    ensures
        r@ == overlaid(default_model(), entries_model(overrides@)),
{
    apply_overrides(SolverSettings::default(), overrides)
}

} // verus!
