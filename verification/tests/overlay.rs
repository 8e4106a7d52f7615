use clarabel_bridge::scalar::TaggedValue;
use clarabel_bridge::settings::{apply_overrides, SolverSettings};

fn entry(name: &str, v: TaggedValue) -> (String, TaggedValue) {
    (name.to_string(), v)
}

#[test]
fn recognized_override_replaces_the_field() {
    let overrides = vec![
        entry("max_iter", TaggedValue::Int(50)),
        entry("verbose", TaggedValue::Bool(false)),
        entry("tol_gap_abs", TaggedValue::Real(1e-3f64.to_bits())),
        entry("direct_solve_method", TaggedValue::Text("qdldl".to_string())),
    ];
    let s = apply_overrides(SolverSettings::default(), &overrides);
    assert_eq!(s.max_iter, 50);
    assert!(!s.verbose);
    assert_eq!(s.tol_gap_abs, 1e-3f64.to_bits());
    assert_eq!(s.direct_solve_method, "qdldl");
}

#[test]
fn mismatched_type_keeps_the_default() {
    // the scenario: an integer override lands, a string where a real is
    // declared is ignored
    let overrides = vec![
        entry("max_iter", TaggedValue::Int(50)),
        entry("time_limit", TaggedValue::Text("oops".to_string())),
    ];
    let s = apply_overrides(SolverSettings::default(), &overrides);
    let d = SolverSettings::default();
    assert_eq!(s.max_iter, 50);
    assert_eq!(s.time_limit, d.time_limit);
}

#[test]
fn mismatched_pair_output_equals_pair_omitted() {
    let with_pair = vec![
        entry("tol_feas", TaggedValue::Real(1e-5f64.to_bits())),
        entry("presolve_enable", TaggedValue::Real(1.0f64.to_bits())),
        entry("max_iter", TaggedValue::Int(7)),
    ];
    let without_pair = vec![
        entry("tol_feas", TaggedValue::Real(1e-5f64.to_bits())),
        entry("max_iter", TaggedValue::Int(7)),
    ];
    let a = apply_overrides(SolverSettings::default(), &with_pair);
    let b = apply_overrides(SolverSettings::default(), &without_pair);
    assert_eq!(a, b);
}

#[test]
fn unrecognized_name_changes_nothing() {
    let overrides = vec![entry("no_such_setting", TaggedValue::Int(1))];
    let s = apply_overrides(SolverSettings::default(), &overrides);
    assert_eq!(s, SolverSettings::default());
}

#[test]
fn overlay_twice_equals_overlay_once() {
    let overrides = vec![
        entry("max_iter", TaggedValue::Int(33)),
        entry("equilibrate_enable", TaggedValue::Bool(false)),
        entry("min_switch_step_length", TaggedValue::Real(0.25f64.to_bits())),
        entry("max_iter", TaggedValue::Int(44)),
        entry("mystery", TaggedValue::Bool(true)),
        entry("tol_ktratio", TaggedValue::Text("bad".to_string())),
    ];
    let once = apply_overrides(SolverSettings::default(), &overrides);
    let twice = apply_overrides(once.clone(), &overrides);
    assert_eq!(twice, once);
}

#[test]
fn later_override_of_same_name_wins() {
    let overrides = vec![
        entry("max_iter", TaggedValue::Int(11)),
        entry("max_iter", TaggedValue::Int(22)),
    ];
    let s = apply_overrides(SolverSettings::default(), &overrides);
    assert_eq!(s.max_iter, 22);
}

#[test]
fn negative_integer_override_wraps_like_the_host_conversion() {
    let overrides = vec![entry("max_iter", TaggedValue::Int(-1))];
    let s = apply_overrides(SolverSettings::default(), &overrides);
    assert_eq!(s.max_iter, u32::MAX);
}

#[test]
fn defaults_match_the_solver_defaults() {
    // the library's stock record must agree, bit for bit, with the
    // solver's own defaults
    let d = SolverSettings::default();
    let c = clarabel::solver::DefaultSettings::<f64>::default();
    assert_eq!(d.max_iter, c.max_iter);
    assert_eq!(d.time_limit, c.time_limit.to_bits());
    assert_eq!(d.verbose, c.verbose);
    assert_eq!(d.max_step_fraction, c.max_step_fraction.to_bits());
    assert_eq!(d.tol_gap_abs, c.tol_gap_abs.to_bits());
    assert_eq!(d.tol_gap_rel, c.tol_gap_rel.to_bits());
    assert_eq!(d.tol_feas, c.tol_feas.to_bits());
    assert_eq!(d.tol_infeas_abs, c.tol_infeas_abs.to_bits());
    assert_eq!(d.tol_infeas_rel, c.tol_infeas_rel.to_bits());
    assert_eq!(d.tol_ktratio, c.tol_ktratio.to_bits());
    assert_eq!(d.reduced_tol_gap_abs, c.reduced_tol_gap_abs.to_bits());
    assert_eq!(d.reduced_tol_gap_rel, c.reduced_tol_gap_rel.to_bits());
    assert_eq!(d.reduced_tol_feas, c.reduced_tol_feas.to_bits());
    assert_eq!(d.reduced_tol_infeas_abs, c.reduced_tol_infeas_abs.to_bits());
    assert_eq!(d.reduced_tol_infeas_rel, c.reduced_tol_infeas_rel.to_bits());
    assert_eq!(d.reduced_tol_ktratio, c.reduced_tol_ktratio.to_bits());
    assert_eq!(d.equilibrate_enable, c.equilibrate_enable);
    assert_eq!(d.equilibrate_max_iter, c.equilibrate_max_iter);
    assert_eq!(d.equilibrate_min_scaling, c.equilibrate_min_scaling.to_bits());
    assert_eq!(d.equilibrate_max_scaling, c.equilibrate_max_scaling.to_bits());
    assert_eq!(d.linesearch_backtrack_step, c.linesearch_backtrack_step.to_bits());
    assert_eq!(d.min_switch_step_length, c.min_switch_step_length.to_bits());
    assert_eq!(d.min_terminate_step_length, c.min_terminate_step_length.to_bits());
    assert_eq!(d.direct_kkt_solver, c.direct_kkt_solver);
    assert_eq!(d.direct_solve_method, c.direct_solve_method);
    assert_eq!(d.static_regularization_enable, c.static_regularization_enable);
    assert_eq!(d.static_regularization_constant, c.static_regularization_constant.to_bits());
    assert_eq!(
        d.static_regularization_proportional,
        c.static_regularization_proportional.to_bits()
    );
    assert_eq!(d.dynamic_regularization_enable, c.dynamic_regularization_enable);
    assert_eq!(d.dynamic_regularization_eps, c.dynamic_regularization_eps.to_bits());
    assert_eq!(d.dynamic_regularization_delta, c.dynamic_regularization_delta.to_bits());
    assert_eq!(d.iterative_refinement_enable, c.iterative_refinement_enable);
    assert_eq!(d.iterative_refinement_reltol, c.iterative_refinement_reltol.to_bits());
    assert_eq!(d.iterative_refinement_abstol, c.iterative_refinement_abstol.to_bits());
    assert_eq!(d.iterative_refinement_max_iter, c.iterative_refinement_max_iter);
    assert_eq!(d.iterative_refinement_stop_ratio, c.iterative_refinement_stop_ratio.to_bits());
    assert_eq!(d.presolve_enable, c.presolve_enable);
    // the chordal decomposition fields exist only in solver builds with
    // semidefinite support, so they have no counterpart to compare here
}
