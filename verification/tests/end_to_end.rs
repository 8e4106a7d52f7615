use clarabel::algebra::CscMatrix;
use clarabel::solver::{DefaultSettings, DefaultSolver, IPSolver, SolverStatus, SupportedConeT};
use clarabel_bridge::cones::ConeDescriptor;
use clarabel_bridge::matrix::SparseMatrix;
use clarabel_bridge::outcome::{marshal_result, SolverOutcome};
use clarabel_bridge::problem::prepare_problem;
use clarabel_bridge::scalar::TaggedValue;
use clarabel_bridge::settings::SolverSettings;

fn bits(v: &[f64]) -> Vec<u64> {
    v.iter().map(|x| x.to_bits()).collect()
}

fn reals(v: &[u64]) -> Vec<f64> {
    v.iter().map(|&b| f64::from_bits(b)).collect()
}

fn to_csc(m: &SparseMatrix) -> CscMatrix<f64> {
    CscMatrix::new(m.rows, m.cols, m.col_ptr.clone(), m.row_idx.clone(), reals(&m.values))
}

fn to_cone(c: &ConeDescriptor) -> SupportedConeT<f64> {
    match c {
        ConeDescriptor::Zero(d) => SupportedConeT::ZeroConeT(*d),
        ConeDescriptor::Nonnegative(d) => SupportedConeT::NonnegativeConeT(*d),
        ConeDescriptor::SecondOrder(d) => SupportedConeT::SecondOrderConeT(*d),
        ConeDescriptor::Exponential => SupportedConeT::ExponentialConeT(),
        ConeDescriptor::Power(b) => SupportedConeT::PowerConeT(f64::from_bits(*b)),
        ConeDescriptor::PsdTriangle(_) => {
            panic!("semidefinite cones need a solver build with that support")
        },
    }
}

fn to_solver_settings(s: &SolverSettings) -> DefaultSettings<f64> {
    DefaultSettings {
        max_iter: s.max_iter,
        time_limit: f64::from_bits(s.time_limit),
        verbose: s.verbose,
        max_step_fraction: f64::from_bits(s.max_step_fraction),
        tol_gap_abs: f64::from_bits(s.tol_gap_abs),
        tol_gap_rel: f64::from_bits(s.tol_gap_rel),
        tol_feas: f64::from_bits(s.tol_feas),
        tol_infeas_abs: f64::from_bits(s.tol_infeas_abs),
        tol_infeas_rel: f64::from_bits(s.tol_infeas_rel),
        tol_ktratio: f64::from_bits(s.tol_ktratio),
        reduced_tol_gap_abs: f64::from_bits(s.reduced_tol_gap_abs),
        reduced_tol_gap_rel: f64::from_bits(s.reduced_tol_gap_rel),
        reduced_tol_feas: f64::from_bits(s.reduced_tol_feas),
        reduced_tol_infeas_abs: f64::from_bits(s.reduced_tol_infeas_abs),
        reduced_tol_infeas_rel: f64::from_bits(s.reduced_tol_infeas_rel),
        reduced_tol_ktratio: f64::from_bits(s.reduced_tol_ktratio),
        equilibrate_enable: s.equilibrate_enable,
        equilibrate_max_iter: s.equilibrate_max_iter,
        equilibrate_min_scaling: f64::from_bits(s.equilibrate_min_scaling),
        equilibrate_max_scaling: f64::from_bits(s.equilibrate_max_scaling),
        linesearch_backtrack_step: f64::from_bits(s.linesearch_backtrack_step),
        min_switch_step_length: f64::from_bits(s.min_switch_step_length),
        min_terminate_step_length: f64::from_bits(s.min_terminate_step_length),
        direct_kkt_solver: s.direct_kkt_solver,
        direct_solve_method: s.direct_solve_method.clone(),
        static_regularization_enable: s.static_regularization_enable,
        static_regularization_constant: f64::from_bits(s.static_regularization_constant),
        static_regularization_proportional: f64::from_bits(s.static_regularization_proportional),
        dynamic_regularization_enable: s.dynamic_regularization_enable,
        dynamic_regularization_eps: f64::from_bits(s.dynamic_regularization_eps),
        dynamic_regularization_delta: f64::from_bits(s.dynamic_regularization_delta),
        iterative_refinement_enable: s.iterative_refinement_enable,
        iterative_refinement_reltol: f64::from_bits(s.iterative_refinement_reltol),
        iterative_refinement_abstol: f64::from_bits(s.iterative_refinement_abstol),
        iterative_refinement_max_iter: s.iterative_refinement_max_iter,
        iterative_refinement_stop_ratio: f64::from_bits(s.iterative_refinement_stop_ratio),
        presolve_enable: s.presolve_enable,
        // the chordal decomposition fields of the library's record exist
        // only in solver builds with semidefinite support
        ..DefaultSettings::default()
    }
}

#[test]
fn linear_program_solves_to_expected_optimum() {
    // minimize -x1 - x2  subject to  x <= [1, 1]  (A = identity, slacks
    // in the nonnegative cone): optimum at x = [1, 1], objective -2
    let cone_spec = vec![("l".to_string(), TaggedValue::Int(2))];
    let overrides: Vec<(String, TaggedValue)> = Vec::new();
    let prepared = prepare_problem(
        2,
        2,
        vec![0, 1],
        vec![0, 1, 2],
        bits(&[1.0, 1.0]),
        bits(&[1.0, 1.0]),
        bits(&[-1.0, -1.0]),
        Vec::new(),
        Vec::new(),
        Vec::new(),
        &cone_spec,
        &overrides,
    )
    .unwrap();
    assert!(prepared.warnings.is_empty());
    assert_eq!(prepared.cones, vec![ConeDescriptor::Nonnegative(2)]);
    assert_eq!(prepared.quadratic.values.len(), 0);

    let p = to_csc(&prepared.quadratic);
    let a = to_csc(&prepared.constraint);
    let q = reals(&prepared.linear_cost);
    let b = reals(&prepared.rhs);
    let cones: Vec<SupportedConeT<f64>> = prepared.cones.iter().map(to_cone).collect();
    let settings = to_solver_settings(&prepared.settings);

    let mut solver = DefaultSolver::new(&p, &q, &a, &b, &cones, settings).unwrap();
    solver.solve();

    let outcome = SolverOutcome {
        x: bits(&solver.solution.x),
        z: bits(&solver.solution.z),
        s: bits(&solver.solution.s),
        obj_val: solver.solution.obj_val.to_bits(),
        status: solver.solution.status as i32,
        solve_time: solver.solution.solve_time.to_bits(),
        iterations: solver.solution.iterations,
        r_prim: solver.solution.r_prim.to_bits(),
        r_dual: solver.solution.r_dual.to_bits(),
    };
    let r = marshal_result(outcome);

    assert_eq!(r.status, SolverStatus::Solved as i32 + 1);
    let x = reals(&r.x);
    assert_eq!(x.len(), 2);
    assert!((x[0] - 1.0).abs() < 1e-6);
    assert!((x[1] - 1.0).abs() < 1e-6);
    assert!((f64::from_bits(r.obj_val) + 2.0).abs() < 1e-6);
    assert_eq!(reals(&r.z).len(), 2);
    assert_eq!(reals(&r.s).len(), 2);
}

#[test]
fn malformed_constraint_matrix_aborts_before_solving() {
    let cone_spec = vec![("l".to_string(), TaggedValue::Int(2))];
    let overrides: Vec<(String, TaggedValue)> = Vec::new();
    // row index 5 is out of range for two rows
    let r = prepare_problem(
        2,
        2,
        vec![0, 5],
        vec![0, 1, 2],
        bits(&[1.0, 1.0]),
        bits(&[1.0, 1.0]),
        bits(&[-1.0, -1.0]),
        Vec::new(),
        Vec::new(),
        Vec::new(),
        &cone_spec,
        &overrides,
    );
    assert!(r.is_err());
}

#[test]
fn overrides_reach_the_prepared_settings() {
    let cone_spec = vec![("l".to_string(), TaggedValue::Int(1))];
    let overrides = vec![
        ("max_iter".to_string(), TaggedValue::Int(50)),
        ("time_limit".to_string(), TaggedValue::Text("oops".to_string())),
    ];
    let prepared = prepare_problem(
        1,
        1,
        vec![0],
        vec![0, 1],
        bits(&[1.0]),
        bits(&[1.0]),
        bits(&[-1.0]),
        Vec::new(),
        Vec::new(),
        Vec::new(),
        &cone_spec,
        &overrides,
    )
    .unwrap();
    assert_eq!(prepared.settings.max_iter, 50);
    assert_eq!(prepared.settings.time_limit, SolverSettings::default().time_limit);
}
