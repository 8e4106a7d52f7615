use clarabel_bridge::outcome::{marshal_result, SolverOutcome};

#[test]
fn marshal_passes_fields_through_and_offsets_status() {
    let o = SolverOutcome {
        x: vec![1.0f64.to_bits(), 2.0f64.to_bits()],
        z: vec![0.5f64.to_bits()],
        s: vec![0.0f64.to_bits()],
        obj_val: (-2.0f64).to_bits(),
        status: 1,
        solve_time: 0.001f64.to_bits(),
        iterations: 7,
        r_prim: 1e-9f64.to_bits(),
        r_dual: 2e-9f64.to_bits(),
    };
    let r = marshal_result(o);
    assert_eq!(r.x, vec![1.0f64.to_bits(), 2.0f64.to_bits()]);
    assert_eq!(r.z, vec![0.5f64.to_bits()]);
    assert_eq!(r.s, vec![0.0f64.to_bits()]);
    assert_eq!(r.obj_val, (-2.0f64).to_bits());
    assert_eq!(r.status, 2);
    assert_eq!(r.solve_time, 0.001f64.to_bits());
    assert_eq!(r.iterations, 7);
    assert_eq!(r.r_prim, 1e-9f64.to_bits());
    assert_eq!(r.r_dual, 2e-9f64.to_bits());
}

#[test]
fn marshal_offsets_every_status_code_by_one() {
    for code in 0..12 {
        let o = SolverOutcome {
            x: Vec::new(),
            z: Vec::new(),
            s: Vec::new(),
            obj_val: 0,
            status: code,
            solve_time: 0,
            iterations: 0,
            r_prim: 0,
            r_dual: 0,
        };
        assert_eq!(marshal_result(o).status, code + 1);
    }
}
