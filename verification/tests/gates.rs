use dqcsim::gates::{
    cnot_gate, fredkin_gate, h_gate, i_gate, mx90_gate, my90_gate, mz90_gate, s_gate, sdag_gate,
    sqswap_gate, swap_gate, t_gate, tdag_gate, toffoli_gate, x90_gate, x_gate, y90_gate, y_gate,
    z90_gate, z_gate, Gate, GateMatrix, Zeta8,
};
use dqcsim::types::QubitRef;

fn check(g: &Gate, targets: &[u64], controls: &[u64], m: GateMatrix) {
    let t: Vec<u64> = g.get_targets().iter().map(|q| q.0).collect();
    let c: Vec<u64> = g.get_controls().iter().map(|q| q.0).collect();
    assert_eq!(t, targets);
    assert_eq!(c, controls);
    assert_eq!(g.get_matrix(), m);
}

#[test]
fn single_qubit_gates() {
    let q = QubitRef(7);
    check(&i_gate(q), &[7], &[], GateMatrix::Identity);
    check(&x_gate(q), &[7], &[], GateMatrix::PauliX);
    check(&x90_gate(q), &[7], &[], GateMatrix::RX90);
    check(&mx90_gate(q), &[7], &[], GateMatrix::RXM90);
    check(&y_gate(q), &[7], &[], GateMatrix::PauliY);
    check(&y90_gate(q), &[7], &[], GateMatrix::RY90);
    check(&my90_gate(q), &[7], &[], GateMatrix::RYM90);
    check(&z_gate(q), &[7], &[], GateMatrix::PauliZ);
    check(&z90_gate(q), &[7], &[], GateMatrix::RZ90);
    check(&mz90_gate(q), &[7], &[], GateMatrix::RZM90);
    check(&t_gate(q), &[7], &[], GateMatrix::T);
    check(&tdag_gate(q), &[7], &[], GateMatrix::TDag);
    check(&h_gate(q), &[7], &[], GateMatrix::Hadamard);
}

#[test]
fn phase_gates() {
    let q = QubitRef(1);
    check(&s_gate(q), &[1], &[], GateMatrix::S);
    check(&sdag_gate(q), &[1], &[], GateMatrix::SDag);
    assert_ne!(s_gate(q).get_matrix(), z90_gate(q).get_matrix());
}

fn z(a: i8, b: i8, c: i8, d: i8) -> Zeta8 {
    Zeta8 { a, b, c, d }
}

#[test]
fn exact_entries() {
    let (o, two) = (z(0, 0, 0, 0), z(2, 0, 0, 0));
    assert_eq!(GateMatrix::PauliX.entries(), vec![o, two, two, o]);
    assert_eq!(GateMatrix::PauliY.entries(), vec![o, z(0, 0, -2, 0), z(0, 0, 2, 0), o]);
    assert_eq!(GateMatrix::S.entries(), vec![two, o, o, z(0, 0, 2, 0)]);
    assert_eq!(GateMatrix::T.entries(), vec![two, o, o, z(0, 2, 0, 0)]);
    let s2 = z(0, 1, 0, -1);
    assert_eq!(GateMatrix::Hadamard.entries(), vec![s2, s2, s2, z(0, -1, 0, 1)]);
    assert_eq!(GateMatrix::RZ90.entries(), vec![z(0, 0, 0, -2), o, o, z(0, 2, 0, 0)]);
    let sw = GateMatrix::SqrtSwap.entries();
    assert_eq!(sw.len(), 16);
    assert_eq!(sw[5], z(1, 0, 1, 0));
    assert_eq!(sw[6], z(1, 0, -1, 0));
    assert_eq!(GateMatrix::Swap.entries()[6], two);
}

#[test]
fn multi_qubit_gates() {
    let (a, b, c) = (QubitRef(1), QubitRef(2), QubitRef(3));
    check(&swap_gate(a, b), &[1, 2], &[], GateMatrix::Swap);
    check(&sqswap_gate(b, a), &[2, 1], &[], GateMatrix::SqrtSwap);
    check(&cnot_gate(a, b), &[2], &[1], GateMatrix::PauliX);
    check(&toffoli_gate(a, b, c), &[3], &[1, 2], GateMatrix::PauliX);
    check(&fredkin_gate(c, a, b), &[1, 2], &[3], GateMatrix::Swap);
}

#[test]
fn unitary_constructor() {
    let g = Gate::unitary(vec![QubitRef(5), QubitRef(6)], vec![QubitRef(4)], GateMatrix::SqrtSwap);
    check(&g, &[5, 6], &[4], GateMatrix::SqrtSwap);
}

/// The complex value of an exact doubled entry, halved.
fn value(e: Zeta8) -> (f64, f64) {
    let h = std::f64::consts::FRAC_1_SQRT_2;
    let (a, b, c, d) = (e.a as f64, e.b as f64, e.c as f64, e.d as f64);
    ((a + (b - d) * h) / 2.0, (c + (b + d) * h) / 2.0)
}

fn times_adjoint_is_identity(m: GateMatrix) -> bool {
    let e: Vec<(f64, f64)> = m.entries().into_iter().map(value).collect();
    let n = if e.len() == 16 { 4 } else { 2 };
    for r in 0..n {
        for c in 0..n {
            let (mut re, mut im) = (0.0, 0.0);
            for k in 0..n {
                let (xr, xi) = e[r * n + k];
                let (yr, yi) = e[c * n + k];
                re += xr * yr + xi * yi;
                im += xi * yr - xr * yi;
            }
            let want = if r == c { 1.0 } else { 0.0 };
            if (re - want).abs() > 1e-12 || im.abs() > 1e-12 {
                return false;
            }
        }
    }
    true
}

#[test]
fn gate_matrices_are_unitary() {
    for m in [
        GateMatrix::Identity,
        GateMatrix::PauliX,
        GateMatrix::PauliY,
        GateMatrix::PauliZ,
        GateMatrix::Hadamard,
        GateMatrix::S,
        GateMatrix::SDag,
        GateMatrix::T,
        GateMatrix::TDag,
        GateMatrix::RX90,
        GateMatrix::RXM90,
        GateMatrix::RY90,
        GateMatrix::RYM90,
        GateMatrix::RZ90,
        GateMatrix::RZM90,
        GateMatrix::Swap,
        GateMatrix::SqrtSwap,
    ] {
        assert!(times_adjoint_is_identity(m), "{:?}", m);
    }
    assert!(times_adjoint_is_identity(sqswap_gate(QubitRef(1), QubitRef(2)).get_matrix()));
}
