//! Quantum gates and the constructors of the common ones.
//!
//! A gate is described exactly: its target qubits, its control qubits, and
//! the unitary matrix it applies to the targets. The matrices are those of
//! the predefined gates, and their entries are exact: every entry lies in
//! the ring of the eighth roots of unity, with a factor 1/2. An entry is
//! written as the four integer coordinates `(a, b, c, d)` of twice its
//! value, `a + bζ + cζ² + dζ³` where ζ = e^(iπ/4) (so ζ² = i, ζ⁴ = -1 and
//! ζ - ζ³ = √2). Products of matrices are then computed exactly, and the
//! algebraic laws of the gates (X² = I, T² = S, a swap undoes itself, ...)
//! are proved.

use vstd::prelude::*;
use crate::types::QubitRef;

verus! {

/// An element a + bζ + cζ² + dζ³ of the ring of the eighth roots of unity,
/// ζ = e^(iπ/4), by its integer coordinates.
pub struct Cyclo {
    /// The coordinate of 1.
    pub a: int,
    /// The coordinate of ζ.
    pub b: int,
    /// The coordinate of ζ² = i.
    pub c: int,
    /// The coordinate of ζ³.
    pub d: int,
}

/// The element with the given coordinates.
pub open spec fn cy(a: int, b: int, c: int, d: int) -> Cyclo {
    Cyclo { a, b, c, d }
}

/// The sum of two elements.
pub open spec fn cy_add(x: Cyclo, y: Cyclo) -> Cyclo {
    cy(x.a + y.a, x.b + y.b, x.c + y.c, x.d + y.d)
}

/// The product of two integers, by cases on the small factors that the
/// gate matrices have (so that products of their entries are linear
/// arithmetic); it is `x * y` in every case (`lemma_times`).
pub open spec fn times(x: int, y: int) -> int {
    if x == 0 {
        0
    } else if x == 1 {
        y
    } else if x == -1 {
        -y
    } else if x == 2 {
        y + y
    } else if x == -2 {
        -(y + y)
    } else {
        x * y
    }
}

/// `times` is multiplication.
pub proof fn lemma_times(x: int, y: int)
    ensures
        times(x, y) == x * y,
{
    assert(times(x, y) == x * y) by (nonlinear_arith);
}

/// The product of two elements, with ζ⁴ = -1.
pub open spec fn cy_mul(x: Cyclo, y: Cyclo) -> Cyclo {
    cy(
        times(x.a, y.a) - (times(x.b, y.d) + times(x.c, y.c) + times(x.d, y.b)),
        times(x.a, y.b) + times(x.b, y.a) - (times(x.c, y.d) + times(x.d, y.c)),
        times(x.a, y.c) + times(x.b, y.b) + times(x.c, y.a) - times(x.d, y.d),
        times(x.a, y.d) + times(x.b, y.c) + times(x.c, y.b) + times(x.d, y.a),
    )
}

/// An element times an integer.
pub open spec fn cy_scale(k: int, x: Cyclo) -> Cyclo {
    cy(k * x.a, k * x.b, k * x.c, k * x.d)
}

/// Exact coordinates of an entry, as the library hands them out: the
/// coordinates of twice the entry's value (see `Cyclo`).
#[derive(Clone, Copy, Debug, PartialEq, Eq, Structural)]
pub struct Zeta8 {
    /// The coordinate of 1.
    pub a: i8,
    /// The coordinate of ζ.
    pub b: i8,
    /// The coordinate of ζ² = i.
    pub c: i8,
    /// The coordinate of ζ³.
    pub d: i8,
}

impl View for Zeta8 {
    type V = Cyclo;

    open spec fn view(&self) -> Cyclo {
        cy(self.a as int, self.b as int, self.c as int, self.d as int)
    }
}

fn zeta(a: i8, b: i8, c: i8, d: i8) -> (r: Zeta8)
    ensures
        r@ == cy(a as int, b as int, c as int, d as int),
{
    Zeta8 { a, b, c, d }
}

/// The unitary matrix of a gate.
#[derive(Clone, Copy, Debug, PartialEq, Eq, Structural)]
pub enum GateMatrix {
    /// The single-qubit identity [[1, 0], [0, 1]].
    Identity,
    /// Pauli X [[0, 1], [1, 0]].
    PauliX,
    /// Pauli Y [[0, -i], [i, 0]].
    PauliY,
    /// Pauli Z [[1, 0], [0, -1]].
    PauliZ,
    /// Hadamard 1/√2 [[1, 1], [1, -1]].
    Hadamard,
    /// S [[1, 0], [0, i]].
    S,
    /// S-dagger [[1, 0], [0, -i]].
    SDag,
    /// T [[1, 0], [0, e^(iπ/4)]].
    T,
    /// T-dagger [[1, 0], [0, e^(-iπ/4)]].
    TDag,
    /// Rx(90°) 1/√2 [[1, -i], [-i, 1]].
    RX90,
    /// Rx(-90°) 1/√2 [[1, i], [i, 1]].
    RXM90,
    /// Ry(90°) 1/√2 [[1, -1], [1, 1]].
    RY90,
    /// Ry(-90°) 1/√2 [[1, 1], [-1, 1]].
    RYM90,
    /// Rz(90°) [[e^(-iπ/4), 0], [0, e^(iπ/4)]].
    RZ90,
    /// Rz(-90°) [[e^(iπ/4), 0], [0, e^(-iπ/4)]].
    RZM90,
    /// The two-qubit swap: it exchanges |01> and |10>.
    Swap,
    /// The two-qubit square root of swap: identity on |00> and |11>, and [[(1+i)/2, (1-i)/2], [(1-i)/2, (1+i)/2]] on |01>, |10>.
    SqrtSwap,
}

impl GateMatrix {
    /// The number of qubits the matrix acts on.
    pub open spec fn num_qubits(self) -> nat {
        match self {
            GateMatrix::Swap | GateMatrix::SqrtSwap => 2,
            _ => 1,
        }
    }

    /// The entries of twice the matrix, row-major, exactly (see `Cyclo`).
    pub open spec fn spec_entries(self) -> Seq<Cyclo> {
        match self {
            GateMatrix::Identity => seq![cy(2, 0, 0, 0), cy(0, 0, 0, 0), cy(0, 0, 0, 0), cy(2, 0, 0, 0)],
            GateMatrix::PauliX => seq![cy(0, 0, 0, 0), cy(2, 0, 0, 0), cy(2, 0, 0, 0), cy(0, 0, 0, 0)],
            GateMatrix::PauliY => seq![cy(0, 0, 0, 0), cy(0, 0, -2, 0), cy(0, 0, 2, 0), cy(0, 0, 0, 0)],
            GateMatrix::PauliZ => seq![cy(2, 0, 0, 0), cy(0, 0, 0, 0), cy(0, 0, 0, 0), cy(-2, 0, 0, 0)],
            GateMatrix::Hadamard => seq![cy(0, 1, 0, -1), cy(0, 1, 0, -1), cy(0, 1, 0, -1), cy(0, -1, 0, 1)],
            GateMatrix::S => seq![cy(2, 0, 0, 0), cy(0, 0, 0, 0), cy(0, 0, 0, 0), cy(0, 0, 2, 0)],
            GateMatrix::SDag => seq![cy(2, 0, 0, 0), cy(0, 0, 0, 0), cy(0, 0, 0, 0), cy(0, 0, -2, 0)],
            GateMatrix::T => seq![cy(2, 0, 0, 0), cy(0, 0, 0, 0), cy(0, 0, 0, 0), cy(0, 2, 0, 0)],
            GateMatrix::TDag => seq![cy(2, 0, 0, 0), cy(0, 0, 0, 0), cy(0, 0, 0, 0), cy(0, 0, 0, -2)],
            GateMatrix::RX90 => seq![cy(0, 1, 0, -1), cy(0, -1, 0, -1), cy(0, -1, 0, -1), cy(0, 1, 0, -1)],
            GateMatrix::RXM90 => seq![cy(0, 1, 0, -1), cy(0, 1, 0, 1), cy(0, 1, 0, 1), cy(0, 1, 0, -1)],
            GateMatrix::RY90 => seq![cy(0, 1, 0, -1), cy(0, -1, 0, 1), cy(0, 1, 0, -1), cy(0, 1, 0, -1)],
            GateMatrix::RYM90 => seq![cy(0, 1, 0, -1), cy(0, 1, 0, -1), cy(0, -1, 0, 1), cy(0, 1, 0, -1)],
            GateMatrix::RZ90 => seq![cy(0, 0, 0, -2), cy(0, 0, 0, 0), cy(0, 0, 0, 0), cy(0, 2, 0, 0)],
            GateMatrix::RZM90 => seq![cy(0, 2, 0, 0), cy(0, 0, 0, 0), cy(0, 0, 0, 0), cy(0, 0, 0, -2)],
            GateMatrix::Swap => seq![cy(2, 0, 0, 0), cy(0, 0, 0, 0), cy(0, 0, 0, 0), cy(0, 0, 0, 0), cy(0, 0, 0, 0), cy(0, 0, 0, 0), cy(2, 0, 0, 0), cy(0, 0, 0, 0), cy(0, 0, 0, 0), cy(2, 0, 0, 0), cy(0, 0, 0, 0), cy(0, 0, 0, 0), cy(0, 0, 0, 0), cy(0, 0, 0, 0), cy(0, 0, 0, 0), cy(2, 0, 0, 0)],
            GateMatrix::SqrtSwap => seq![cy(2, 0, 0, 0), cy(0, 0, 0, 0), cy(0, 0, 0, 0), cy(0, 0, 0, 0), cy(0, 0, 0, 0), cy(1, 0, 1, 0), cy(1, 0, -1, 0), cy(0, 0, 0, 0), cy(0, 0, 0, 0), cy(1, 0, -1, 0), cy(1, 0, 1, 0), cy(0, 0, 0, 0), cy(0, 0, 0, 0), cy(0, 0, 0, 0), cy(0, 0, 0, 0), cy(2, 0, 0, 0)],
        }
    }

    /// Returns the entries of twice the matrix, row-major, exactly: entry
    /// `e` stands for (e.a + e.b ζ + e.c ζ² + e.d ζ³) / 2, ζ = e^(iπ/4).
    pub fn entries(self) -> (r: Vec<Zeta8>)
        ensures
            r@.map_values(|z: Zeta8| z@) == self.spec_entries(),
    {
        let r = match self {
            GateMatrix::Identity => vec![zeta(2, 0, 0, 0), zeta(0, 0, 0, 0), zeta(0, 0, 0, 0), zeta(2, 0, 0, 0)],
            GateMatrix::PauliX => vec![zeta(0, 0, 0, 0), zeta(2, 0, 0, 0), zeta(2, 0, 0, 0), zeta(0, 0, 0, 0)],
            GateMatrix::PauliY => vec![zeta(0, 0, 0, 0), zeta(0, 0, -2, 0), zeta(0, 0, 2, 0), zeta(0, 0, 0, 0)],
            GateMatrix::PauliZ => vec![zeta(2, 0, 0, 0), zeta(0, 0, 0, 0), zeta(0, 0, 0, 0), zeta(-2, 0, 0, 0)],
            GateMatrix::Hadamard => vec![zeta(0, 1, 0, -1), zeta(0, 1, 0, -1), zeta(0, 1, 0, -1), zeta(0, -1, 0, 1)],
            GateMatrix::S => vec![zeta(2, 0, 0, 0), zeta(0, 0, 0, 0), zeta(0, 0, 0, 0), zeta(0, 0, 2, 0)],
            GateMatrix::SDag => vec![zeta(2, 0, 0, 0), zeta(0, 0, 0, 0), zeta(0, 0, 0, 0), zeta(0, 0, -2, 0)],
            GateMatrix::T => vec![zeta(2, 0, 0, 0), zeta(0, 0, 0, 0), zeta(0, 0, 0, 0), zeta(0, 2, 0, 0)],
            GateMatrix::TDag => vec![zeta(2, 0, 0, 0), zeta(0, 0, 0, 0), zeta(0, 0, 0, 0), zeta(0, 0, 0, -2)],
            GateMatrix::RX90 => vec![zeta(0, 1, 0, -1), zeta(0, -1, 0, -1), zeta(0, -1, 0, -1), zeta(0, 1, 0, -1)],
            GateMatrix::RXM90 => vec![zeta(0, 1, 0, -1), zeta(0, 1, 0, 1), zeta(0, 1, 0, 1), zeta(0, 1, 0, -1)],
            GateMatrix::RY90 => vec![zeta(0, 1, 0, -1), zeta(0, -1, 0, 1), zeta(0, 1, 0, -1), zeta(0, 1, 0, -1)],
            GateMatrix::RYM90 => vec![zeta(0, 1, 0, -1), zeta(0, 1, 0, -1), zeta(0, -1, 0, 1), zeta(0, 1, 0, -1)],
            GateMatrix::RZ90 => vec![zeta(0, 0, 0, -2), zeta(0, 0, 0, 0), zeta(0, 0, 0, 0), zeta(0, 2, 0, 0)],
            GateMatrix::RZM90 => vec![zeta(0, 2, 0, 0), zeta(0, 0, 0, 0), zeta(0, 0, 0, 0), zeta(0, 0, 0, -2)],
            GateMatrix::Swap => vec![zeta(2, 0, 0, 0), zeta(0, 0, 0, 0), zeta(0, 0, 0, 0), zeta(0, 0, 0, 0), zeta(0, 0, 0, 0), zeta(0, 0, 0, 0), zeta(2, 0, 0, 0), zeta(0, 0, 0, 0), zeta(0, 0, 0, 0), zeta(2, 0, 0, 0), zeta(0, 0, 0, 0), zeta(0, 0, 0, 0), zeta(0, 0, 0, 0), zeta(0, 0, 0, 0), zeta(0, 0, 0, 0), zeta(2, 0, 0, 0)],
            GateMatrix::SqrtSwap => vec![zeta(2, 0, 0, 0), zeta(0, 0, 0, 0), zeta(0, 0, 0, 0), zeta(0, 0, 0, 0), zeta(0, 0, 0, 0), zeta(1, 0, 1, 0), zeta(1, 0, -1, 0), zeta(0, 0, 0, 0), zeta(0, 0, 0, 0), zeta(1, 0, -1, 0), zeta(1, 0, 1, 0), zeta(0, 0, 0, 0), zeta(0, 0, 0, 0), zeta(0, 0, 0, 0), zeta(0, 0, 0, 0), zeta(2, 0, 0, 0)],
        };
        assert(r@.map_values(|z: Zeta8| z@) =~= self.spec_entries());
        r
    }
}

/// The dimension of a square matrix given by its entries: 4 for sixteen
/// entries, 2 otherwise.
pub open spec fn dim(m: Seq<Cyclo>) -> int {
    if m.len() == 16 {
        4
    } else {
        2
    }
}

/// Entry (r, c) of the product of two square matrices of the same
/// dimension.
pub open spec fn product_entry(x: Seq<Cyclo>, y: Seq<Cyclo>, r: int, c: int) -> Cyclo {
    if dim(x) == 4 {
        cy_add(
            cy_add(cy_mul(x[4 * r], y[c]), cy_mul(x[4 * r + 1], y[4 + c])),
            cy_add(cy_mul(x[4 * r + 2], y[8 + c]), cy_mul(x[4 * r + 3], y[12 + c])),
        )
    } else {
        cy_add(cy_mul(x[2 * r], y[c]), cy_mul(x[2 * r + 1], y[2 + c]))
    }
}

/// The product of two square matrices of the same dimension, row-major.
pub open spec fn product(x: Seq<Cyclo>, y: Seq<Cyclo>) -> Seq<Cyclo> {
    Seq::new(x.len(), |k: int| product_entry(x, y, k / dim(x), k % dim(x)))
}

/// A matrix times an integer.
pub open spec fn scaled(k: int, x: Seq<Cyclo>) -> Seq<Cyclo> {
    Seq::new(x.len(), |i: int| cy_scale(k, x[i]))
}

/// The transpose of a square matrix.
pub open spec fn transpose(x: Seq<Cyclo>) -> Seq<Cyclo> {
    Seq::new(x.len(), |k: int| x[(k % dim(x)) * dim(x) + k / dim(x)])
}

/// The identity on two qubits, doubled.
pub open spec fn identity4() -> Seq<Cyclo> {
    seq![cy(2, 0, 0, 0), cy(0, 0, 0, 0), cy(0, 0, 0, 0), cy(0, 0, 0, 0),
         cy(0, 0, 0, 0), cy(2, 0, 0, 0), cy(0, 0, 0, 0), cy(0, 0, 0, 0),
         cy(0, 0, 0, 0), cy(0, 0, 0, 0), cy(2, 0, 0, 0), cy(0, 0, 0, 0),
         cy(0, 0, 0, 0), cy(0, 0, 0, 0), cy(0, 0, 0, 0), cy(2, 0, 0, 0)]
}

/// `x · y == z` for the matrices themselves, given by doubled entries:
/// (2x)(2y) == 2(2z).
pub open spec fn multiplies_to(x: GateMatrix, y: GateMatrix, z: Seq<Cyclo>) -> bool {
    product(x.spec_entries(), y.spec_entries()) == scaled(2, z)
}

/// The abstract value of a gate.
#[verifier::ext_equal]
pub struct GateView {
    /// The target qubits, in order.
    pub targets: Seq<QubitRef>,
    /// The control qubits, in order.
    pub controls: Seq<QubitRef>,
    /// The unitary applied to the targets.
    pub matrix: GateMatrix,
}

impl GateView {
    /// The number of targets is the number of qubits the matrix acts on.
    pub open spec fn wf(self) -> bool {
        self.targets.len() == self.matrix.num_qubits()
    }
}

/// A unitary gate: a matrix applied to target qubits, controlled by control
/// qubits.
#[derive(Debug)]
pub struct Gate {
    targets: Vec<QubitRef>,
    controls: Vec<QubitRef>,
    matrix: GateMatrix,
}

impl View for Gate {
    type V = GateView;

    closed spec fn view(&self) -> GateView {
        GateView { targets: self.targets@, controls: self.controls@, matrix: self.matrix }
    }
}

impl Gate {
    /// A unitary gate with the given targets, controls and matrix; the matrix
    /// must act on as many qubits as there are targets.
    pub fn unitary(targets: Vec<QubitRef>, controls: Vec<QubitRef>, matrix: GateMatrix) -> (r: Gate)
        requires
            targets@.len() == matrix.num_qubits(),
        ensures
            r@ == (GateView { targets: targets@, controls: controls@, matrix }),
            r@.wf(),
    {
        Gate { targets, controls, matrix }
    }

    /// Returns the target qubits.
    pub fn get_targets(&self) -> (r: &Vec<QubitRef>)
        ensures
            r@ == self@.targets,
    {
        &self.targets
    }

    /// Returns the control qubits.
    pub fn get_controls(&self) -> (r: &Vec<QubitRef>)
        ensures
            r@ == self@.controls,
    {
        &self.controls
    }

    /// Returns the matrix.
    pub fn get_matrix(&self) -> (r: GateMatrix)
        ensures
            r == self@.matrix,
    {
        self.matrix
    }
}

/// A gate with `matrix` on one target qubit `target` and no controls.
pub open spec fn single(target: QubitRef, matrix: GateMatrix) -> GateView {
    GateView { targets: seq![target], controls: seq![], matrix }
}

/// Returns an I gate.
pub fn i_gate(target: QubitRef) -> (r: Gate)
    ensures
        r@ == single(target, GateMatrix::Identity),
{
    Gate::unitary(vec![target], vec![], GateMatrix::Identity)
}
/// Returns an X gate.
pub fn x_gate(target: QubitRef) -> (r: Gate)
    ensures
        r@ == single(target, GateMatrix::PauliX),
{
    Gate::unitary(vec![target], vec![], GateMatrix::PauliX)
}
/// Returns a 90-degree X gate: Rx(90°).
pub fn x90_gate(target: QubitRef) -> (r: Gate)
    ensures
        r@ == single(target, GateMatrix::RX90),
{
    Gate::unitary(vec![target], vec![], GateMatrix::RX90)
}
/// Returns a negative 90-degree X gate: Rx(-90°).
pub fn mx90_gate(target: QubitRef) -> (r: Gate)
    ensures
        r@ == single(target, GateMatrix::RXM90),
{
    Gate::unitary(vec![target], vec![], GateMatrix::RXM90)
}
/// Returns a Y gate.
pub fn y_gate(target: QubitRef) -> (r: Gate)
    ensures
        r@ == single(target, GateMatrix::PauliY),
{
    Gate::unitary(vec![target], vec![], GateMatrix::PauliY)
}
/// Returns a 90-degree Y gate: Ry(90°).
pub fn y90_gate(target: QubitRef) -> (r: Gate)
    ensures
        r@ == single(target, GateMatrix::RY90),
{
    Gate::unitary(vec![target], vec![], GateMatrix::RY90)
}
/// Returns a negative 90-degree Y gate: Ry(-90°).
pub fn my90_gate(target: QubitRef) -> (r: Gate)
    ensures
        r@ == single(target, GateMatrix::RYM90),
{
    Gate::unitary(vec![target], vec![], GateMatrix::RYM90)
}
/// Returns a Z gate.
pub fn z_gate(target: QubitRef) -> (r: Gate)
    ensures
        r@ == single(target, GateMatrix::PauliZ),
{
    Gate::unitary(vec![target], vec![], GateMatrix::PauliZ)
}
/// Returns a 90-degree Z gate: Rz(90°).
pub fn z90_gate(target: QubitRef) -> (r: Gate)
    ensures
        r@ == single(target, GateMatrix::RZ90),
{
    Gate::unitary(vec![target], vec![], GateMatrix::RZ90)
}
/// Returns a negative 90-degree Z gate: Rz(-90°).
pub fn mz90_gate(target: QubitRef) -> (r: Gate)
    ensures
        r@ == single(target, GateMatrix::RZM90),
{
    Gate::unitary(vec![target], vec![], GateMatrix::RZM90)
}
/// Returns an S gate.
pub fn s_gate(target: QubitRef) -> (r: Gate)
    ensures
        r@ == single(target, GateMatrix::S),
{
    Gate::unitary(vec![target], vec![], GateMatrix::S)
}
/// Returns an S-dagger gate.
pub fn sdag_gate(target: QubitRef) -> (r: Gate)
    ensures
        r@ == single(target, GateMatrix::SDag),
{
    Gate::unitary(vec![target], vec![], GateMatrix::SDag)
}
/// Returns a T gate.
pub fn t_gate(target: QubitRef) -> (r: Gate)
    ensures
        r@ == single(target, GateMatrix::T),
{
    Gate::unitary(vec![target], vec![], GateMatrix::T)
}
/// Returns a T-dagger gate.
pub fn tdag_gate(target: QubitRef) -> (r: Gate)
    ensures
        r@ == single(target, GateMatrix::TDag),
{
    Gate::unitary(vec![target], vec![], GateMatrix::TDag)
}
/// Returns a Hadamard gate.
pub fn h_gate(target: QubitRef) -> (r: Gate)
    ensures
        r@ == single(target, GateMatrix::Hadamard),
{
    Gate::unitary(vec![target], vec![], GateMatrix::Hadamard)
}

/// Returns a swap gate on the target qubits `a` and `b`.
pub fn swap_gate(a: QubitRef, b: QubitRef) -> (r: Gate)
    ensures
        r@ == (GateView { targets: seq![a, b], controls: seq![], matrix: GateMatrix::Swap }),
{
    Gate::unitary(vec![a, b], vec![], GateMatrix::Swap)
}

/// Returns a square-root-of-swap gate on the target qubits `a` and `b`.
pub fn sqswap_gate(a: QubitRef, b: QubitRef) -> (r: Gate)
    ensures
        r@ == (GateView { targets: seq![a, b], controls: seq![], matrix: GateMatrix::SqrtSwap }),
{
    Gate::unitary(vec![a, b], vec![], GateMatrix::SqrtSwap)
}

/// Returns a CNOT gate: Pauli X on `target`, controlled by `control`.
pub fn cnot_gate(control: QubitRef, target: QubitRef) -> (r: Gate)
    ensures
        r@ == (GateView { targets: seq![target], controls: seq![control], matrix: GateMatrix::PauliX }),
{
    Gate::unitary(vec![target], vec![control], GateMatrix::PauliX)
}

/// Returns a Toffoli gate: Pauli X on `target`, controlled by `c1` and `c2`.
pub fn toffoli_gate(c1: QubitRef, c2: QubitRef, target: QubitRef) -> (r: Gate)
    ensures
        r@ == (GateView { targets: seq![target], controls: seq![c1, c2], matrix: GateMatrix::PauliX }),
{
    Gate::unitary(vec![target], vec![c1, c2], GateMatrix::PauliX)
}

/// Returns a Fredkin gate: a swap of `a` and `b`, controlled by `control`.
pub fn fredkin_gate(control: QubitRef, a: QubitRef, b: QubitRef) -> (r: Gate)
    ensures
        r@ == (GateView { targets: seq![a, b], controls: seq![control], matrix: GateMatrix::Swap }),
{
    Gate::unitary(vec![a, b], vec![control], GateMatrix::Swap)
}

} // verus!

verus! {

/// Every gate the constructors build is well formed: a single-qubit matrix
/// on one target, a two-qubit matrix on two.
pub proof fn law_gates_well_formed(t: QubitRef, a: QubitRef, b: QubitRef, c: QubitRef, m: GateMatrix)
    ensures
        m.num_qubits() == 1 ==> single(t, m).wf(),
        (GateView { targets: seq![a, b], controls: seq![], matrix: GateMatrix::Swap }).wf(),
        (GateView { targets: seq![a, b], controls: seq![], matrix: GateMatrix::SqrtSwap }).wf(),
        (GateView { targets: seq![t], controls: seq![c], matrix: GateMatrix::PauliX }).wf(),
        (GateView { targets: seq![t], controls: seq![a, b], matrix: GateMatrix::PauliX }).wf(),
        (GateView { targets: seq![a, b], controls: seq![c], matrix: GateMatrix::Swap }).wf(),
        m.spec_entries().len() == if m.num_qubits() == 2 { 16int } else { 4int },
{
}

/// A product of two 2×2 matrices, entry by entry.
proof fn lemma_product2(x: Seq<Cyclo>, y: Seq<Cyclo>)
    requires
        x.len() == 4,
    ensures
        product(x, y) == seq![product_entry(x, y, 0, 0), product_entry(x, y, 0, 1), product_entry(x, y, 1, 0), product_entry(x, y, 1, 1)],
{
    let p = product(x, y);
    assert(p[0] == product_entry(x, y, 0, 0));
    assert(p[1] == product_entry(x, y, 0, 1));
    assert(p[2] == product_entry(x, y, 1, 0));
    assert(p[3] == product_entry(x, y, 1, 1));
    assert(p =~= seq![product_entry(x, y, 0, 0), product_entry(x, y, 0, 1), product_entry(x, y, 1, 0), product_entry(x, y, 1, 1)]);
}

/// A product of two 4×4 matrices, entry by entry.
proof fn lemma_product4(x: Seq<Cyclo>, y: Seq<Cyclo>)
    requires
        x.len() == 16,
    ensures
        product(x, y) == seq![product_entry(x, y, 0, 0), product_entry(x, y, 0, 1), product_entry(x, y, 0, 2), product_entry(x, y, 0, 3), product_entry(x, y, 1, 0), product_entry(x, y, 1, 1), product_entry(x, y, 1, 2), product_entry(x, y, 1, 3), product_entry(x, y, 2, 0), product_entry(x, y, 2, 1), product_entry(x, y, 2, 2), product_entry(x, y, 2, 3), product_entry(x, y, 3, 0), product_entry(x, y, 3, 1), product_entry(x, y, 3, 2), product_entry(x, y, 3, 3)],
{
    let p = product(x, y);
    assert(p[0] == product_entry(x, y, 0, 0));
    assert(p[1] == product_entry(x, y, 0, 1));
    assert(p[2] == product_entry(x, y, 0, 2));
    assert(p[3] == product_entry(x, y, 0, 3));
    assert(p[4] == product_entry(x, y, 1, 0));
    assert(p[5] == product_entry(x, y, 1, 1));
    assert(p[6] == product_entry(x, y, 1, 2));
    assert(p[7] == product_entry(x, y, 1, 3));
    assert(p[8] == product_entry(x, y, 2, 0));
    assert(p[9] == product_entry(x, y, 2, 1));
    assert(p[10] == product_entry(x, y, 2, 2));
    assert(p[11] == product_entry(x, y, 2, 3));
    assert(p[12] == product_entry(x, y, 3, 0));
    assert(p[13] == product_entry(x, y, 3, 1));
    assert(p[14] == product_entry(x, y, 3, 2));
    assert(p[15] == product_entry(x, y, 3, 3));
    assert(p =~= seq![product_entry(x, y, 0, 0), product_entry(x, y, 0, 1), product_entry(x, y, 0, 2), product_entry(x, y, 0, 3), product_entry(x, y, 1, 0), product_entry(x, y, 1, 1), product_entry(x, y, 1, 2), product_entry(x, y, 1, 3), product_entry(x, y, 2, 0), product_entry(x, y, 2, 1), product_entry(x, y, 2, 2), product_entry(x, y, 2, 3), product_entry(x, y, 3, 0), product_entry(x, y, 3, 1), product_entry(x, y, 3, 2), product_entry(x, y, 3, 3)]);
}

/// A doubled matrix, entry by entry.
proof fn lemma_scaled(x: Seq<Cyclo>)
    requires
        x.len() == 4 || x.len() == 16,
    ensures
        x.len() == 4 ==> scaled(2, x) == seq![cy_scale(2, x[0]), cy_scale(2, x[1]), cy_scale(2, x[2]), cy_scale(2, x[3])],
        x.len() == 16 ==> scaled(2, x) == seq![cy_scale(2, x[0]), cy_scale(2, x[1]), cy_scale(2, x[2]), cy_scale(2, x[3]), cy_scale(2, x[4]), cy_scale(2, x[5]), cy_scale(2, x[6]), cy_scale(2, x[7]), cy_scale(2, x[8]), cy_scale(2, x[9]), cy_scale(2, x[10]), cy_scale(2, x[11]), cy_scale(2, x[12]), cy_scale(2, x[13]), cy_scale(2, x[14]), cy_scale(2, x[15])],
{
    if x.len() == 4 {
        assert(scaled(2, x) =~= seq![cy_scale(2, x[0]), cy_scale(2, x[1]), cy_scale(2, x[2]), cy_scale(2, x[3])]);
    } else {
        assert(scaled(2, x) =~= seq![cy_scale(2, x[0]), cy_scale(2, x[1]), cy_scale(2, x[2]), cy_scale(2, x[3]), cy_scale(2, x[4]), cy_scale(2, x[5]), cy_scale(2, x[6]), cy_scale(2, x[7]), cy_scale(2, x[8]), cy_scale(2, x[9]), cy_scale(2, x[10]), cy_scale(2, x[11]), cy_scale(2, x[12]), cy_scale(2, x[13]), cy_scale(2, x[14]), cy_scale(2, x[15])]);
    }
}

/// `x · y == z` for two single-qubit matrices, from their entries.
proof fn lemma_multiplies2(x: GateMatrix, y: GateMatrix, z: GateMatrix)
    requires
        x.num_qubits() == 1,
        z.num_qubits() == 1,
        product_entry(x.spec_entries(), y.spec_entries(), 0, 0) == cy_scale(2, z.spec_entries()[0]),
        product_entry(x.spec_entries(), y.spec_entries(), 0, 1) == cy_scale(2, z.spec_entries()[1]),
        product_entry(x.spec_entries(), y.spec_entries(), 1, 0) == cy_scale(2, z.spec_entries()[2]),
        product_entry(x.spec_entries(), y.spec_entries(), 1, 1) == cy_scale(2, z.spec_entries()[3]),
    ensures
        multiplies_to(x, y, z.spec_entries()),
{
    lemma_product2(x.spec_entries(), y.spec_entries());
    lemma_scaled(z.spec_entries());
}

/// The Pauli matrices and the Hadamard matrix undo themselves: X² = Y² =
/// Z² = H² = I.
pub proof fn law_self_inverse_gates()
    ensures
        multiplies_to(GateMatrix::PauliX, GateMatrix::PauliX, GateMatrix::Identity.spec_entries()),
        multiplies_to(GateMatrix::PauliY, GateMatrix::PauliY, GateMatrix::Identity.spec_entries()),
        multiplies_to(GateMatrix::PauliZ, GateMatrix::PauliZ, GateMatrix::Identity.spec_entries()),
        multiplies_to(GateMatrix::Hadamard, GateMatrix::Hadamard, GateMatrix::Identity.spec_entries()),
{
    lemma_multiplies2(GateMatrix::PauliX, GateMatrix::PauliX, GateMatrix::Identity);
    lemma_multiplies2(GateMatrix::PauliY, GateMatrix::PauliY, GateMatrix::Identity);
    lemma_multiplies2(GateMatrix::PauliZ, GateMatrix::PauliZ, GateMatrix::Identity);
    lemma_multiplies2(GateMatrix::Hadamard, GateMatrix::Hadamard, GateMatrix::Identity);
}

/// The phase gates square to the next coarser one, and their daggers undo
/// them: T² = S, S² = Z, S·S† = T·T† = I.
pub proof fn law_phase_gates()
    ensures
        multiplies_to(GateMatrix::T, GateMatrix::T, GateMatrix::S.spec_entries()),
        multiplies_to(GateMatrix::S, GateMatrix::S, GateMatrix::PauliZ.spec_entries()),
        multiplies_to(GateMatrix::S, GateMatrix::SDag, GateMatrix::Identity.spec_entries()),
        multiplies_to(GateMatrix::T, GateMatrix::TDag, GateMatrix::Identity.spec_entries()),
{
    lemma_multiplies2(GateMatrix::T, GateMatrix::T, GateMatrix::S);
    lemma_multiplies2(GateMatrix::S, GateMatrix::S, GateMatrix::PauliZ);
    lemma_multiplies2(GateMatrix::S, GateMatrix::SDag, GateMatrix::Identity);
    lemma_multiplies2(GateMatrix::T, GateMatrix::TDag, GateMatrix::Identity);
}

/// A rotation by 90 degrees is undone by the rotation by -90 degrees about
/// the same axis.
pub proof fn law_rotations_undo()
    ensures
        multiplies_to(GateMatrix::RX90, GateMatrix::RXM90, GateMatrix::Identity.spec_entries()),
        multiplies_to(GateMatrix::RY90, GateMatrix::RYM90, GateMatrix::Identity.spec_entries()),
        multiplies_to(GateMatrix::RZ90, GateMatrix::RZM90, GateMatrix::Identity.spec_entries()),
{
    lemma_multiplies2(GateMatrix::RX90, GateMatrix::RXM90, GateMatrix::Identity);
    lemma_multiplies2(GateMatrix::RY90, GateMatrix::RYM90, GateMatrix::Identity);
    lemma_multiplies2(GateMatrix::RZ90, GateMatrix::RZM90, GateMatrix::Identity);
}

/// The conjugate of an element: ζ̄ = ζ⁷ = -ζ³, so a + bζ + cζ² + dζ³ has
/// the conjugate a - dζ - cζ² - bζ³.
pub open spec fn cy_conj(x: Cyclo) -> Cyclo {
    cy(x.a, -x.d, -x.c, -x.b)
}

/// The conjugate transpose of a square matrix.
pub open spec fn adjoint(x: Seq<Cyclo>) -> Seq<Cyclo> {
    Seq::new(x.len(), |k: int| cy_conj(x[(k % dim(x)) * dim(x) + k / dim(x)]))
}

/// The identity on as many qubits as the matrix acts on, doubled.
pub open spec fn identity_like(m: GateMatrix) -> Seq<Cyclo> {
    if m.num_qubits() == 2 {
        identity4()
    } else {
        GateMatrix::Identity.spec_entries()
    }
}

/// The matrix is unitary: M · M† = I, for the matrix itself, given by
/// doubled entries.
pub open spec fn is_unitary(m: GateMatrix) -> bool {
    product(m.spec_entries(), adjoint(m.spec_entries())) == scaled(2, identity_like(m))
}

/// The products of two-qubit matrices that the laws below state: x · y ==
/// z for the matrices given by doubled entries.
pub open spec fn two_qubit_product_fact(x: Seq<Cyclo>, y: Seq<Cyclo>, z: Seq<Cyclo>) -> bool {
    let w = GateMatrix::Swap.spec_entries();
    let q = GateMatrix::SqrtSwap.spec_entries();
    ||| x == w && y == w && z == identity4()
    ||| x == q && y == q && z == w
    ||| x == w && y == adjoint(w) && z == identity4()
    ||| x == q && y == adjoint(q) && z == identity4()
}

/// Row `r` of one of those products: entry (r, c) of the doubled product is
/// twice entry (r, c) of the doubled result.
#[verifier::spinoff_prover]
proof fn lemma_product_row4(x: Seq<Cyclo>, y: Seq<Cyclo>, z: Seq<Cyclo>, r: int)
    requires
        two_qubit_product_fact(x, y, z),
        0 <= r < 4,
    ensures
        forall|c: int| 0 <= c < 4 ==> #[trigger] product_entry(x, y, r, c) == cy_scale(2, z[4 * r + c]),
{
    assert forall|c: int| 0 <= c < 4 implies #[trigger] product_entry(x, y, r, c) == cy_scale(2, z[4 * r + c]) by {
        if c == 0 {
        } else if c == 1 {
        } else if c == 2 {
        } else {
        }
    }
}

/// A product of two-qubit matrices is twice `z` when each entry is.
proof fn lemma_product_from_entries4(x: Seq<Cyclo>, y: Seq<Cyclo>, z: Seq<Cyclo>)
    requires
        x.len() == 16,
        z.len() == 16,
        forall|r: int, c: int|
            0 <= r < 4 && 0 <= c < 4 ==> #[trigger] product_entry(x, y, r, c) == cy_scale(2, z[4 * r + c]),
    ensures
        product(x, y) == scaled(2, z),
{
    lemma_product4(x, y);
    lemma_scaled(z);
    assert(product(x, y) =~= scaled(2, z));
}

/// One of those products, as a whole.
proof fn lemma_multiplies4(x: Seq<Cyclo>, y: Seq<Cyclo>, z: Seq<Cyclo>)
    requires
        two_qubit_product_fact(x, y, z),
    ensures
        product(x, y) == scaled(2, z),
{
    assert forall|r: int, c: int| 0 <= r < 4 && 0 <= c < 4 implies #[trigger] product_entry(x, y, r, c) == cy_scale(2, z[4 * r + c]) by {
        lemma_product_row4(x, y, z, r);
    }
    lemma_product_from_entries4(x, y, z);
}

/// A single-qubit matrix, given by its doubled entries, is unitary when
/// each entry of M · M† is that of the identity.
proof fn lemma_unitary2(x: Seq<Cyclo>)
    requires
        x.len() == 4,
        product_entry(x, adjoint(x), 0, 0) == cy_scale(2, cy(2, 0, 0, 0)),
        product_entry(x, adjoint(x), 0, 1) == cy_scale(2, cy(0, 0, 0, 0)),
        product_entry(x, adjoint(x), 1, 0) == cy_scale(2, cy(0, 0, 0, 0)),
        product_entry(x, adjoint(x), 1, 1) == cy_scale(2, cy(2, 0, 0, 0)),
    ensures
        product(x, adjoint(x)) == scaled(2, GateMatrix::Identity.spec_entries()),
{
    lemma_product2(x, adjoint(x));
    lemma_scaled(GateMatrix::Identity.spec_entries());
    assert(product(x, adjoint(x)) =~= scaled(2, GateMatrix::Identity.spec_entries()));
}

/// The conjugate transpose of a 2×2 matrix, entry by entry.
proof fn lemma_adjoint2(x: Seq<Cyclo>)
    requires
        x.len() == 4,
    ensures
        adjoint(x) == seq![cy_conj(x[0]), cy_conj(x[2]), cy_conj(x[1]), cy_conj(x[3])],
{
    assert(adjoint(x) =~= seq![cy_conj(x[0]), cy_conj(x[2]), cy_conj(x[1]), cy_conj(x[3])]);
}

/// A single-qubit gate matrix is unitary.
proof fn lemma_unitary1(m: GateMatrix)
    requires
        m.num_qubits() == 1,
    ensures
        is_unitary(m),
{
    let x = m.spec_entries();
    lemma_adjoint2(x);
    match m {
        GateMatrix::Identity => lemma_unitary2(x),
        GateMatrix::PauliX => lemma_unitary2(x),
        GateMatrix::PauliY => lemma_unitary2(x),
        GateMatrix::PauliZ => lemma_unitary2(x),
        GateMatrix::Hadamard => lemma_unitary2(x),
        GateMatrix::S => lemma_unitary2(x),
        GateMatrix::SDag => lemma_unitary2(x),
        GateMatrix::T => lemma_unitary2(x),
        GateMatrix::TDag => lemma_unitary2(x),
        GateMatrix::RX90 => lemma_unitary2(x),
        GateMatrix::RXM90 => lemma_unitary2(x),
        GateMatrix::RY90 => lemma_unitary2(x),
        GateMatrix::RYM90 => lemma_unitary2(x),
        GateMatrix::RZ90 => lemma_unitary2(x),
        GateMatrix::RZM90 => lemma_unitary2(x),
        GateMatrix::Swap | GateMatrix::SqrtSwap => {},
    }
}

/// Every gate matrix is unitary: M · M† = I. Among them the square root of
/// swap.
pub proof fn law_unitary(m: GateMatrix)
    ensures
        is_unitary(m),
{
    let w = GateMatrix::Swap.spec_entries();
    let q = GateMatrix::SqrtSwap.spec_entries();
    if m.num_qubits() == 1 {
        lemma_unitary1(m);
    } else if m == GateMatrix::Swap {
        lemma_multiplies4(w, adjoint(w), identity4());
    } else {
        lemma_multiplies4(q, adjoint(q), identity4());
    }
}

/// The swap is its own transpose.
proof fn lemma_swap_symmetric()
    ensures
        transpose(GateMatrix::Swap.spec_entries()) == GateMatrix::Swap.spec_entries(),
{
    let w = GateMatrix::Swap.spec_entries();
    let t = transpose(w);
    assert(t[0] == w[0]);
    assert(t[1] == w[4]);
    assert(t[2] == w[8]);
    assert(t[3] == w[12]);
    assert(t[4] == w[1]);
    assert(t[5] == w[5]);
    assert(t[6] == w[9]);
    assert(t[7] == w[13]);
    assert(t[8] == w[2]);
    assert(t[9] == w[6]);
    assert(t[10] == w[10]);
    assert(t[11] == w[14]);
    assert(t[12] == w[3]);
    assert(t[13] == w[7]);
    assert(t[14] == w[11]);
    assert(t[15] == w[15]);
    assert(t =~= w);
}

/// The swap undoes itself and is symmetric, and the square root of swap
/// squares to the swap.
pub proof fn law_swap()
    ensures
        multiplies_to(GateMatrix::Swap, GateMatrix::Swap, identity4()),
        transpose(GateMatrix::Swap.spec_entries()) == GateMatrix::Swap.spec_entries(),
        multiplies_to(GateMatrix::SqrtSwap, GateMatrix::SqrtSwap, GateMatrix::Swap.spec_entries()),
{
    let w = GateMatrix::Swap.spec_entries();
    lemma_multiplies4(w, w, identity4());
    lemma_swap_symmetric();
    lemma_multiplies4(GateMatrix::SqrtSwap.spec_entries(), GateMatrix::SqrtSwap.spec_entries(), w);
}

/// Exchanging the operands of a swap gate only reverses its targets: the
/// matrix is the same.
pub proof fn law_swap_operands(a: QubitRef, b: QubitRef)
    ensures
        (GateView { targets: seq![b, a], controls: seq![], matrix: GateMatrix::Swap }).matrix
            == (GateView { targets: seq![a, b], controls: seq![], matrix: GateMatrix::Swap }).matrix,
{
}

/// A matrix with every entry multiplied by the element `k`.
pub open spec fn times_elem(k: Cyclo, m: Seq<Cyclo>) -> Seq<Cyclo> {
    Seq::new(m.len(), |i: int| cy_mul(k, m[i]))
}

/// The entrywise sum of two matrices of the same size.
pub open spec fn mat_add(a: Seq<Cyclo>, b: Seq<Cyclo>) -> Seq<Cyclo> {
    Seq::new(a.len(), |i: int| cy_add(a[i], b[i]))
}

/// √2 = ζ - ζ³.
pub open spec fn sqrt2() -> Cyclo {
    cy(0, 1, 0, -1)
}

/// The imaginary unit i = ζ².
pub open spec fn imag() -> Cyclo {
    cy(0, 0, 1, 0)
}

/// -i.
pub open spec fn minus_imag() -> Cyclo {
    cy(0, 0, -1, 0)
}

/// -1.
pub open spec fn minus_one() -> Cyclo {
    cy(-1, 0, 0, 0)
}

/// Two 2×2 matrices are equal when their four entries are.
proof fn lemma_same4(a: Seq<Cyclo>, b: Seq<Cyclo>)
    requires
        a.len() == 4,
        b.len() == 4,
        a[0] == b[0],
        a[1] == b[1],
        a[2] == b[2],
        a[3] == b[3],
    ensures
        a == b,
{
    assert(a =~= b);
}

/// The rotations by ±90 degrees about an axis P of X, Y and Z are
/// cos 45° · I ∓ i · sin 45° · P: twice the matrix, times √2, is I ∓ i·P
/// (all given by doubled entries, so that √2 · 2R = 2I ∓ i · 2P).
pub proof fn law_rotation_formulas()
    ensures
        times_elem(sqrt2(), GateMatrix::RX90.spec_entries()) == mat_add(
            GateMatrix::Identity.spec_entries(),
            times_elem(minus_imag(), GateMatrix::PauliX.spec_entries()),
        ),
        times_elem(sqrt2(), GateMatrix::RXM90.spec_entries()) == mat_add(
            GateMatrix::Identity.spec_entries(),
            times_elem(imag(), GateMatrix::PauliX.spec_entries()),
        ),
        times_elem(sqrt2(), GateMatrix::RY90.spec_entries()) == mat_add(
            GateMatrix::Identity.spec_entries(),
            times_elem(minus_imag(), GateMatrix::PauliY.spec_entries()),
        ),
        times_elem(sqrt2(), GateMatrix::RYM90.spec_entries()) == mat_add(
            GateMatrix::Identity.spec_entries(),
            times_elem(imag(), GateMatrix::PauliY.spec_entries()),
        ),
        times_elem(sqrt2(), GateMatrix::RZ90.spec_entries()) == mat_add(
            GateMatrix::Identity.spec_entries(),
            times_elem(minus_imag(), GateMatrix::PauliZ.spec_entries()),
        ),
        times_elem(sqrt2(), GateMatrix::RZM90.spec_entries()) == mat_add(
            GateMatrix::Identity.spec_entries(),
            times_elem(imag(), GateMatrix::PauliZ.spec_entries()),
        ),
{
    let i2 = GateMatrix::Identity.spec_entries();
    let x = GateMatrix::PauliX.spec_entries();
    let y = GateMatrix::PauliY.spec_entries();
    let z = GateMatrix::PauliZ.spec_entries();
    lemma_same4(times_elem(sqrt2(), GateMatrix::RX90.spec_entries()), mat_add(i2, times_elem(minus_imag(), x)));
    lemma_same4(times_elem(sqrt2(), GateMatrix::RXM90.spec_entries()), mat_add(i2, times_elem(imag(), x)));
    lemma_same4(times_elem(sqrt2(), GateMatrix::RY90.spec_entries()), mat_add(i2, times_elem(minus_imag(), y)));
    lemma_same4(times_elem(sqrt2(), GateMatrix::RYM90.spec_entries()), mat_add(i2, times_elem(imag(), y)));
    lemma_same4(times_elem(sqrt2(), GateMatrix::RZ90.spec_entries()), mat_add(i2, times_elem(minus_imag(), z)));
    lemma_same4(times_elem(sqrt2(), GateMatrix::RZM90.spec_entries()), mat_add(i2, times_elem(imag(), z)));
}

/// The Hadamard matrix is (X + Z) / √2, and the phase gates are
/// (I + Z)/2 + p · (I - Z)/2 with p = i for S, -i for S†, ζ for T and ζ⁻¹ =
/// -ζ³ for T† (all given by doubled entries).
pub proof fn law_hadamard_and_phase_formulas()
    ensures
        times_elem(sqrt2(), GateMatrix::Hadamard.spec_entries()) == mat_add(
            GateMatrix::PauliX.spec_entries(),
            GateMatrix::PauliZ.spec_entries(),
        ),
        scaled(2, GateMatrix::S.spec_entries()) == mat_add(
            mat_add(GateMatrix::Identity.spec_entries(), GateMatrix::PauliZ.spec_entries()),
            times_elem(imag(), mat_add(GateMatrix::Identity.spec_entries(), times_elem(minus_one(), GateMatrix::PauliZ.spec_entries()))),
        ),
        scaled(2, GateMatrix::SDag.spec_entries()) == mat_add(
            mat_add(GateMatrix::Identity.spec_entries(), GateMatrix::PauliZ.spec_entries()),
            times_elem(minus_imag(), mat_add(GateMatrix::Identity.spec_entries(), times_elem(minus_one(), GateMatrix::PauliZ.spec_entries()))),
        ),
        scaled(2, GateMatrix::T.spec_entries()) == mat_add(
            mat_add(GateMatrix::Identity.spec_entries(), GateMatrix::PauliZ.spec_entries()),
            times_elem(cy(0, 1, 0, 0), mat_add(GateMatrix::Identity.spec_entries(), times_elem(minus_one(), GateMatrix::PauliZ.spec_entries()))),
        ),
        scaled(2, GateMatrix::TDag.spec_entries()) == mat_add(
            mat_add(GateMatrix::Identity.spec_entries(), GateMatrix::PauliZ.spec_entries()),
            times_elem(cy(0, 0, 0, -1), mat_add(GateMatrix::Identity.spec_entries(), times_elem(minus_one(), GateMatrix::PauliZ.spec_entries()))),
        ),
{
    let i2 = GateMatrix::Identity.spec_entries();
    let x = GateMatrix::PauliX.spec_entries();
    let z = GateMatrix::PauliZ.spec_entries();
    let plus = mat_add(i2, z);
    let minus = mat_add(i2, times_elem(minus_one(), z));
    lemma_same4(times_elem(sqrt2(), GateMatrix::Hadamard.spec_entries()), mat_add(x, z));
    lemma_same4(scaled(2, GateMatrix::S.spec_entries()), mat_add(plus, times_elem(imag(), minus)));
    lemma_same4(scaled(2, GateMatrix::SDag.spec_entries()), mat_add(plus, times_elem(minus_imag(), minus)));
    lemma_same4(scaled(2, GateMatrix::T.spec_entries()), mat_add(plus, times_elem(cy(0, 1, 0, 0), minus)));
    lemma_same4(scaled(2, GateMatrix::TDag.spec_entries()), mat_add(plus, times_elem(cy(0, 0, 0, -1), minus)));
}

/// The Pauli matrices multiply as the quaternion units do: X·Y = iZ,
/// Y·Z = iX, Z·X = iY.
pub proof fn law_pauli_products()
    ensures
        multiplies_to(GateMatrix::PauliX, GateMatrix::PauliY, times_elem(imag(), GateMatrix::PauliZ.spec_entries())),
        multiplies_to(GateMatrix::PauliY, GateMatrix::PauliZ, times_elem(imag(), GateMatrix::PauliX.spec_entries())),
        multiplies_to(GateMatrix::PauliZ, GateMatrix::PauliX, times_elem(imag(), GateMatrix::PauliY.spec_entries())),
{
    let x = GateMatrix::PauliX.spec_entries();
    let y = GateMatrix::PauliY.spec_entries();
    let z = GateMatrix::PauliZ.spec_entries();
    lemma_product2(x, y);
    lemma_product2(y, z);
    lemma_product2(z, x);
    lemma_scaled(times_elem(imag(), z));
    lemma_scaled(times_elem(imag(), x));
    lemma_scaled(times_elem(imag(), y));
    lemma_same4(product(x, y), scaled(2, times_elem(imag(), z)));
    lemma_same4(product(y, z), scaled(2, times_elem(imag(), x)));
    lemma_same4(product(z, x), scaled(2, times_elem(imag(), y)));
}

/// The identity leaves every single-qubit matrix as it is: I·M = M.
pub proof fn law_identity_neutral(m: GateMatrix)
    requires
        m.num_qubits() == 1,
    ensures
        multiplies_to(GateMatrix::Identity, m, m.spec_entries()),
{
    let i2 = GateMatrix::Identity.spec_entries();
    let y = m.spec_entries();
    lemma_product2(i2, y);
    lemma_scaled(y);
    lemma_same4(product(i2, y), scaled(2, y));
}

/// The swap takes the basis state |ab⟩ to |ba⟩: column 2a + b of the
/// doubled matrix has its only non-zero entry, 2, in row 2b + a.
pub proof fn law_swap_exchanges(a: int, b: int, r: int)
    requires
        0 <= a < 2,
        0 <= b < 2,
        0 <= r < 4,
    ensures
        GateMatrix::Swap.spec_entries()[4 * r + 2 * a + b] == (if r == 2 * b + a {
            cy(2, 0, 0, 0)
        } else {
            cy(0, 0, 0, 0)
        }),
{
}

/// The square root of swap is ((1 + i)/2)·I + ((1 - i)/2)·SWAP (given by
/// doubled entries).
pub proof fn law_sqrt_swap_formula()
    ensures
        scaled(2, GateMatrix::SqrtSwap.spec_entries()) == mat_add(
            times_elem(cy(1, 0, 1, 0), identity4()),
            times_elem(cy(1, 0, -1, 0), GateMatrix::Swap.spec_entries()),
        ),
{
    let l = scaled(2, GateMatrix::SqrtSwap.spec_entries());
    let r = mat_add(
        times_elem(cy(1, 0, 1, 0), identity4()),
        times_elem(cy(1, 0, -1, 0), GateMatrix::Swap.spec_entries()),
    );
    assert(l[0] == r[0]);
    assert(l[1] == r[1]);
    assert(l[2] == r[2]);
    assert(l[3] == r[3]);
    assert(l[4] == r[4]);
    assert(l[5] == r[5]);
    assert(l[6] == r[6]);
    assert(l[7] == r[7]);
    assert(l[8] == r[8]);
    assert(l[9] == r[9]);
    assert(l[10] == r[10]);
    assert(l[11] == r[11]);
    assert(l[12] == r[12]);
    assert(l[13] == r[13]);
    assert(l[14] == r[14]);
    assert(l[15] == r[15]);
    assert(l =~= r);
}

} // verus!
