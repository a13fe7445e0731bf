//! Plain data types shared by the simulator, its plugins and the C API.

use vstd::prelude::*;
use crate::log::Loglevel;

verus! {

/// The three types of plugins.
#[derive(Clone, Copy, Debug, PartialEq, Eq, Structural, Hash)]
pub enum PluginType {
    /// A frontend plugin: drives the simulation.
    Frontend,
    /// An operator plugin: sits between frontend and backend.
    Operator,
    /// A backend plugin: does the quantum simulation.
    Backend,
}

/// Name, author and version of a plugin.
#[derive(Clone, Debug, PartialEq, Eq)]
pub struct PluginMetadata {
    name: String,
    author: String,
    version: String,
}

impl PluginMetadata {
    /// The name of the plugin.
    pub closed spec fn spec_name(&self) -> Seq<char> {
        self.name@
    }

    /// The author of the plugin.
    pub closed spec fn spec_author(&self) -> Seq<char> {
        self.author@
    }

    /// The version of the plugin.
    pub closed spec fn spec_version(&self) -> Seq<char> {
        self.version@
    }

    /// Metadata with the given name, author and version.
    pub fn new(name: &str, author: &str, version: &str) -> (r: PluginMetadata)
        ensures
            r.spec_name() == name@,
            r.spec_author() == author@,
            r.spec_version() == version@,
    {
        PluginMetadata { name: name.to_owned(), author: author.to_owned(), version: version.to_owned() }
    }

    /// Returns the name of the plugin.
    pub fn get_name(&self) -> (r: &str)
        ensures
            r@ == self.spec_name(),
    {
        self.name.as_str()
    }

    /// Returns the author of the plugin.
    pub fn get_author(&self) -> (r: &str)
        ensures
            r@ == self.spec_author(),
    {
        self.author.as_str()
    }

    /// Returns the version of the plugin.
    pub fn get_version(&self) -> (r: &str)
        ensures
            r@ == self.spec_version(),
    {
        self.version.as_str()
    }
}

/// What happens to the stdout or stderr stream of a plugin process.
#[derive(Clone, Copy, Debug, PartialEq, Eq, Structural)]
pub enum StreamCaptureMode {
    /// The stream is not captured: it is the same as the simulator's own.
    Pass,
    /// The stream is discarded.
    Null,
    /// Each line of the stream becomes a log record of the given level.
    Capture(Loglevel),
}

/// The value of a qubit measurement.
#[derive(Clone, Copy, Debug, PartialEq, Eq, Structural)]
pub enum QubitMeasurementValue {
    /// The value is unknown.
    Undefined,
    /// The qubit was measured to be zero.
    Zero,
    /// The qubit was measured to be one.
    One,
}

/// How paths are written into reproduction files.
#[derive(Clone, Copy, Debug, PartialEq, Eq, Structural)]
pub enum ReproductionPathStyle {
    /// As they were given.
    Keep,
    /// Relative to the working directory.
    Relative,
    /// Absolute.
    Absolute,
}

/// The Pauli bases.
#[derive(Clone, Copy, Debug, PartialEq, Eq, Structural)]
pub enum Basis {
    /// The X basis.
    X,
    /// The Y basis.
    Y,
    /// The Z basis.
    Z,
}

/// The kinds of gates.
#[derive(Clone, Debug, PartialEq, Eq)]
pub enum GateType {
    /// A unitary gate.
    Unitary,
    /// A measurement gate.
    Measurement,
    /// A state preparation gate.
    Prep,
    /// A custom gate, identified by name.
    Custom(String),
}

/// The unitary matrices that DQCsim predefines.
#[allow(non_camel_case_types)]
#[derive(Clone, Copy, Debug, PartialEq, Eq, Structural)]
pub enum UnitaryGateType {
    /// The identity.
    I,
    /// Pauli X.
    X,
    /// Pauli Y.
    Y,
    /// Pauli Z.
    Z,
    /// Hadamard.
    H,
    /// S, a 90 degree Z rotation.
    S,
    /// S-dagger.
    SDAG,
    /// T, a 45 degree Z rotation.
    T,
    /// T-dagger.
    TDAG,
    /// Rx(90°).
    RX90,
    /// Rx(-90°).
    RXM90,
    /// Rx(180°).
    RX180,
    /// Ry(90°).
    RY90,
    /// Ry(-90°).
    RYM90,
    /// Ry(180°).
    RY180,
    /// Rz(90°).
    RZ90,
    /// Rz(-90°).
    RZM90,
    /// Rz(180°).
    RZ180,
    /// An arbitrary X rotation.
    RX,
    /// An arbitrary Y rotation.
    RY,
    /// An arbitrary phase.
    Phase,
    /// A phase of π/2^k.
    PhaseK,
    /// An arbitrary Z rotation.
    RZ,
    /// Any unitary on the given number of qubits.
    U(usize),
    /// An arbitrary rotation R(θ, φ, λ).
    R,
    /// The swap gate.
    SWAP,
    /// The square root of swap.
    SQSWAP,
}

/// A reference to a qubit.
#[derive(Clone, Copy, Debug, PartialEq, Eq, Structural, Hash)]
pub struct QubitRef(pub u64);

} // verus!
