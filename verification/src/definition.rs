//! The definition of a plugin prior to its construction: its type, its
//! metadata, and what each of its callbacks does.

use vstd::prelude::*;
use crate::error::{is_inv_op, Error, Result};
use crate::protocol::ArbCmd;
use crate::types::{PluginMetadata, PluginType, QubitRef};

verus! {

/// A method of the plugin's state, to which a callback can hand its call on.
/// The state passes the call downstream.
#[derive(Clone, Copy, Debug, PartialEq, Eq, Structural)]
pub enum StateMethod {
    /// Allocating qubits: the state is given the number of qubits and the
    /// commands that go with them.
    Allocate,
    /// Freeing qubits: the state is given the qubits.
    Free,
    /// Gates: the state receives each gate to apply.
    Gate,
    /// Advancing time: the state is given the number of cycles.
    Advance,
    /// Sending an arb downstream: the state is given the command.
    Arb,
}

/// What a callback of a plugin definition does.
#[derive(Clone, Debug, PartialEq, Eq)]
pub enum Callback {
    /// Succeeds without doing anything; where a result is due, it is empty
    /// (no measurements, empty arbitrary data).
    Accept,
    /// Fails with an invalid-operation error carrying this message.
    Reject(String),
    /// Hands the call on to this method of the plugin's state, once. An
    /// allocation passes the state what `allocate_request` gives; the other
    /// calls pass their argument unchanged. The callback returns what
    /// `unit_reply` (allocation, advancing time) or `gate_reply` (gates)
    /// make of the state's reply; freeing and arbs return the reply as it
    /// is.
    Forward(StateMethod),
    /// Returns the measurement it is given, unchanged.
    PassMeasurement,
}

impl Callback {
    /// What a call of the callback returns when it does not depend on the
    /// plugin's state: success (with an empty result where one is due) for
    /// `Accept`, an invalid-operation error with its message for `Reject`;
    /// `None` for the callbacks that hand the call on.
    pub fn immediate_result(&self) -> (r: Option<Result<()>>)
        ensures
            *self == Callback::Accept ==> r == Some(Ok::<(), Error>(())),
            self matches Callback::Reject(m) ==> r matches Some(e) && is_inv_op(e, m@),
            (self is Forward || *self == Callback::PassMeasurement) ==> r is None,
    {
        match self {
            Callback::Accept => Some(Ok(())),
            Callback::Reject(m) => Some(Err(Error::InvalidOperation(m.clone()))),
            Callback::Forward(_) => None,
            Callback::PassMeasurement => None,
        }
    }
}

/// The arguments that a callback forwarding to `StateMethod::Allocate`
/// hands to the state for a request of the given qubits with the given
/// commands: the number of qubits, and the commands unchanged.
pub fn allocate_request(qubits: &Vec<QubitRef>, cmds: Vec<ArbCmd>) -> (r: (usize, Vec<ArbCmd>))
    ensures
        r.0 == qubits.len(),
        r.1 == cmds,
{
    (qubits.len(), cmds)
}

/// What a callback forwarding to `StateMethod::Allocate` or
/// `StateMethod::Advance` returns for the state's reply: success without a
/// result when the state succeeded, else the state's error.
pub fn unit_reply<T>(reply: Result<T>) -> (r: Result<()>)
    ensures
        reply is Ok ==> r == Ok::<(), Error>(()),
        reply matches Err(e) ==> r == Err::<(), Error>(e),
{
    match reply {
        Ok(_) => Ok(()),
        Err(e) => Err(e),
    }
}

/// What a callback forwarding to `StateMethod::Gate` returns for the state's
/// reply: no measurements when the state succeeded, else the state's error.
pub fn gate_reply<T, M>(reply: Result<T>) -> (r: Result<Vec<M>>)
    ensures
        reply is Ok ==> (r matches Ok(v) && v@.len() == 0),
        reply matches Err(e) ==> (r matches Err(f) && f == e),
{
    match reply {
        Ok(_) => Ok(Vec::new()),
        Err(e) => Err(e),
    }
}

/// What a `PassMeasurement` callback returns for a measurement: that
/// measurement alone.
pub fn pass_measurement<M>(measurement: M) -> (r: Result<Vec<M>>)
    ensures
        r matches Ok(v) && v@ == seq![measurement],
{
    Ok(vec![measurement])
}

/// `c` rejects calls with the message `msg`.
pub open spec fn rejects(c: Callback, msg: Seq<char>) -> bool {
    c matches Callback::Reject(m) && m@ == msg
}

/// The behavior of each callback of a plugin.
#[derive(Clone, Debug, PartialEq, Eq)]
pub struct Callbacks {
    /// Initialization callback.
    pub initialize: Callback,
    /// Finalization callback.
    pub drop: Callback,
    /// Run callback for frontends.
    pub run: Callback,
    /// Qubit allocation callback for operators and backends.
    pub allocate: Callback,
    /// Qubit deallocation callback for operators and backends.
    pub free: Callback,
    /// Gate execution callback for operators and backends.
    pub gate: Callback,
    /// Measurement modification callback for operators.
    pub modify_measurement: Callback,
    /// Callback for advancing time for operators and backends.
    pub advance: Callback,
    /// Callback for an arb from upstream, for operators and backends.
    pub upstream_arb: Callback,
    /// Callback for an arb from the host.
    pub host_arb: Callback,
}

/// Defines a plugin: its type, its metadata, and the behavior of each of its
/// callbacks.
///
/// The callbacks are described, not held as closures: each is a `Callback`
/// value that says what a call of it does, and the code that runs the
/// plugin carries that out. A user overrides them with `set_callbacks`,
/// choosing among these behaviors; behavior of the user's own code cannot
/// be stored here.
#[derive(Clone)]
pub struct PluginDefinition {
    typ: PluginType,
    metadata: PluginMetadata,
    callbacks: Callbacks,
}

/// The name of a plugin type, as `Debug` writes it.
pub open spec fn plugin_type_name(typ: PluginType) -> Seq<char> {
    match typ {
        PluginType::Frontend => "Frontend"@,
        PluginType::Operator => "Operator"@,
        PluginType::Backend => "Backend"@,
    }
}

/// The default callbacks of a frontend.
pub open spec fn frontend_defaults(d: Callbacks) -> bool {
    &&& d.initialize == Callback::Accept
    &&& d.drop == Callback::Accept
    &&& rejects(d.run, "run() is not implemented"@)
    &&& rejects(d.allocate, "frontend.allocate() called"@)
    &&& rejects(d.free, "frontend.free() called"@)
    &&& rejects(d.gate, "frontend.gate() called"@)
    &&& rejects(d.modify_measurement, "frontend.modify_measurement() called"@)
    &&& rejects(d.advance, "frontend.advance() called"@)
    &&& rejects(d.upstream_arb, "frontend.upstream_arb() called"@)
    &&& d.host_arb == Callback::Accept
}

/// The default callbacks of an operator.
pub open spec fn operator_defaults(d: Callbacks) -> bool {
    &&& d.initialize == Callback::Accept
    &&& d.drop == Callback::Accept
    &&& rejects(d.run, "operator.run() called"@)
    &&& d.allocate == Callback::Forward(StateMethod::Allocate)
    &&& d.free == Callback::Forward(StateMethod::Free)
    &&& d.gate == Callback::Forward(StateMethod::Gate)
    &&& d.modify_measurement == Callback::PassMeasurement
    &&& d.advance == Callback::Forward(StateMethod::Advance)
    &&& d.upstream_arb == Callback::Forward(StateMethod::Arb)
    &&& d.host_arb == Callback::Accept
}

/// The default callbacks of a backend.
pub open spec fn backend_defaults(d: Callbacks) -> bool {
    &&& d.initialize == Callback::Accept
    &&& d.drop == Callback::Accept
    &&& rejects(d.run, "backend.run() called"@)
    &&& d.allocate == Callback::Accept
    &&& d.free == Callback::Accept
    &&& rejects(d.gate, "gate() is not implemented"@)
    &&& rejects(d.modify_measurement, "backend.modify_measurement() called"@)
    &&& d.advance == Callback::Accept
    &&& d.upstream_arb == Callback::Accept
    &&& d.host_arb == Callback::Accept
}

/// The callbacks are the defaults for the given plugin type.
pub open spec fn has_defaults(d: Callbacks, typ: PluginType) -> bool {
    match typ {
        PluginType::Frontend => frontend_defaults(d),
        PluginType::Operator => operator_defaults(d),
        PluginType::Backend => backend_defaults(d),
    }
}

/// A callback that rejects calls with the given message.
fn reject(msg: &str) -> (r: Callback)
    ensures
        rejects(r, msg@),
{
    Callback::Reject(msg.to_owned())
}

impl PluginDefinition {
    /// The plugin type.
    pub closed spec fn spec_type(&self) -> PluginType {
        self.typ
    }

    /// The plugin metadata.
    pub closed spec fn spec_metadata(&self) -> PluginMetadata {
        self.metadata
    }

    /// The behavior of the callbacks.
    pub closed spec fn spec_callbacks(&self) -> Callbacks {
        self.callbacks
    }

    /// The definition with its type replaced.
    pub closed spec fn with_type(self, typ: PluginType) -> PluginDefinition {
        PluginDefinition { typ, ..self }
    }

    /// The definition with its callbacks replaced.
    pub closed spec fn with_callbacks(self, callbacks: Callbacks) -> PluginDefinition {
        PluginDefinition { callbacks, ..self }
    }

    /// Returns the behavior of the callbacks.
    pub fn callbacks(&self) -> (r: &Callbacks)
        ensures
            *r == self.spec_callbacks(),
    {
        &self.callbacks
    }

    /// Constructs a new plugin definition with the default callbacks of its
    /// type.
    pub fn new(typ: PluginType, metadata: PluginMetadata) -> (r: PluginDefinition)
        ensures
            r.spec_type() == typ,
            r.spec_metadata() == metadata,
            has_defaults(r.spec_callbacks(), typ),
            r.spec_callbacks().initialize == Callback::Accept,
            r.spec_callbacks().drop == Callback::Accept,
            r.spec_callbacks().host_arb == Callback::Accept,
    {
        let callbacks = match typ {
            PluginType::Frontend => Callbacks {
                initialize: Callback::Accept,
                drop: Callback::Accept,
                run: reject("run() is not implemented"),
                allocate: reject("frontend.allocate() called"),
                free: reject("frontend.free() called"),
                gate: reject("frontend.gate() called"),
                modify_measurement: reject("frontend.modify_measurement() called"),
                advance: reject("frontend.advance() called"),
                upstream_arb: reject("frontend.upstream_arb() called"),
                host_arb: Callback::Accept,
            },
            PluginType::Operator => Callbacks {
                initialize: Callback::Accept,
                drop: Callback::Accept,
                run: reject("operator.run() called"),
                allocate: Callback::Forward(StateMethod::Allocate),
                free: Callback::Forward(StateMethod::Free),
                gate: Callback::Forward(StateMethod::Gate),
                modify_measurement: Callback::PassMeasurement,
                advance: Callback::Forward(StateMethod::Advance),
                upstream_arb: Callback::Forward(StateMethod::Arb),
                host_arb: Callback::Accept,
            },
            PluginType::Backend => Callbacks {
                initialize: Callback::Accept,
                drop: Callback::Accept,
                run: reject("backend.run() called"),
                allocate: Callback::Accept,
                free: Callback::Accept,
                gate: reject("gate() is not implemented"),
                modify_measurement: reject("backend.modify_measurement() called"),
                advance: Callback::Accept,
                upstream_arb: Callback::Accept,
                host_arb: Callback::Accept,
            },
        };
        PluginDefinition { typ, metadata, callbacks }
    }

    /// Returns the plugin type.
    pub fn get_type(&self) -> (r: PluginType)
        ensures
            r == self.spec_type(),
    {
        self.typ
    }

    /// Sets the type of the plugin; the metadata and the callbacks stay as
    /// they are.
    pub fn set_type(&mut self, typ: PluginType)
        ensures
            *final(self) == old(self).with_type(typ),
            final(self).spec_type() == typ,
            final(self).spec_metadata() == old(self).spec_metadata(),
            final(self).spec_callbacks() == old(self).spec_callbacks(),
    {
        self.typ = typ;
    }

    /// Overrides the callbacks; the type and the metadata stay as they are.
    pub fn set_callbacks(&mut self, callbacks: Callbacks)
        ensures
            *final(self) == old(self).with_callbacks(callbacks),
            final(self).spec_callbacks() == callbacks,
            final(self).spec_type() == old(self).spec_type(),
            final(self).spec_metadata() == old(self).spec_metadata(),
    {
        self.callbacks = callbacks;
    }

    /// Returns the plugin metadata.
    pub fn get_metadata(&self) -> (r: &PluginMetadata)
        ensures
            *r == self.spec_metadata(),
    {
        &self.metadata
    }
}

} // verus!

verus! {

/// The string has only printable ASCII characters, and no quotes or
/// backslashes.
pub open spec fn plain(s: Seq<char>) -> bool {
    forall|i: int|
        0 <= i < s.len() ==> ' ' <= #[trigger] s[i] <= '~' && s[i] != '"' && s[i] != '\\' && s[i]
            != '\''
}

/// The string in double quotes.
pub open spec fn quoted(s: Seq<char>) -> Seq<char> {
    seq!['"'] + s + seq!['"']
}

/// The text that `Debug` writes for a string.
pub uninterp spec fn debug_quoted(s: Seq<char>) -> Seq<char>;

/// Writes a string as `Debug` does (`<str as core::fmt::Debug>::fmt`): in
/// double quotes, with special characters escaped. A string of printable
/// ASCII characters without quotes or backslashes comes out as itself in
/// double quotes; for other strings the escaping is left unsaid.
#[verifier::external_body]
fn debug_quote(s: &str) -> (r: String)
    ensures
        r@ == debug_quoted(s@),
        plain(s@) ==> r@ == quoted(s@),
{
    format!("{:?}", s)
}

/// The name of a plugin type.
fn plugin_type_str(typ: PluginType) -> (r: &'static str)
    ensures
        r@ == plugin_type_name(typ),
{
    match typ {
        PluginType::Frontend => "Frontend",
        PluginType::Operator => "Operator",
        PluginType::Backend => "Backend",
    }
}

impl PluginDefinition {
    /// The text that describes the definition for debugging: its type and
    /// metadata, in the shape that `Debug` gives a struct.
    pub open spec fn spec_debug_string(&self) -> Seq<char> {
        "PluginDefinition { typ: "@ + plugin_type_name(self.spec_type())
            + ", metadata: PluginMetadata { name: "@ + debug_quoted(self.spec_metadata().spec_name())
            + ", author: "@ + debug_quoted(self.spec_metadata().spec_author()) + ", version: "@
            + debug_quoted(self.spec_metadata().spec_version()) + " } }"@
    }

    /// Describes the definition for debugging: its type and metadata, in the
    /// shape that `Debug` gives a struct. Metadata fields of printable ASCII
    /// characters without quotes or backslashes appear in double quotes.
    pub fn debug_string(&self) -> (r: String)
        ensures
            r@ == self.spec_debug_string(),
            plain(self.spec_metadata().spec_name()) && plain(self.spec_metadata().spec_author())
                && plain(self.spec_metadata().spec_version()) ==> r@ == "PluginDefinition { typ: "@
                + plugin_type_name(self.spec_type()) + ", metadata: PluginMetadata { name: "@
                + quoted(self.spec_metadata().spec_name()) + ", author: "@ + quoted(
                self.spec_metadata().spec_author(),
            ) + ", version: "@ + quoted(self.spec_metadata().spec_version()) + " } }"@,
    {
        let mut s = String::from_str("PluginDefinition { typ: ");
        s.append(plugin_type_str(self.typ));
        s.append(", metadata: PluginMetadata { name: ");
        s.append(debug_quote(self.metadata.get_name()).as_str());
        s.append(", author: ");
        s.append(debug_quote(self.metadata.get_author()).as_str());
        s.append(", version: ");
        s.append(debug_quote(self.metadata.get_version()).as_str());
        s.append(" } }");
        s
    }
}

/// Setting the type of a definition changes its debug description in the
/// type alone: the metadata reads as before.
pub proof fn law_debug_string_after_set_type(d: PluginDefinition, e: PluginDefinition, typ: PluginType)
    requires
        e.spec_type() == typ,
        e.spec_metadata() == d.spec_metadata(),
        e.spec_callbacks() == d.spec_callbacks(),
    ensures
        e.spec_debug_string() == "PluginDefinition { typ: "@ + plugin_type_name(typ)
            + ", metadata: PluginMetadata { name: "@ + debug_quoted(d.spec_metadata().spec_name())
            + ", author: "@ + debug_quoted(d.spec_metadata().spec_author()) + ", version: "@
            + debug_quoted(d.spec_metadata().spec_version()) + " } }"@,
{
}

/// A change to a plugin definition after its construction.
pub enum DefinitionChange {
    /// `set_type` with this type.
    SetType(PluginType),
    /// `set_callbacks` with these callbacks.
    SetCallbacks(Callbacks),
}

/// The definition after one change.
pub open spec fn apply_change(d: PluginDefinition, change: DefinitionChange) -> PluginDefinition {
    match change {
        DefinitionChange::SetType(t) => d.with_type(t),
        DefinitionChange::SetCallbacks(c) => d.with_callbacks(c),
    }
}

/// The definition after a sequence of changes, in order.
pub open spec fn apply_changes(d: PluginDefinition, changes: Seq<DefinitionChange>) -> PluginDefinition
    decreases changes.len(),
{
    if changes.len() == 0 {
        d
    } else {
        apply_change(apply_changes(d, changes.drop_last()), changes.last())
    }
}

/// The metadata of a definition is fixed at its construction: no sequence
/// of type or callback changes alters it.
pub proof fn law_metadata_fixed(d: PluginDefinition, changes: Seq<DefinitionChange>)
    ensures
        apply_changes(d, changes).spec_metadata() == d.spec_metadata(),
    decreases changes.len(),
{
    if changes.len() > 0 {
        law_metadata_fixed(d, changes.drop_last());
    }
}

/// The default callbacks of the three plugin types differ: a set of
/// callbacks is the default of at most one type.
pub proof fn law_defaults_determine_type(c: Callbacks, a: PluginType, b: PluginType)
    requires
        has_defaults(c, a),
        has_defaults(c, b),
    ensures
        a == b,
{
}

/// Whatever the plugin type, the default callbacks initialize, drop and
/// answer arbs from the host successfully, and reject `run` (only a
/// frontend's own run callback can run); only an operator passes
/// measurements on, and only an operator executes gates by default (a
/// frontend and a backend reject them).
pub proof fn law_default_callbacks(c: Callbacks, t: PluginType)
    requires
        has_defaults(c, t),
    ensures
        c.initialize == Callback::Accept,
        c.drop == Callback::Accept,
        c.host_arb == Callback::Accept,
        c.run is Reject,
        c.modify_measurement == Callback::PassMeasurement <==> t == PluginType::Operator,
        c.gate is Reject <==> t != PluginType::Operator,
{
}

} // verus!
