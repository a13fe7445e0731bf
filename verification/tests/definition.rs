use dqcsim::definition::{
    allocate_request, gate_reply, pass_measurement, unit_reply, Callback, PluginDefinition,
    StateMethod,
};
use dqcsim::protocol::{ArbCmd, ArbData};
use dqcsim::types::QubitRef;
use dqcsim::error::Error;
use dqcsim::types::{PluginMetadata, PluginType};

#[test]
fn debug() {
    let mut def = PluginDefinition::new(
        PluginType::Operator,
        PluginMetadata::new("name", "author", "0.1.0"),
    );
    assert_eq!(
        def.debug_string(),
        "PluginDefinition { typ: Operator, metadata: PluginMetadata { name: \"name\", author: \"author\", version: \"0.1.0\" } }"
    );
    def.set_type(PluginType::Backend);
    assert_eq!(
        def.debug_string(),
        "PluginDefinition { typ: Backend, metadata: PluginMetadata { name: \"name\", author: \"author\", version: \"0.1.0\" } }"
    );
}

#[test]
fn debug_string_escapes_quotes() {
    let def = PluginDefinition::new(
        PluginType::Frontend,
        PluginMetadata::new("a\"b", "x\\y", "1"),
    );
    assert_eq!(
        def.debug_string(),
        "PluginDefinition { typ: Frontend, metadata: PluginMetadata { name: \"a\\\"b\", author: \"x\\\\y\", version: \"1\" } }"
    );
}

fn reject(msg: &str) -> Callback {
    Callback::Reject(msg.to_string())
}

#[test]
fn frontend_defaults() {
    let def = PluginDefinition::new(PluginType::Frontend, PluginMetadata::new("f", "a", "v"));
    assert_eq!(def.get_type(), PluginType::Frontend);
    assert_eq!(def.get_metadata().get_name(), "f");
    let c = def.callbacks();
    assert_eq!(c.initialize, Callback::Accept);
    assert_eq!(c.drop, Callback::Accept);
    assert_eq!(c.run, reject("run() is not implemented"));
    assert_eq!(c.allocate, reject("frontend.allocate() called"));
    assert_eq!(c.free, reject("frontend.free() called"));
    assert_eq!(c.gate, reject("frontend.gate() called"));
    assert_eq!(c.modify_measurement, reject("frontend.modify_measurement() called"));
    assert_eq!(c.advance, reject("frontend.advance() called"));
    assert_eq!(c.upstream_arb, reject("frontend.upstream_arb() called"));
    assert_eq!(c.host_arb, Callback::Accept);
}

#[test]
fn operator_defaults() {
    let def = PluginDefinition::new(PluginType::Operator, PluginMetadata::new("o", "a", "v"));
    let c = def.callbacks();
    assert_eq!(c.run, reject("operator.run() called"));
    assert_eq!(c.allocate, Callback::Forward(StateMethod::Allocate));
    assert_eq!(c.free, Callback::Forward(StateMethod::Free));
    assert_eq!(c.gate, Callback::Forward(StateMethod::Gate));
    assert_eq!(c.modify_measurement, Callback::PassMeasurement);
    assert_eq!(c.advance, Callback::Forward(StateMethod::Advance));
    assert_eq!(c.upstream_arb, Callback::Forward(StateMethod::Arb));
    assert_eq!(c.host_arb, Callback::Accept);
}

#[test]
fn backend_defaults() {
    let mut def = PluginDefinition::new(PluginType::Backend, PluginMetadata::new("b", "auth", "2.0"));
    let c = def.callbacks().clone();
    assert_eq!(c.run, reject("backend.run() called"));
    assert_eq!(c.allocate, Callback::Accept);
    assert_eq!(c.free, Callback::Accept);
    assert_eq!(c.gate, reject("gate() is not implemented"));
    assert_eq!(c.modify_measurement, reject("backend.modify_measurement() called"));
    assert_eq!(c.advance, Callback::Accept);
    assert_eq!(c.upstream_arb, Callback::Accept);
    // Changing the type keeps the callbacks and metadata.
    def.set_type(PluginType::Frontend);
    assert_eq!(def.get_type(), PluginType::Frontend);
    assert_eq!(def.callbacks(), &c);
    assert_eq!(def.get_metadata().get_author(), "auth");
    assert_eq!(def.get_metadata().get_version(), "2.0");
}

#[test]
fn override_callbacks() {
    let mut def = PluginDefinition::new(PluginType::Frontend, PluginMetadata::new("f", "a", "v"));
    let mut c = def.callbacks().clone();
    c.run = Callback::Accept;
    c.gate = Callback::Forward(StateMethod::Gate);
    def.set_callbacks(c.clone());
    assert_eq!(def.callbacks(), &c);
    assert_eq!(def.get_type(), PluginType::Frontend);
    assert_eq!(def.get_metadata().get_name(), "f");
}

#[test]
fn callback_results() {
    assert_eq!(Callback::Accept.immediate_result(), Some(Ok(())));
    assert_eq!(
        reject("backend.run() called").immediate_result(),
        Some(Err(Error::InvalidOperation("backend.run() called".to_string())))
    );
    assert_eq!(Callback::Forward(StateMethod::Free).immediate_result(), None);
    assert_eq!(Callback::PassMeasurement.immediate_result(), None);
    let def = PluginDefinition::new(PluginType::Backend, PluginMetadata::new("b", "a", "v"));
    assert_eq!(
        def.callbacks().gate.immediate_result(),
        Some(Err(Error::InvalidOperation("gate() is not implemented".to_string())))
    );
}

#[test]
fn operator_forwarding() {
    let qubits = vec![QubitRef(3), QubitRef(4), QubitRef(9)];
    let cmd = ArbCmd {
        interface_identifier: "a".to_string(),
        operation_identifier: "b".to_string(),
        data: ArbData { json: "{}".to_string(), args: vec![vec![1u8]] },
    };
    let (n, cmds) = allocate_request(&qubits, vec![cmd]);
    assert_eq!(n, 3);
    assert_eq!(cmds.len(), 1);
    assert_eq!(cmds[0].operation_identifier, "b");
    let r: Result<Vec<QubitRef>, Error> = Ok(vec![QubitRef(1)]);
    assert_eq!(unit_reply(r), Ok(()));
    let e: Result<u64, Error> = Err(Error::InvalidOperation("no".to_string()));
    assert_eq!(unit_reply(e), Err(Error::InvalidOperation("no".to_string())));
    let g: Result<Vec<u8>, Error> = gate_reply(Ok::<u64, Error>(7));
    assert_eq!(g, Ok(vec![]));
    let g: Result<Vec<u8>, Error> = gate_reply(Err::<u64, Error>(Error::Other("x".to_string())));
    assert_eq!(g, Err(Error::Other("x".to_string())));
    assert_eq!(pass_measurement(5u8), Ok(vec![5u8]));
}
