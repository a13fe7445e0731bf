use dqcsim::ctypes::{
    dqcs_basis_t, dqcs_bool_return_t, dqcs_gate_type_t, dqcs_handle_type_t, dqcs_loglevel_t,
    dqcs_measurement_t, dqcs_path_style_t, dqcs_plugin_state_t, dqcs_plugin_type_t,
    dqcs_predefined_gate_t, dqcs_return_t,
};
use dqcsim::error::Error;
use dqcsim::log::{Loglevel, LoglevelFilter};
use dqcsim::types::{
    Basis, GateType, PluginType, QubitMeasurementValue, ReproductionPathStyle, StreamCaptureMode,
    UnitaryGateType,
};

fn inv_arg(msg: &str) -> Error {
    Error::InvalidArgument(msg.to_string())
}

#[test]
fn plugin_state_resolve() {
    assert_eq!(dqcs_plugin_state_t(0).resolve(), Err(inv_arg("plugin state pointer is null")));
    assert_eq!(dqcs_plugin_state_t(0x1000).resolve(), Ok(0x1000));
}

#[test]
fn handle_type_values() {
    assert_eq!(dqcs_handle_type_t::DQCS_HTYPE_INVALID.value(), 0);
    assert_eq!(dqcs_handle_type_t::DQCS_HTYPE_ARB_DATA.value(), 100);
    assert_eq!(dqcs_handle_type_t::DQCS_HTYPE_GATE_MAP.value(), 108);
    assert_eq!(dqcs_handle_type_t::DQCS_HTYPE_BACK_PROCESS_CONFIG.value(), 203);
    assert_eq!(dqcs_handle_type_t::DQCS_HTYPE_PLUGIN_JOIN.value(), 303);
}

#[test]
fn plugin_type_conversions() {
    for t in [PluginType::Frontend, PluginType::Operator, PluginType::Backend] {
        assert_eq!(dqcs_plugin_type_t::from(t).into_plugin_type(), Ok(t));
    }
    assert_eq!(dqcs_plugin_type_t::from(PluginType::Operator).value(), 1);
    assert_eq!(
        dqcs_plugin_type_t::DQCS_PTYPE_INVALID.into_plugin_type(),
        Err(inv_arg("invalid plugin type"))
    );
    assert_eq!(dqcs_plugin_type_t::DQCS_PTYPE_INVALID.value(), -1);
}

#[test]
fn loglevel_capture_modes() {
    assert_eq!(dqcs_loglevel_t::DQCS_LOG_INVALID.into_capture_mode(), Err(inv_arg("invalid level")));
    assert_eq!(dqcs_loglevel_t::DQCS_LOG_OFF.into_capture_mode(), Ok(StreamCaptureMode::Null));
    assert_eq!(dqcs_loglevel_t::DQCS_LOG_PASS.into_capture_mode(), Ok(StreamCaptureMode::Pass));
    assert_eq!(
        dqcs_loglevel_t::DQCS_LOG_WARN.into_capture_mode(),
        Ok(StreamCaptureMode::Capture(Loglevel::Warn))
    );
    for m in [
        StreamCaptureMode::Pass,
        StreamCaptureMode::Null,
        StreamCaptureMode::Capture(Loglevel::Fatal),
        StreamCaptureMode::Capture(Loglevel::Trace),
    ] {
        assert_eq!(dqcs_loglevel_t::from(m).into_capture_mode(), Ok(m));
    }
    assert_eq!(dqcs_loglevel_t::from(StreamCaptureMode::Pass).value(), 8);
}

#[test]
fn loglevel_into_loglevel() {
    assert_eq!(dqcs_loglevel_t::DQCS_LOG_DEBUG.into_loglevel(), Ok(Loglevel::Debug));
    assert_eq!(
        dqcs_loglevel_t::DQCS_LOG_OFF.into_loglevel(),
        Err(inv_arg("invalid loglevel DQCS_LOG_OFF"))
    );
    assert_eq!(
        dqcs_loglevel_t::DQCS_LOG_PASS.into_loglevel(),
        Err(inv_arg("invalid loglevel DQCS_LOG_PASS"))
    );
    assert_eq!(dqcs_loglevel_t::DQCS_LOG_INVALID.into_loglevel(), Err(inv_arg("invalid level")));
    for l in [Loglevel::Fatal, Loglevel::Error, Loglevel::Warn, Loglevel::Note, Loglevel::Info, Loglevel::Debug, Loglevel::Trace] {
        let c = dqcs_loglevel_t::from(l);
        assert_eq!(c.value(), l.value() as i32);
        assert_eq!(c.into_loglevel(), Ok(l));
    }
}

#[test]
fn loglevel_into_filter() {
    assert_eq!(dqcs_loglevel_t::DQCS_LOG_OFF.into_loglevel_filter(), Ok(LoglevelFilter::Off));
    assert_eq!(dqcs_loglevel_t::DQCS_LOG_NOTE.into_loglevel_filter(), Ok(LoglevelFilter::Note));
    assert_eq!(
        dqcs_loglevel_t::DQCS_LOG_PASS.into_loglevel_filter(),
        Err(inv_arg("invalid loglevel filter DQCS_LOG_PASS"))
    );
    assert_eq!(dqcs_loglevel_t::DQCS_LOG_INVALID.into_loglevel_filter(), Err(inv_arg("invalid level")));
    for f in [LoglevelFilter::Off, LoglevelFilter::Fatal, LoglevelFilter::Info, LoglevelFilter::Trace] {
        let c = dqcs_loglevel_t::from(f);
        assert_eq!(c.value(), f.value() as i32);
        assert_eq!(c.into_loglevel_filter(), Ok(f));
    }
}

#[test]
fn return_values() {
    assert_eq!(dqcs_return_t::DQCS_FAILURE.value(), -1);
    assert_eq!(dqcs_return_t::DQCS_SUCCESS.value(), 0);
    assert_eq!(dqcs_bool_return_t::from(true), dqcs_bool_return_t::DQCS_TRUE);
    assert_eq!(dqcs_bool_return_t::from(false), dqcs_bool_return_t::DQCS_FALSE);
    assert_eq!(dqcs_bool_return_t::from(true).value(), 1);
    assert_eq!(dqcs_bool_return_t::DQCS_BOOL_FAILURE.value(), -1);
}

#[test]
fn measurement_conversions() {
    assert_eq!(dqcs_measurement_t::DQCS_MEAS_INVALID.into_measurement_value(), None);
    assert_eq!(dqcs_measurement_t::DQCS_MEAS_ONE.into_measurement_value(), Some(QubitMeasurementValue::One));
    assert_eq!(dqcs_measurement_t::from(QubitMeasurementValue::Undefined).value(), 2);
    for v in [QubitMeasurementValue::Undefined, QubitMeasurementValue::Zero, QubitMeasurementValue::One] {
        assert_eq!(dqcs_measurement_t::from(v).into_measurement_value(), Some(v));
    }
}

#[test]
fn path_style_conversions() {
    assert_eq!(dqcs_path_style_t::DQCS_PATH_STYLE_INVALID.into_path_style(), None);
    assert_eq!(dqcs_path_style_t::from(ReproductionPathStyle::Absolute).value(), 2);
    for p in [ReproductionPathStyle::Keep, ReproductionPathStyle::Relative, ReproductionPathStyle::Absolute] {
        assert_eq!(dqcs_path_style_t::from(p).into_path_style(), Some(p));
    }
}

#[test]
fn predefined_gates() {
    assert_eq!(UnitaryGateType::try_from(dqcs_predefined_gate_t::DQCS_GATE_INVALID), Err(inv_arg("invalid gate")));
    assert_eq!(UnitaryGateType::try_from(dqcs_predefined_gate_t::DQCS_GATE_PAULI_I), Ok(UnitaryGateType::I));
    assert_eq!(UnitaryGateType::try_from(dqcs_predefined_gate_t::DQCS_GATE_S_DAG), Ok(UnitaryGateType::SDAG));
    assert_eq!(UnitaryGateType::try_from(dqcs_predefined_gate_t::DQCS_GATE_RZ_180), Ok(UnitaryGateType::RZ180));
    assert_eq!(UnitaryGateType::try_from(dqcs_predefined_gate_t::DQCS_GATE_PHASE_K), Ok(UnitaryGateType::PhaseK));
    assert_eq!(UnitaryGateType::try_from(dqcs_predefined_gate_t::DQCS_GATE_U1), Ok(UnitaryGateType::U(1)));
    assert_eq!(UnitaryGateType::try_from(dqcs_predefined_gate_t::DQCS_GATE_U2), Ok(UnitaryGateType::U(2)));
    assert_eq!(UnitaryGateType::try_from(dqcs_predefined_gate_t::DQCS_GATE_U3), Ok(UnitaryGateType::U(3)));
    assert_eq!(UnitaryGateType::try_from(dqcs_predefined_gate_t::DQCS_GATE_SQRT_SWAP), Ok(UnitaryGateType::SQSWAP));
    assert_eq!(dqcs_predefined_gate_t::DQCS_GATE_PAULI_I.value(), 100);
    assert_eq!(dqcs_predefined_gate_t::DQCS_GATE_RX.value(), 150);
    assert_eq!(dqcs_predefined_gate_t::DQCS_GATE_U3.value(), 390);
}

#[test]
fn bases() {
    assert_eq!(Basis::try_from(dqcs_basis_t::DQCS_BASIS_INVALID), Err(inv_arg("invalid basis")));
    assert_eq!(Basis::try_from(dqcs_basis_t::DQCS_BASIS_X), Ok(Basis::X));
    assert_eq!(Basis::try_from(dqcs_basis_t::DQCS_BASIS_Y), Ok(Basis::Y));
    assert_eq!(Basis::try_from(dqcs_basis_t::DQCS_BASIS_Z), Ok(Basis::Z));
    assert_eq!(dqcs_basis_t::DQCS_BASIS_Z.value(), 3);
}

#[test]
fn gate_types() {
    assert_eq!(dqcs_gate_type_t::from(&GateType::Unitary), dqcs_gate_type_t::DQCS_GATE_TYPE_UNITARY);
    assert_eq!(dqcs_gate_type_t::from(&GateType::Measurement), dqcs_gate_type_t::DQCS_GATE_TYPE_MEASUREMENT);
    assert_eq!(dqcs_gate_type_t::from(&GateType::Prep), dqcs_gate_type_t::DQCS_GATE_TYPE_PREP);
    assert_eq!(
        dqcs_gate_type_t::from(&GateType::Custom("x".to_string())),
        dqcs_gate_type_t::DQCS_GATE_TYPE_CUSTOM
    );
    assert_eq!(dqcs_gate_type_t::DQCS_GATE_TYPE_CUSTOM.value(), 4);
}
