//! The C API's types: handles, enumerations of plugin types, loglevels,
//! return codes, measurements, path styles, gates and bases, and their
//! conversions to and from the library's own types.
#![allow(non_camel_case_types)]

use vstd::prelude::*;
use crate::error::{is_inv_arg, Error, Result};
use crate::log::{Loglevel, LoglevelFilter};
use crate::types::{
    Basis, GateType, PluginType, QubitMeasurementValue, ReproductionPathStyle, StreamCaptureMode,
    UnitaryGateType,
};

verus! {

/// An invalid-argument error with the given message.
fn inv_arg<T>(msg: &str) -> (r: Result<T>)
    ensures
        is_inv_arg(r, msg@),
{
    Err(Error::InvalidArgument(msg.to_owned()))
}

/// Type for a handle: a reference into the simulator's objects. Handles are
/// positive, count upwards from 1 and are not reused; zero is reserved for
/// invalid references or error propagation.
pub type dqcs_handle_t = u64;

/// Type for a qubit reference. Qubit references are positive, count upwards
/// from 1 and are not reused; zero is reserved for invalid references or
/// error propagation.
pub type dqcs_qubit_t = u64;

/// Type for a simulation cycle timestamp. Timestamps count upward from zero;
/// the type is signed so that -1 can signal an error and differences can be
/// represented.
pub type dqcs_cycle_t = i64;

/// Type for a plugin state: the address of the plugin's state object, as
/// the C API passes it around. Zero is the null pointer.
#[derive(Clone, Copy, Debug, PartialEq, Eq, Structural)]
pub struct dqcs_plugin_state_t(pub usize);

impl dqcs_plugin_state_t {
    /// The address of the plugin state, or an invalid-argument error when it
    /// is the null pointer.
    pub fn resolve(self) -> (r: Result<usize>)
        ensures
            self.0 == 0 ==> is_inv_arg(r, "plugin state pointer is null"@),
            self.0 != 0 ==> r == Ok::<usize, Error>(self.0),
    {
        if self.0 == 0 {
            inv_arg("plugin state pointer is null")
        } else {
            Ok(self.0)
        }
    }
}

/// Enumeration of types that can be associated with a handle.
#[derive(Clone, Copy, Debug, PartialEq, Eq, Structural)]
pub enum dqcs_handle_type_t {
    /// The handle is invalid.
    DQCS_HTYPE_INVALID,
    /// An `ArbData` object.
    DQCS_HTYPE_ARB_DATA,
    /// An `ArbCmd` object.
    DQCS_HTYPE_ARB_CMD,
    /// A queue of `ArbCmd` objects.
    DQCS_HTYPE_ARB_CMD_QUEUE,
    /// A set of qubit references.
    DQCS_HTYPE_QUBIT_SET,
    /// A quantum gate description.
    DQCS_HTYPE_GATE,
    /// A qubit measurement result.
    DQCS_HTYPE_MEAS,
    /// A set of qubit measurement results.
    DQCS_HTYPE_MEAS_SET,
    /// A matrix.
    DQCS_HTYPE_MATRIX,
    /// A gate map.
    DQCS_HTYPE_GATE_MAP,
    /// A frontend plugin process configuration.
    DQCS_HTYPE_FRONT_PROCESS_CONFIG,
    /// An operator plugin process configuration.
    DQCS_HTYPE_OPER_PROCESS_CONFIG,
    /// A backend plugin process configuration.
    DQCS_HTYPE_BACK_PROCESS_CONFIG,
    /// A frontend plugin thread configuration.
    DQCS_HTYPE_FRONT_THREAD_CONFIG,
    /// An operator plugin thread configuration.
    DQCS_HTYPE_OPER_THREAD_CONFIG,
    /// A backend plugin thread configuration.
    DQCS_HTYPE_BACK_THREAD_CONFIG,
    /// A simulator configuration.
    DQCS_HTYPE_SIM_CONFIG,
    /// A simulator instance.
    DQCS_HTYPE_SIM,
    /// A frontend plugin definition.
    DQCS_HTYPE_FRONT_DEF,
    /// An operator plugin definition.
    DQCS_HTYPE_OPER_DEF,
    /// A backend plugin definition.
    DQCS_HTYPE_BACK_DEF,
    /// A plugin thread join handle.
    DQCS_HTYPE_PLUGIN_JOIN,
}

impl dqcs_handle_type_t {
    /// The value of the variant in the C API.
    pub open spec fn spec_value(self) -> int {
        match self {
            dqcs_handle_type_t::DQCS_HTYPE_INVALID => 0,
            dqcs_handle_type_t::DQCS_HTYPE_ARB_DATA => 100,
            dqcs_handle_type_t::DQCS_HTYPE_ARB_CMD => 101,
            dqcs_handle_type_t::DQCS_HTYPE_ARB_CMD_QUEUE => 102,
            dqcs_handle_type_t::DQCS_HTYPE_QUBIT_SET => 103,
            dqcs_handle_type_t::DQCS_HTYPE_GATE => 104,
            dqcs_handle_type_t::DQCS_HTYPE_MEAS => 105,
            dqcs_handle_type_t::DQCS_HTYPE_MEAS_SET => 106,
            dqcs_handle_type_t::DQCS_HTYPE_MATRIX => 107,
            dqcs_handle_type_t::DQCS_HTYPE_GATE_MAP => 108,
            dqcs_handle_type_t::DQCS_HTYPE_FRONT_PROCESS_CONFIG => 200,
            dqcs_handle_type_t::DQCS_HTYPE_OPER_PROCESS_CONFIG => 201,
            dqcs_handle_type_t::DQCS_HTYPE_BACK_PROCESS_CONFIG => 203,
            dqcs_handle_type_t::DQCS_HTYPE_FRONT_THREAD_CONFIG => 204,
            dqcs_handle_type_t::DQCS_HTYPE_OPER_THREAD_CONFIG => 205,
            dqcs_handle_type_t::DQCS_HTYPE_BACK_THREAD_CONFIG => 206,
            dqcs_handle_type_t::DQCS_HTYPE_SIM_CONFIG => 207,
            dqcs_handle_type_t::DQCS_HTYPE_SIM => 208,
            dqcs_handle_type_t::DQCS_HTYPE_FRONT_DEF => 300,
            dqcs_handle_type_t::DQCS_HTYPE_OPER_DEF => 301,
            dqcs_handle_type_t::DQCS_HTYPE_BACK_DEF => 302,
            dqcs_handle_type_t::DQCS_HTYPE_PLUGIN_JOIN => 303,
        }
    }

    /// Returns the value of the variant in the C API.
    pub fn value(self) -> (r: i32)
        ensures
            r == self.spec_value(),
    {
        match self {
            dqcs_handle_type_t::DQCS_HTYPE_INVALID => 0,
            dqcs_handle_type_t::DQCS_HTYPE_ARB_DATA => 100,
            dqcs_handle_type_t::DQCS_HTYPE_ARB_CMD => 101,
            dqcs_handle_type_t::DQCS_HTYPE_ARB_CMD_QUEUE => 102,
            dqcs_handle_type_t::DQCS_HTYPE_QUBIT_SET => 103,
            dqcs_handle_type_t::DQCS_HTYPE_GATE => 104,
            dqcs_handle_type_t::DQCS_HTYPE_MEAS => 105,
            dqcs_handle_type_t::DQCS_HTYPE_MEAS_SET => 106,
            dqcs_handle_type_t::DQCS_HTYPE_MATRIX => 107,
            dqcs_handle_type_t::DQCS_HTYPE_GATE_MAP => 108,
            dqcs_handle_type_t::DQCS_HTYPE_FRONT_PROCESS_CONFIG => 200,
            dqcs_handle_type_t::DQCS_HTYPE_OPER_PROCESS_CONFIG => 201,
            dqcs_handle_type_t::DQCS_HTYPE_BACK_PROCESS_CONFIG => 203,
            dqcs_handle_type_t::DQCS_HTYPE_FRONT_THREAD_CONFIG => 204,
            dqcs_handle_type_t::DQCS_HTYPE_OPER_THREAD_CONFIG => 205,
            dqcs_handle_type_t::DQCS_HTYPE_BACK_THREAD_CONFIG => 206,
            dqcs_handle_type_t::DQCS_HTYPE_SIM_CONFIG => 207,
            dqcs_handle_type_t::DQCS_HTYPE_SIM => 208,
            dqcs_handle_type_t::DQCS_HTYPE_FRONT_DEF => 300,
            dqcs_handle_type_t::DQCS_HTYPE_OPER_DEF => 301,
            dqcs_handle_type_t::DQCS_HTYPE_BACK_DEF => 302,
            dqcs_handle_type_t::DQCS_HTYPE_PLUGIN_JOIN => 303,
        }
    }
}

/// Enumeration of the three types of plugins.
#[derive(Clone, Copy, Debug, PartialEq, Eq, Structural)]
pub enum dqcs_plugin_type_t {
    /// Invalid plugin type; indicates failure of an API call.
    DQCS_PTYPE_INVALID,
    /// Frontend plugin.
    DQCS_PTYPE_FRONT,
    /// Operator plugin.
    DQCS_PTYPE_OPER,
    /// Backend plugin.
    DQCS_PTYPE_BACK,
}

impl dqcs_plugin_type_t {
    /// The value of the variant in the C API.
    pub open spec fn spec_value(self) -> int {
        match self {
            dqcs_plugin_type_t::DQCS_PTYPE_INVALID => -1,
            dqcs_plugin_type_t::DQCS_PTYPE_FRONT => 0,
            dqcs_plugin_type_t::DQCS_PTYPE_OPER => 1,
            dqcs_plugin_type_t::DQCS_PTYPE_BACK => 2,
        }
    }

    /// Returns the value of the variant in the C API.
    pub fn value(self) -> (r: i32)
        ensures
            r == self.spec_value(),
    {
        match self {
            dqcs_plugin_type_t::DQCS_PTYPE_INVALID => -1,
            dqcs_plugin_type_t::DQCS_PTYPE_FRONT => 0,
            dqcs_plugin_type_t::DQCS_PTYPE_OPER => 1,
            dqcs_plugin_type_t::DQCS_PTYPE_BACK => 2,
        }
    }

    /// The C value of a plugin type.
    pub open spec fn spec_from(x: PluginType) -> dqcs_plugin_type_t {
        match x {
            PluginType::Frontend => dqcs_plugin_type_t::DQCS_PTYPE_FRONT,
            PluginType::Operator => dqcs_plugin_type_t::DQCS_PTYPE_OPER,
            PluginType::Backend => dqcs_plugin_type_t::DQCS_PTYPE_BACK,
        }
    }

    /// The plugin type that a C value names; `None` for the invalid value.
    pub open spec fn spec_plugin_type(self) -> Option<PluginType> {
        match self {
            dqcs_plugin_type_t::DQCS_PTYPE_FRONT => Some(PluginType::Frontend),
            dqcs_plugin_type_t::DQCS_PTYPE_OPER => Some(PluginType::Operator),
            dqcs_plugin_type_t::DQCS_PTYPE_BACK => Some(PluginType::Backend),
            dqcs_plugin_type_t::DQCS_PTYPE_INVALID => None,
        }
    }

    /// Converts the C value to a plugin type; the invalid value gives an
    /// invalid-argument error.
    pub fn into_plugin_type(self) -> (r: Result<PluginType>)
        ensures
            self.spec_plugin_type() matches Some(t) ==> r == Ok::<PluginType, Error>(t),
            self.spec_plugin_type() is None ==> is_inv_arg(r, "invalid plugin type"@),
            self.spec_value() == 0 ==> r == Ok::<PluginType, Error>(PluginType::Frontend),
            self.spec_value() == 1 ==> r == Ok::<PluginType, Error>(PluginType::Operator),
            self.spec_value() == 2 ==> r == Ok::<PluginType, Error>(PluginType::Backend),
            self.spec_value() < 0 ==> r is Err,
    {
        match self {
            dqcs_plugin_type_t::DQCS_PTYPE_FRONT => Ok(PluginType::Frontend),
            dqcs_plugin_type_t::DQCS_PTYPE_OPER => Ok(PluginType::Operator),
            dqcs_plugin_type_t::DQCS_PTYPE_BACK => Ok(PluginType::Backend),
            _ => inv_arg("invalid plugin type"),
        }
    }
}

impl From<PluginType> for dqcs_plugin_type_t {
    fn from(x: PluginType) -> dqcs_plugin_type_t {
        match x {
            PluginType::Frontend => dqcs_plugin_type_t::DQCS_PTYPE_FRONT,
            PluginType::Operator => dqcs_plugin_type_t::DQCS_PTYPE_OPER,
            PluginType::Backend => dqcs_plugin_type_t::DQCS_PTYPE_BACK,
        }
    }
}

impl vstd::std_specs::convert::FromSpecImpl<PluginType> for dqcs_plugin_type_t {
    open spec fn obeys_from_spec() -> bool {
        true
    }

    open spec fn from_spec(x: PluginType) -> dqcs_plugin_type_t {
        dqcs_plugin_type_t::spec_from(x)
    }
}

} // verus!

verus! {

/// Enumeration of loglevels and logging modes.
#[derive(Clone, Copy, Debug, PartialEq, Eq, Structural)]
pub enum dqcs_loglevel_t {
    /// Invalid loglevel; indicates failure of an API call.
    DQCS_LOG_INVALID,
    /// Turns logging off.
    DQCS_LOG_OFF,
    /// Fatal errors.
    DQCS_LOG_FATAL,
    /// Non-fatal errors.
    DQCS_LOG_ERROR,
    /// Warnings.
    DQCS_LOG_WARN,
    /// Information requested by the user.
    DQCS_LOG_NOTE,
    /// Information not requested by the user.
    DQCS_LOG_INFO,
    /// Debugging information for users.
    DQCS_LOG_DEBUG,
    /// Debugging information for internals.
    DQCS_LOG_TRACE,
    /// A stream that is not captured but passed through.
    DQCS_LOG_PASS,
}

impl dqcs_loglevel_t {
    /// The value of the variant in the C API.
    pub open spec fn spec_value(self) -> int {
        match self {
            dqcs_loglevel_t::DQCS_LOG_INVALID => -1,
            dqcs_loglevel_t::DQCS_LOG_OFF => 0,
            dqcs_loglevel_t::DQCS_LOG_FATAL => 1,
            dqcs_loglevel_t::DQCS_LOG_ERROR => 2,
            dqcs_loglevel_t::DQCS_LOG_WARN => 3,
            dqcs_loglevel_t::DQCS_LOG_NOTE => 4,
            dqcs_loglevel_t::DQCS_LOG_INFO => 5,
            dqcs_loglevel_t::DQCS_LOG_DEBUG => 6,
            dqcs_loglevel_t::DQCS_LOG_TRACE => 7,
            dqcs_loglevel_t::DQCS_LOG_PASS => 8,
        }
    }

    /// Returns the value of the variant in the C API.
    pub fn value(self) -> (r: i32)
        ensures
            r == self.spec_value(),
    {
        match self {
            dqcs_loglevel_t::DQCS_LOG_INVALID => -1,
            dqcs_loglevel_t::DQCS_LOG_OFF => 0,
            dqcs_loglevel_t::DQCS_LOG_FATAL => 1,
            dqcs_loglevel_t::DQCS_LOG_ERROR => 2,
            dqcs_loglevel_t::DQCS_LOG_WARN => 3,
            dqcs_loglevel_t::DQCS_LOG_NOTE => 4,
            dqcs_loglevel_t::DQCS_LOG_INFO => 5,
            dqcs_loglevel_t::DQCS_LOG_DEBUG => 6,
            dqcs_loglevel_t::DQCS_LOG_TRACE => 7,
            dqcs_loglevel_t::DQCS_LOG_PASS => 8,
        }
    }

    /// The C value of a log level.
    pub open spec fn spec_from_loglevel(x: Loglevel) -> dqcs_loglevel_t {
        match x {
            Loglevel::Fatal => dqcs_loglevel_t::DQCS_LOG_FATAL,
            Loglevel::Error => dqcs_loglevel_t::DQCS_LOG_ERROR,
            Loglevel::Warn => dqcs_loglevel_t::DQCS_LOG_WARN,
            Loglevel::Note => dqcs_loglevel_t::DQCS_LOG_NOTE,
            Loglevel::Info => dqcs_loglevel_t::DQCS_LOG_INFO,
            Loglevel::Debug => dqcs_loglevel_t::DQCS_LOG_DEBUG,
            Loglevel::Trace => dqcs_loglevel_t::DQCS_LOG_TRACE,
        }
    }

    /// The C value of a log level filter.
    pub open spec fn spec_from_filter(x: LoglevelFilter) -> dqcs_loglevel_t {
        match x {
            LoglevelFilter::Off => dqcs_loglevel_t::DQCS_LOG_OFF,
            LoglevelFilter::Fatal => dqcs_loglevel_t::DQCS_LOG_FATAL,
            LoglevelFilter::Error => dqcs_loglevel_t::DQCS_LOG_ERROR,
            LoglevelFilter::Warn => dqcs_loglevel_t::DQCS_LOG_WARN,
            LoglevelFilter::Note => dqcs_loglevel_t::DQCS_LOG_NOTE,
            LoglevelFilter::Info => dqcs_loglevel_t::DQCS_LOG_INFO,
            LoglevelFilter::Debug => dqcs_loglevel_t::DQCS_LOG_DEBUG,
            LoglevelFilter::Trace => dqcs_loglevel_t::DQCS_LOG_TRACE,
        }
    }

    /// The C value of a stream capture mode.
    pub open spec fn spec_from_capture_mode(x: StreamCaptureMode) -> dqcs_loglevel_t {
        match x {
            StreamCaptureMode::Pass => dqcs_loglevel_t::DQCS_LOG_PASS,
            StreamCaptureMode::Null => dqcs_loglevel_t::DQCS_LOG_OFF,
            StreamCaptureMode::Capture(level) => Self::spec_from_loglevel(level),
        }
    }

    /// The stream capture mode that a C value names; `None` for the invalid
    /// value.
    pub open spec fn spec_capture_mode(self) -> Option<StreamCaptureMode> {
        match self {
            dqcs_loglevel_t::DQCS_LOG_INVALID => None,
            dqcs_loglevel_t::DQCS_LOG_OFF => Some(StreamCaptureMode::Null),
            dqcs_loglevel_t::DQCS_LOG_FATAL => Some(StreamCaptureMode::Capture(Loglevel::Fatal)),
            dqcs_loglevel_t::DQCS_LOG_ERROR => Some(StreamCaptureMode::Capture(Loglevel::Error)),
            dqcs_loglevel_t::DQCS_LOG_WARN => Some(StreamCaptureMode::Capture(Loglevel::Warn)),
            dqcs_loglevel_t::DQCS_LOG_NOTE => Some(StreamCaptureMode::Capture(Loglevel::Note)),
            dqcs_loglevel_t::DQCS_LOG_INFO => Some(StreamCaptureMode::Capture(Loglevel::Info)),
            dqcs_loglevel_t::DQCS_LOG_DEBUG => Some(StreamCaptureMode::Capture(Loglevel::Debug)),
            dqcs_loglevel_t::DQCS_LOG_TRACE => Some(StreamCaptureMode::Capture(Loglevel::Trace)),
            dqcs_loglevel_t::DQCS_LOG_PASS => Some(StreamCaptureMode::Pass),
        }
    }

    /// Converts the C value to a stream capture mode: `OFF` discards the
    /// stream, `PASS` passes it through, a level captures it at that level;
    /// the invalid value gives an invalid-argument error.
    pub fn into_capture_mode(self) -> (r: Result<StreamCaptureMode>)
        ensures
            self.spec_capture_mode() matches Some(m) ==> r == Ok::<StreamCaptureMode, Error>(m),
            self.spec_capture_mode() is None ==> is_inv_arg(r, "invalid level"@),
    {
        match self {
            dqcs_loglevel_t::DQCS_LOG_INVALID => inv_arg("invalid level"),
            dqcs_loglevel_t::DQCS_LOG_OFF => Ok(StreamCaptureMode::Null),
            dqcs_loglevel_t::DQCS_LOG_FATAL => Ok(StreamCaptureMode::Capture(Loglevel::Fatal)),
            dqcs_loglevel_t::DQCS_LOG_ERROR => Ok(StreamCaptureMode::Capture(Loglevel::Error)),
            dqcs_loglevel_t::DQCS_LOG_WARN => Ok(StreamCaptureMode::Capture(Loglevel::Warn)),
            dqcs_loglevel_t::DQCS_LOG_NOTE => Ok(StreamCaptureMode::Capture(Loglevel::Note)),
            dqcs_loglevel_t::DQCS_LOG_INFO => Ok(StreamCaptureMode::Capture(Loglevel::Info)),
            dqcs_loglevel_t::DQCS_LOG_DEBUG => Ok(StreamCaptureMode::Capture(Loglevel::Debug)),
            dqcs_loglevel_t::DQCS_LOG_TRACE => Ok(StreamCaptureMode::Capture(Loglevel::Trace)),
            dqcs_loglevel_t::DQCS_LOG_PASS => Ok(StreamCaptureMode::Pass),
        }
    }

    /// Converts the C value to a log level. `INVALID` gives the error of
    /// `into_capture_mode`; `OFF` and `PASS` name no level and give an
    /// invalid-argument error that names the value.
    pub fn into_loglevel(self) -> (r: Result<Loglevel>)
        ensures
            self.spec_capture_mode() matches Some(StreamCaptureMode::Capture(l)) ==> r == Ok::<
                Loglevel,
                Error,
            >(l),
            self == dqcs_loglevel_t::DQCS_LOG_INVALID ==> is_inv_arg(r, "invalid level"@),
            self == dqcs_loglevel_t::DQCS_LOG_OFF ==> is_inv_arg(
                r,
                "invalid loglevel DQCS_LOG_OFF"@,
            ),
            self == dqcs_loglevel_t::DQCS_LOG_PASS ==> is_inv_arg(
                r,
                "invalid loglevel DQCS_LOG_PASS"@,
            ),
    {
        match self.into_capture_mode() {
            Err(e) => Err(e),
            Ok(StreamCaptureMode::Capture(level)) => Ok(level),
            Ok(StreamCaptureMode::Null) => inv_arg("invalid loglevel DQCS_LOG_OFF"),
            Ok(StreamCaptureMode::Pass) => inv_arg("invalid loglevel DQCS_LOG_PASS"),
        }
    }

    /// Converts the C value to a log level filter. `INVALID` gives the error
    /// of `into_capture_mode`; `OFF` is the `Off` filter; `PASS` names no
    /// filter and gives an invalid-argument error that names the value.
    pub fn into_loglevel_filter(self) -> (r: Result<LoglevelFilter>)
        ensures
            self.spec_capture_mode() matches Some(StreamCaptureMode::Capture(l)) ==> r == Ok::<
                LoglevelFilter,
                Error,
            >(LoglevelFilter::spec_from(l)),
            self == dqcs_loglevel_t::DQCS_LOG_OFF ==> r == Ok::<LoglevelFilter, Error>(
                LoglevelFilter::Off,
            ),
            self == dqcs_loglevel_t::DQCS_LOG_INVALID ==> is_inv_arg(r, "invalid level"@),
            self == dqcs_loglevel_t::DQCS_LOG_PASS ==> is_inv_arg(
                r,
                "invalid loglevel filter DQCS_LOG_PASS"@,
            ),
    {
        match self.into_capture_mode() {
            Err(e) => Err(e),
            Ok(StreamCaptureMode::Capture(level)) => Ok(LoglevelFilter::from(level)),
            Ok(StreamCaptureMode::Null) => Ok(LoglevelFilter::Off),
            Ok(StreamCaptureMode::Pass) => inv_arg("invalid loglevel filter DQCS_LOG_PASS"),
        }
    }
}

impl From<StreamCaptureMode> for dqcs_loglevel_t {
    fn from(x: StreamCaptureMode) -> dqcs_loglevel_t {
        match x {
            StreamCaptureMode::Pass => dqcs_loglevel_t::DQCS_LOG_PASS,
            StreamCaptureMode::Null => dqcs_loglevel_t::DQCS_LOG_OFF,
            StreamCaptureMode::Capture(loglevel) => dqcs_loglevel_t::from(loglevel),
        }
    }
}

impl vstd::std_specs::convert::FromSpecImpl<StreamCaptureMode> for dqcs_loglevel_t {
    open spec fn obeys_from_spec() -> bool {
        true
    }

    open spec fn from_spec(x: StreamCaptureMode) -> dqcs_loglevel_t {
        dqcs_loglevel_t::spec_from_capture_mode(x)
    }
}

impl From<Loglevel> for dqcs_loglevel_t {
    fn from(x: Loglevel) -> dqcs_loglevel_t {
        match x {
            Loglevel::Fatal => dqcs_loglevel_t::DQCS_LOG_FATAL,
            Loglevel::Error => dqcs_loglevel_t::DQCS_LOG_ERROR,
            Loglevel::Warn => dqcs_loglevel_t::DQCS_LOG_WARN,
            Loglevel::Note => dqcs_loglevel_t::DQCS_LOG_NOTE,
            Loglevel::Info => dqcs_loglevel_t::DQCS_LOG_INFO,
            Loglevel::Debug => dqcs_loglevel_t::DQCS_LOG_DEBUG,
            Loglevel::Trace => dqcs_loglevel_t::DQCS_LOG_TRACE,
        }
    }
}

impl vstd::std_specs::convert::FromSpecImpl<Loglevel> for dqcs_loglevel_t {
    open spec fn obeys_from_spec() -> bool {
        true
    }

    open spec fn from_spec(x: Loglevel) -> dqcs_loglevel_t {
        dqcs_loglevel_t::spec_from_loglevel(x)
    }
}

impl From<LoglevelFilter> for dqcs_loglevel_t {
    fn from(x: LoglevelFilter) -> dqcs_loglevel_t {
        match x {
            LoglevelFilter::Off => dqcs_loglevel_t::DQCS_LOG_OFF,
            LoglevelFilter::Fatal => dqcs_loglevel_t::DQCS_LOG_FATAL,
            LoglevelFilter::Error => dqcs_loglevel_t::DQCS_LOG_ERROR,
            LoglevelFilter::Warn => dqcs_loglevel_t::DQCS_LOG_WARN,
            LoglevelFilter::Note => dqcs_loglevel_t::DQCS_LOG_NOTE,
            LoglevelFilter::Info => dqcs_loglevel_t::DQCS_LOG_INFO,
            LoglevelFilter::Debug => dqcs_loglevel_t::DQCS_LOG_DEBUG,
            LoglevelFilter::Trace => dqcs_loglevel_t::DQCS_LOG_TRACE,
        }
    }
}

impl vstd::std_specs::convert::FromSpecImpl<LoglevelFilter> for dqcs_loglevel_t {
    open spec fn obeys_from_spec() -> bool {
        true
    }

    open spec fn from_spec(x: LoglevelFilter) -> dqcs_loglevel_t {
        dqcs_loglevel_t::spec_from_filter(x)
    }
}

} // verus!

verus! {

/// Default return type for functions that don't need to return anything.
#[derive(Clone, Copy, Debug, PartialEq, Eq, Structural)]
pub enum dqcs_return_t {
    /// The function has failed.
    DQCS_FAILURE,
    /// The function did what it was supposed to.
    DQCS_SUCCESS,
}

impl dqcs_return_t {
    /// The value of the variant in the C API.
    pub open spec fn spec_value(self) -> int {
        match self {
            dqcs_return_t::DQCS_FAILURE => -1,
            dqcs_return_t::DQCS_SUCCESS => 0,
        }
    }

    /// Returns the value of the variant in the C API.
    pub fn value(self) -> (r: i32)
        ensures
            r == self.spec_value(),
    {
        match self {
            dqcs_return_t::DQCS_FAILURE => -1,
            dqcs_return_t::DQCS_SUCCESS => 0,
        }
    }
}

/// Return type for functions that normally return a boolean but can also
/// fail.
#[derive(Clone, Copy, Debug, PartialEq, Eq, Structural)]
pub enum dqcs_bool_return_t {
    /// The function has failed.
    DQCS_BOOL_FAILURE,
    /// The function returned false.
    DQCS_FALSE,
    /// The function returned true.
    DQCS_TRUE,
}

impl dqcs_bool_return_t {
    /// The value of the variant in the C API.
    pub open spec fn spec_value(self) -> int {
        match self {
            dqcs_bool_return_t::DQCS_BOOL_FAILURE => -1,
            dqcs_bool_return_t::DQCS_FALSE => 0,
            dqcs_bool_return_t::DQCS_TRUE => 1,
        }
    }

    /// Returns the value of the variant in the C API.
    pub fn value(self) -> (r: i32)
        ensures
            r == self.spec_value(),
    {
        match self {
            dqcs_bool_return_t::DQCS_BOOL_FAILURE => -1,
            dqcs_bool_return_t::DQCS_FALSE => 0,
            dqcs_bool_return_t::DQCS_TRUE => 1,
        }
    }

    /// The C value of a boolean.
    pub open spec fn spec_from(b: bool) -> dqcs_bool_return_t {
        if b {
            dqcs_bool_return_t::DQCS_TRUE
        } else {
            dqcs_bool_return_t::DQCS_FALSE
        }
    }
}

impl From<bool> for dqcs_bool_return_t {
    fn from(b: bool) -> dqcs_bool_return_t {
        if b {
            dqcs_bool_return_t::DQCS_TRUE
        } else {
            dqcs_bool_return_t::DQCS_FALSE
        }
    }
}

impl vstd::std_specs::convert::FromSpecImpl<bool> for dqcs_bool_return_t {
    open spec fn obeys_from_spec() -> bool {
        true
    }

    open spec fn from_spec(b: bool) -> dqcs_bool_return_t {
        dqcs_bool_return_t::spec_from(b)
    }
}

/// Qubit measurement value.
#[derive(Clone, Copy, Debug, PartialEq, Eq, Structural)]
pub enum dqcs_measurement_t {
    /// Something went wrong.
    DQCS_MEAS_INVALID,
    /// The qubit was measured to be zero.
    DQCS_MEAS_ZERO,
    /// The qubit was measured to be one.
    DQCS_MEAS_ONE,
    /// The measurement value is unknown.
    DQCS_MEAS_UNDEFINED,
}

impl dqcs_measurement_t {
    /// The value of the variant in the C API.
    pub open spec fn spec_value(self) -> int {
        match self {
            dqcs_measurement_t::DQCS_MEAS_INVALID => -1,
            dqcs_measurement_t::DQCS_MEAS_ZERO => 0,
            dqcs_measurement_t::DQCS_MEAS_ONE => 1,
            dqcs_measurement_t::DQCS_MEAS_UNDEFINED => 2,
        }
    }

    /// Returns the value of the variant in the C API.
    pub fn value(self) -> (r: i32)
        ensures
            r == self.spec_value(),
    {
        match self {
            dqcs_measurement_t::DQCS_MEAS_INVALID => -1,
            dqcs_measurement_t::DQCS_MEAS_ZERO => 0,
            dqcs_measurement_t::DQCS_MEAS_ONE => 1,
            dqcs_measurement_t::DQCS_MEAS_UNDEFINED => 2,
        }
    }

    /// The measurement value that a C value names; `None` for the invalid
    /// value.
    pub open spec fn spec_measurement_value(self) -> Option<QubitMeasurementValue> {
        match self {
            dqcs_measurement_t::DQCS_MEAS_INVALID => None,
            dqcs_measurement_t::DQCS_MEAS_ZERO => Some(QubitMeasurementValue::Zero),
            dqcs_measurement_t::DQCS_MEAS_ONE => Some(QubitMeasurementValue::One),
            dqcs_measurement_t::DQCS_MEAS_UNDEFINED => Some(QubitMeasurementValue::Undefined),
        }
    }

    /// Converts the C value to a measurement value.
    pub fn into_measurement_value(self) -> (r: Option<QubitMeasurementValue>)
        ensures
            r == self.spec_measurement_value(),
    {
        match self {
            dqcs_measurement_t::DQCS_MEAS_INVALID => None,
            dqcs_measurement_t::DQCS_MEAS_ZERO => Some(QubitMeasurementValue::Zero),
            dqcs_measurement_t::DQCS_MEAS_ONE => Some(QubitMeasurementValue::One),
            dqcs_measurement_t::DQCS_MEAS_UNDEFINED => Some(QubitMeasurementValue::Undefined),
        }
    }

    /// The C value of a measurement value.
    pub open spec fn spec_from(x: QubitMeasurementValue) -> dqcs_measurement_t {
        match x {
            QubitMeasurementValue::Undefined => dqcs_measurement_t::DQCS_MEAS_UNDEFINED,
            QubitMeasurementValue::Zero => dqcs_measurement_t::DQCS_MEAS_ZERO,
            QubitMeasurementValue::One => dqcs_measurement_t::DQCS_MEAS_ONE,
        }
    }
}

impl From<QubitMeasurementValue> for dqcs_measurement_t {
    fn from(x: QubitMeasurementValue) -> dqcs_measurement_t {
        match x {
            QubitMeasurementValue::Undefined => dqcs_measurement_t::DQCS_MEAS_UNDEFINED,
            QubitMeasurementValue::Zero => dqcs_measurement_t::DQCS_MEAS_ZERO,
            QubitMeasurementValue::One => dqcs_measurement_t::DQCS_MEAS_ONE,
        }
    }
}

impl vstd::std_specs::convert::FromSpecImpl<QubitMeasurementValue> for dqcs_measurement_t {
    open spec fn obeys_from_spec() -> bool {
        true
    }

    open spec fn from_spec(x: QubitMeasurementValue) -> dqcs_measurement_t {
        dqcs_measurement_t::spec_from(x)
    }
}

/// Reproduction file path style.
#[derive(Clone, Copy, Debug, PartialEq, Eq, Structural)]
pub enum dqcs_path_style_t {
    /// Something went wrong.
    DQCS_PATH_STYLE_INVALID,
    /// Paths are saved as they were given.
    DQCS_PATH_STYLE_KEEP,
    /// Paths are saved relative to the working directory.
    DQCS_PATH_STYLE_RELATIVE,
    /// Paths are saved canonically.
    DQCS_PATH_STYLE_ABSOLUTE,
}

impl dqcs_path_style_t {
    /// The value of the variant in the C API.
    pub open spec fn spec_value(self) -> int {
        match self {
            dqcs_path_style_t::DQCS_PATH_STYLE_INVALID => -1,
            dqcs_path_style_t::DQCS_PATH_STYLE_KEEP => 0,
            dqcs_path_style_t::DQCS_PATH_STYLE_RELATIVE => 1,
            dqcs_path_style_t::DQCS_PATH_STYLE_ABSOLUTE => 2,
        }
    }

    /// Returns the value of the variant in the C API.
    pub fn value(self) -> (r: i32)
        ensures
            r == self.spec_value(),
    {
        match self {
            dqcs_path_style_t::DQCS_PATH_STYLE_INVALID => -1,
            dqcs_path_style_t::DQCS_PATH_STYLE_KEEP => 0,
            dqcs_path_style_t::DQCS_PATH_STYLE_RELATIVE => 1,
            dqcs_path_style_t::DQCS_PATH_STYLE_ABSOLUTE => 2,
        }
    }

    /// The path style that a C value names; `None` for the invalid value.
    pub open spec fn spec_path_style(self) -> Option<ReproductionPathStyle> {
        match self {
            dqcs_path_style_t::DQCS_PATH_STYLE_INVALID => None,
            dqcs_path_style_t::DQCS_PATH_STYLE_KEEP => Some(ReproductionPathStyle::Keep),
            dqcs_path_style_t::DQCS_PATH_STYLE_RELATIVE => Some(ReproductionPathStyle::Relative),
            dqcs_path_style_t::DQCS_PATH_STYLE_ABSOLUTE => Some(ReproductionPathStyle::Absolute),
        }
    }

    /// Converts the C value to a path style.
    pub fn into_path_style(self) -> (r: Option<ReproductionPathStyle>)
        ensures
            r == self.spec_path_style(),
    {
        match self {
            dqcs_path_style_t::DQCS_PATH_STYLE_INVALID => None,
            dqcs_path_style_t::DQCS_PATH_STYLE_KEEP => Some(ReproductionPathStyle::Keep),
            dqcs_path_style_t::DQCS_PATH_STYLE_RELATIVE => Some(ReproductionPathStyle::Relative),
            dqcs_path_style_t::DQCS_PATH_STYLE_ABSOLUTE => Some(ReproductionPathStyle::Absolute),
        }
    }

    /// The C value of a path style.
    pub open spec fn spec_from(x: ReproductionPathStyle) -> dqcs_path_style_t {
        match x {
            ReproductionPathStyle::Keep => dqcs_path_style_t::DQCS_PATH_STYLE_KEEP,
            ReproductionPathStyle::Relative => dqcs_path_style_t::DQCS_PATH_STYLE_RELATIVE,
            ReproductionPathStyle::Absolute => dqcs_path_style_t::DQCS_PATH_STYLE_ABSOLUTE,
        }
    }
}

impl From<ReproductionPathStyle> for dqcs_path_style_t {
    fn from(x: ReproductionPathStyle) -> dqcs_path_style_t {
        match x {
            ReproductionPathStyle::Keep => dqcs_path_style_t::DQCS_PATH_STYLE_KEEP,
            ReproductionPathStyle::Relative => dqcs_path_style_t::DQCS_PATH_STYLE_RELATIVE,
            ReproductionPathStyle::Absolute => dqcs_path_style_t::DQCS_PATH_STYLE_ABSOLUTE,
        }
    }
}

impl vstd::std_specs::convert::FromSpecImpl<ReproductionPathStyle> for dqcs_path_style_t {
    open spec fn obeys_from_spec() -> bool {
        true
    }

    open spec fn from_spec(x: ReproductionPathStyle) -> dqcs_path_style_t {
        dqcs_path_style_t::spec_from(x)
    }
}

} // verus!

verus! {

/// Enumeration of gates defined by DQCsim.
#[derive(Clone, Copy, Debug, PartialEq, Eq, Structural)]
pub enum dqcs_predefined_gate_t {
    /// Invalid gate; used as an error return value.
    DQCS_GATE_INVALID,
    /// The identity gate for a single qubit.
    DQCS_GATE_PAULI_I,
    /// The Pauli X matrix.
    DQCS_GATE_PAULI_X,
    /// The Pauli Y matrix.
    DQCS_GATE_PAULI_Y,
    /// The Pauli Z matrix.
    DQCS_GATE_PAULI_Z,
    /// The Hadamard gate matrix.
    DQCS_GATE_H,
    /// The S matrix, a 90 degree Z rotation.
    DQCS_GATE_S,
    /// The S-dagger matrix.
    DQCS_GATE_S_DAG,
    /// The T matrix, a 45 degree Z rotation.
    DQCS_GATE_T,
    /// The T-dagger matrix.
    DQCS_GATE_T_DAG,
    /// Rx(90°).
    DQCS_GATE_RX_90,
    /// Rx(-90°).
    DQCS_GATE_RX_M90,
    /// Rx(180°).
    DQCS_GATE_RX_180,
    /// Ry(90°).
    DQCS_GATE_RY_90,
    /// Ry(-90°).
    DQCS_GATE_RY_M90,
    /// Ry(180°).
    DQCS_GATE_RY_180,
    /// Rz(90°).
    DQCS_GATE_RZ_90,
    /// Rz(-90°).
    DQCS_GATE_RZ_M90,
    /// Rz(180°).
    DQCS_GATE_RZ_180,
    /// An arbitrary X rotation.
    DQCS_GATE_RX,
    /// An arbitrary Y rotation.
    DQCS_GATE_RY,
    /// An arbitrary Z rotation.
    DQCS_GATE_RZ,
    /// A Z rotation with angle π/2^k.
    DQCS_GATE_PHASE_K,
    /// An arbitrary phase gate.
    DQCS_GATE_PHASE,
    /// Any single-qubit unitary gate.
    DQCS_GATE_U1,
    /// An arbitrary rotation R(θ, φ, λ).
    DQCS_GATE_R,
    /// The swap gate matrix.
    DQCS_GATE_SWAP,
    /// The square root of the swap gate matrix.
    DQCS_GATE_SQRT_SWAP,
    /// Any two-qubit unitary gate.
    DQCS_GATE_U2,
    /// Any three-qubit unitary gate.
    DQCS_GATE_U3,
}

impl dqcs_predefined_gate_t {
    /// The value of the variant in the C API.
    pub open spec fn spec_value(self) -> int {
        match self {
            dqcs_predefined_gate_t::DQCS_GATE_INVALID => 0,
            dqcs_predefined_gate_t::DQCS_GATE_PAULI_I => 100,
            dqcs_predefined_gate_t::DQCS_GATE_PAULI_X => 101,
            dqcs_predefined_gate_t::DQCS_GATE_PAULI_Y => 102,
            dqcs_predefined_gate_t::DQCS_GATE_PAULI_Z => 103,
            dqcs_predefined_gate_t::DQCS_GATE_H => 104,
            dqcs_predefined_gate_t::DQCS_GATE_S => 105,
            dqcs_predefined_gate_t::DQCS_GATE_S_DAG => 106,
            dqcs_predefined_gate_t::DQCS_GATE_T => 107,
            dqcs_predefined_gate_t::DQCS_GATE_T_DAG => 108,
            dqcs_predefined_gate_t::DQCS_GATE_RX_90 => 109,
            dqcs_predefined_gate_t::DQCS_GATE_RX_M90 => 110,
            dqcs_predefined_gate_t::DQCS_GATE_RX_180 => 111,
            dqcs_predefined_gate_t::DQCS_GATE_RY_90 => 112,
            dqcs_predefined_gate_t::DQCS_GATE_RY_M90 => 113,
            dqcs_predefined_gate_t::DQCS_GATE_RY_180 => 114,
            dqcs_predefined_gate_t::DQCS_GATE_RZ_90 => 115,
            dqcs_predefined_gate_t::DQCS_GATE_RZ_M90 => 116,
            dqcs_predefined_gate_t::DQCS_GATE_RZ_180 => 117,
            dqcs_predefined_gate_t::DQCS_GATE_RX => 150,
            dqcs_predefined_gate_t::DQCS_GATE_RY => 151,
            dqcs_predefined_gate_t::DQCS_GATE_RZ => 152,
            dqcs_predefined_gate_t::DQCS_GATE_PHASE_K => 153,
            dqcs_predefined_gate_t::DQCS_GATE_PHASE => 154,
            dqcs_predefined_gate_t::DQCS_GATE_U1 => 190,
            dqcs_predefined_gate_t::DQCS_GATE_R => 191,
            dqcs_predefined_gate_t::DQCS_GATE_SWAP => 200,
            dqcs_predefined_gate_t::DQCS_GATE_SQRT_SWAP => 201,
            dqcs_predefined_gate_t::DQCS_GATE_U2 => 290,
            dqcs_predefined_gate_t::DQCS_GATE_U3 => 390,
        }
    }

    /// Returns the value of the variant in the C API.
    pub fn value(self) -> (r: i32)
        ensures
            r == self.spec_value(),
    {
        match self {
            dqcs_predefined_gate_t::DQCS_GATE_INVALID => 0,
            dqcs_predefined_gate_t::DQCS_GATE_PAULI_I => 100,
            dqcs_predefined_gate_t::DQCS_GATE_PAULI_X => 101,
            dqcs_predefined_gate_t::DQCS_GATE_PAULI_Y => 102,
            dqcs_predefined_gate_t::DQCS_GATE_PAULI_Z => 103,
            dqcs_predefined_gate_t::DQCS_GATE_H => 104,
            dqcs_predefined_gate_t::DQCS_GATE_S => 105,
            dqcs_predefined_gate_t::DQCS_GATE_S_DAG => 106,
            dqcs_predefined_gate_t::DQCS_GATE_T => 107,
            dqcs_predefined_gate_t::DQCS_GATE_T_DAG => 108,
            dqcs_predefined_gate_t::DQCS_GATE_RX_90 => 109,
            dqcs_predefined_gate_t::DQCS_GATE_RX_M90 => 110,
            dqcs_predefined_gate_t::DQCS_GATE_RX_180 => 111,
            dqcs_predefined_gate_t::DQCS_GATE_RY_90 => 112,
            dqcs_predefined_gate_t::DQCS_GATE_RY_M90 => 113,
            dqcs_predefined_gate_t::DQCS_GATE_RY_180 => 114,
            dqcs_predefined_gate_t::DQCS_GATE_RZ_90 => 115,
            dqcs_predefined_gate_t::DQCS_GATE_RZ_M90 => 116,
            dqcs_predefined_gate_t::DQCS_GATE_RZ_180 => 117,
            dqcs_predefined_gate_t::DQCS_GATE_RX => 150,
            dqcs_predefined_gate_t::DQCS_GATE_RY => 151,
            dqcs_predefined_gate_t::DQCS_GATE_RZ => 152,
            dqcs_predefined_gate_t::DQCS_GATE_PHASE_K => 153,
            dqcs_predefined_gate_t::DQCS_GATE_PHASE => 154,
            dqcs_predefined_gate_t::DQCS_GATE_U1 => 190,
            dqcs_predefined_gate_t::DQCS_GATE_R => 191,
            dqcs_predefined_gate_t::DQCS_GATE_SWAP => 200,
            dqcs_predefined_gate_t::DQCS_GATE_SQRT_SWAP => 201,
            dqcs_predefined_gate_t::DQCS_GATE_U2 => 290,
            dqcs_predefined_gate_t::DQCS_GATE_U3 => 390,
        }
    }

    /// The unitary gate type that a C value names; `None` for the invalid
    /// value.
    pub open spec fn spec_unitary_gate_type(self) -> Option<UnitaryGateType> {
        match self {
            dqcs_predefined_gate_t::DQCS_GATE_INVALID => None,
            dqcs_predefined_gate_t::DQCS_GATE_PAULI_I => Some(UnitaryGateType::I),
            dqcs_predefined_gate_t::DQCS_GATE_PAULI_X => Some(UnitaryGateType::X),
            dqcs_predefined_gate_t::DQCS_GATE_PAULI_Y => Some(UnitaryGateType::Y),
            dqcs_predefined_gate_t::DQCS_GATE_PAULI_Z => Some(UnitaryGateType::Z),
            dqcs_predefined_gate_t::DQCS_GATE_H => Some(UnitaryGateType::H),
            dqcs_predefined_gate_t::DQCS_GATE_S => Some(UnitaryGateType::S),
            dqcs_predefined_gate_t::DQCS_GATE_S_DAG => Some(UnitaryGateType::SDAG),
            dqcs_predefined_gate_t::DQCS_GATE_T => Some(UnitaryGateType::T),
            dqcs_predefined_gate_t::DQCS_GATE_T_DAG => Some(UnitaryGateType::TDAG),
            dqcs_predefined_gate_t::DQCS_GATE_RX_90 => Some(UnitaryGateType::RX90),
            dqcs_predefined_gate_t::DQCS_GATE_RX_M90 => Some(UnitaryGateType::RXM90),
            dqcs_predefined_gate_t::DQCS_GATE_RX_180 => Some(UnitaryGateType::RX180),
            dqcs_predefined_gate_t::DQCS_GATE_RY_90 => Some(UnitaryGateType::RY90),
            dqcs_predefined_gate_t::DQCS_GATE_RY_M90 => Some(UnitaryGateType::RYM90),
            dqcs_predefined_gate_t::DQCS_GATE_RY_180 => Some(UnitaryGateType::RY180),
            dqcs_predefined_gate_t::DQCS_GATE_RZ_90 => Some(UnitaryGateType::RZ90),
            dqcs_predefined_gate_t::DQCS_GATE_RZ_M90 => Some(UnitaryGateType::RZM90),
            dqcs_predefined_gate_t::DQCS_GATE_RZ_180 => Some(UnitaryGateType::RZ180),
            dqcs_predefined_gate_t::DQCS_GATE_RX => Some(UnitaryGateType::RX),
            dqcs_predefined_gate_t::DQCS_GATE_RY => Some(UnitaryGateType::RY),
            dqcs_predefined_gate_t::DQCS_GATE_RZ => Some(UnitaryGateType::RZ),
            dqcs_predefined_gate_t::DQCS_GATE_PHASE_K => Some(UnitaryGateType::PhaseK),
            dqcs_predefined_gate_t::DQCS_GATE_PHASE => Some(UnitaryGateType::Phase),
            dqcs_predefined_gate_t::DQCS_GATE_U1 => Some(UnitaryGateType::U(1)),
            dqcs_predefined_gate_t::DQCS_GATE_R => Some(UnitaryGateType::R),
            dqcs_predefined_gate_t::DQCS_GATE_SWAP => Some(UnitaryGateType::SWAP),
            dqcs_predefined_gate_t::DQCS_GATE_SQRT_SWAP => Some(UnitaryGateType::SQSWAP),
            dqcs_predefined_gate_t::DQCS_GATE_U2 => Some(UnitaryGateType::U(2)),
            dqcs_predefined_gate_t::DQCS_GATE_U3 => Some(UnitaryGateType::U(3)),
        }
    }
}

impl UnitaryGateType {
    /// Converts a C gate value to a unitary gate type; the invalid value gives
    /// an invalid-argument error.
    pub fn try_from(gate_type: dqcs_predefined_gate_t) -> (r: Result<UnitaryGateType>)
        ensures
            gate_type.spec_unitary_gate_type() matches Some(t) ==> r == Ok::<UnitaryGateType, Error>(t),
            gate_type.spec_unitary_gate_type() is None ==> is_inv_arg(r, "invalid gate"@),
    {
        match gate_type {
            dqcs_predefined_gate_t::DQCS_GATE_PAULI_I => Ok(UnitaryGateType::I),
            dqcs_predefined_gate_t::DQCS_GATE_PAULI_X => Ok(UnitaryGateType::X),
            dqcs_predefined_gate_t::DQCS_GATE_PAULI_Y => Ok(UnitaryGateType::Y),
            dqcs_predefined_gate_t::DQCS_GATE_PAULI_Z => Ok(UnitaryGateType::Z),
            dqcs_predefined_gate_t::DQCS_GATE_H => Ok(UnitaryGateType::H),
            dqcs_predefined_gate_t::DQCS_GATE_S => Ok(UnitaryGateType::S),
            dqcs_predefined_gate_t::DQCS_GATE_S_DAG => Ok(UnitaryGateType::SDAG),
            dqcs_predefined_gate_t::DQCS_GATE_T => Ok(UnitaryGateType::T),
            dqcs_predefined_gate_t::DQCS_GATE_T_DAG => Ok(UnitaryGateType::TDAG),
            dqcs_predefined_gate_t::DQCS_GATE_RX_90 => Ok(UnitaryGateType::RX90),
            dqcs_predefined_gate_t::DQCS_GATE_RX_M90 => Ok(UnitaryGateType::RXM90),
            dqcs_predefined_gate_t::DQCS_GATE_RX_180 => Ok(UnitaryGateType::RX180),
            dqcs_predefined_gate_t::DQCS_GATE_RY_90 => Ok(UnitaryGateType::RY90),
            dqcs_predefined_gate_t::DQCS_GATE_RY_M90 => Ok(UnitaryGateType::RYM90),
            dqcs_predefined_gate_t::DQCS_GATE_RY_180 => Ok(UnitaryGateType::RY180),
            dqcs_predefined_gate_t::DQCS_GATE_RZ_90 => Ok(UnitaryGateType::RZ90),
            dqcs_predefined_gate_t::DQCS_GATE_RZ_M90 => Ok(UnitaryGateType::RZM90),
            dqcs_predefined_gate_t::DQCS_GATE_RZ_180 => Ok(UnitaryGateType::RZ180),
            dqcs_predefined_gate_t::DQCS_GATE_RX => Ok(UnitaryGateType::RX),
            dqcs_predefined_gate_t::DQCS_GATE_RY => Ok(UnitaryGateType::RY),
            dqcs_predefined_gate_t::DQCS_GATE_RZ => Ok(UnitaryGateType::RZ),
            dqcs_predefined_gate_t::DQCS_GATE_PHASE_K => Ok(UnitaryGateType::PhaseK),
            dqcs_predefined_gate_t::DQCS_GATE_PHASE => Ok(UnitaryGateType::Phase),
            dqcs_predefined_gate_t::DQCS_GATE_U1 => Ok(UnitaryGateType::U(1)),
            dqcs_predefined_gate_t::DQCS_GATE_R => Ok(UnitaryGateType::R),
            dqcs_predefined_gate_t::DQCS_GATE_SWAP => Ok(UnitaryGateType::SWAP),
            dqcs_predefined_gate_t::DQCS_GATE_SQRT_SWAP => Ok(UnitaryGateType::SQSWAP),
            dqcs_predefined_gate_t::DQCS_GATE_U2 => Ok(UnitaryGateType::U(2)),
            dqcs_predefined_gate_t::DQCS_GATE_U3 => Ok(UnitaryGateType::U(3)),
            dqcs_predefined_gate_t::DQCS_GATE_INVALID => inv_arg("invalid gate"),
        }
    }
}

} // verus!

verus! {

/// Enumeration of Pauli bases.
#[derive(Clone, Copy, Debug, PartialEq, Eq, Structural)]
pub enum dqcs_basis_t {
    /// Invalid basis; used as an error return value.
    DQCS_BASIS_INVALID,
    /// The X basis.
    DQCS_BASIS_X,
    /// The Y basis.
    DQCS_BASIS_Y,
    /// The Z basis.
    DQCS_BASIS_Z,
}

impl dqcs_basis_t {
    /// The value of the variant in the C API.
    pub open spec fn spec_value(self) -> int {
        match self {
            dqcs_basis_t::DQCS_BASIS_INVALID => 0,
            dqcs_basis_t::DQCS_BASIS_X => 1,
            dqcs_basis_t::DQCS_BASIS_Y => 2,
            dqcs_basis_t::DQCS_BASIS_Z => 3,
        }
    }

    /// Returns the value of the variant in the C API.
    pub fn value(self) -> (r: i32)
        ensures
            r == self.spec_value(),
    {
        match self {
            dqcs_basis_t::DQCS_BASIS_INVALID => 0,
            dqcs_basis_t::DQCS_BASIS_X => 1,
            dqcs_basis_t::DQCS_BASIS_Y => 2,
            dqcs_basis_t::DQCS_BASIS_Z => 3,
        }
    }

    /// The basis that a C value names; `None` for the invalid value.
    pub open spec fn spec_basis(self) -> Option<Basis> {
        match self {
            dqcs_basis_t::DQCS_BASIS_INVALID => None,
            dqcs_basis_t::DQCS_BASIS_X => Some(Basis::X),
            dqcs_basis_t::DQCS_BASIS_Y => Some(Basis::Y),
            dqcs_basis_t::DQCS_BASIS_Z => Some(Basis::Z),
        }
    }
}

impl Basis {
    /// Converts a C basis value to a basis; the invalid value gives an
    /// invalid-argument error.
    pub fn try_from(basis: dqcs_basis_t) -> (r: Result<Basis>)
        ensures
            basis.spec_basis() matches Some(b) ==> r == Ok::<Basis, Error>(b),
            basis.spec_basis() is None ==> is_inv_arg(r, "invalid basis"@),
    {
        match basis {
            dqcs_basis_t::DQCS_BASIS_X => Ok(Basis::X),
            dqcs_basis_t::DQCS_BASIS_Y => Ok(Basis::Y),
            dqcs_basis_t::DQCS_BASIS_Z => Ok(Basis::Z),
            dqcs_basis_t::DQCS_BASIS_INVALID => inv_arg("invalid basis"),
        }
    }
}

/// Types of DQCsim gates.
#[derive(Clone, Copy, Debug, PartialEq, Eq, Structural)]
pub enum dqcs_gate_type_t {
    /// Invalid gate type; used as an error return value.
    DQCS_GATE_TYPE_INVALID,
    /// Unitary gates.
    DQCS_GATE_TYPE_UNITARY,
    /// Measurement gates.
    DQCS_GATE_TYPE_MEASUREMENT,
    /// State preparation gates.
    DQCS_GATE_TYPE_PREP,
    /// Custom gates.
    DQCS_GATE_TYPE_CUSTOM,
}

impl dqcs_gate_type_t {
    /// The value of the variant in the C API.
    pub open spec fn spec_value(self) -> int {
        match self {
            dqcs_gate_type_t::DQCS_GATE_TYPE_INVALID => 0,
            dqcs_gate_type_t::DQCS_GATE_TYPE_UNITARY => 1,
            dqcs_gate_type_t::DQCS_GATE_TYPE_MEASUREMENT => 2,
            dqcs_gate_type_t::DQCS_GATE_TYPE_PREP => 3,
            dqcs_gate_type_t::DQCS_GATE_TYPE_CUSTOM => 4,
        }
    }

    /// Returns the value of the variant in the C API.
    pub fn value(self) -> (r: i32)
        ensures
            r == self.spec_value(),
    {
        match self {
            dqcs_gate_type_t::DQCS_GATE_TYPE_INVALID => 0,
            dqcs_gate_type_t::DQCS_GATE_TYPE_UNITARY => 1,
            dqcs_gate_type_t::DQCS_GATE_TYPE_MEASUREMENT => 2,
            dqcs_gate_type_t::DQCS_GATE_TYPE_PREP => 3,
            dqcs_gate_type_t::DQCS_GATE_TYPE_CUSTOM => 4,
        }
    }

    /// The C value of a gate type.
    pub open spec fn spec_from(gate_type: GateType) -> dqcs_gate_type_t {
        match gate_type {
            GateType::Unitary => dqcs_gate_type_t::DQCS_GATE_TYPE_UNITARY,
            GateType::Measurement => dqcs_gate_type_t::DQCS_GATE_TYPE_MEASUREMENT,
            GateType::Prep => dqcs_gate_type_t::DQCS_GATE_TYPE_PREP,
            GateType::Custom(_) => dqcs_gate_type_t::DQCS_GATE_TYPE_CUSTOM,
        }
    }
}

impl<'a> From<&'a GateType> for dqcs_gate_type_t {
    fn from(gate_type: &'a GateType) -> dqcs_gate_type_t {
        match gate_type {
            GateType::Unitary => dqcs_gate_type_t::DQCS_GATE_TYPE_UNITARY,
            GateType::Measurement => dqcs_gate_type_t::DQCS_GATE_TYPE_MEASUREMENT,
            GateType::Prep => dqcs_gate_type_t::DQCS_GATE_TYPE_PREP,
            GateType::Custom(_) => dqcs_gate_type_t::DQCS_GATE_TYPE_CUSTOM,
        }
    }
}

impl<'a> vstd::std_specs::convert::FromSpecImpl<&'a GateType> for dqcs_gate_type_t {
    open spec fn obeys_from_spec() -> bool {
        true
    }

    open spec fn from_spec(gate_type: &'a GateType) -> dqcs_gate_type_t {
        dqcs_gate_type_t::spec_from(*gate_type)
    }
}

} // verus!

verus! {

/// A plugin type survives the trip through its C value, and every valid C
/// value is the value of the type it names.
pub proof fn law_plugin_type_roundtrip(t: PluginType, c: dqcs_plugin_type_t)
    ensures
        dqcs_plugin_type_t::spec_from(t).spec_plugin_type() == Some(t),
        c.spec_plugin_type() matches Some(u) ==> dqcs_plugin_type_t::spec_from(u) == c,
        c.spec_plugin_type() is None <==> c == dqcs_plugin_type_t::DQCS_PTYPE_INVALID,
{
}

/// The C loglevel of a level, of its filter and of the capture mode at that
/// level coincide, and their C value is the level's value; `Off` is 0.
pub proof fn law_loglevel_values(level: Loglevel, filter: LoglevelFilter)
    ensures
        dqcs_loglevel_t::spec_from_loglevel(level).spec_value() == level.rank(),
        dqcs_loglevel_t::spec_from_filter(filter).spec_value() == filter.rank(),
        dqcs_loglevel_t::spec_from_filter(LoglevelFilter::spec_from(level))
            == dqcs_loglevel_t::spec_from_loglevel(level),
        dqcs_loglevel_t::spec_from_capture_mode(StreamCaptureMode::Capture(level))
            == dqcs_loglevel_t::spec_from_loglevel(level),
{
}

/// A capture mode survives the trip through its C value, and every valid C
/// value is the value of the mode it names.
pub proof fn law_capture_mode_roundtrip(mode: StreamCaptureMode, c: dqcs_loglevel_t)
    ensures
        dqcs_loglevel_t::spec_from_capture_mode(mode).spec_capture_mode() == Some(mode),
        c.spec_capture_mode() matches Some(m) ==> dqcs_loglevel_t::spec_from_capture_mode(m) == c,
        c.spec_capture_mode() is None <==> c == dqcs_loglevel_t::DQCS_LOG_INVALID,
{
}

/// A level survives the trip through its C value (`into_loglevel` gives it
/// back), and so does a filter (`into_loglevel_filter` gives it back): the
/// C value of `Off` reads back as `Off`, that of any other filter as the
/// capture at the level of the same name.
pub proof fn law_level_and_filter_roundtrip(level: Loglevel, filter: LoglevelFilter)
    ensures
        dqcs_loglevel_t::spec_from_loglevel(level).spec_capture_mode() == Some(
            StreamCaptureMode::Capture(level),
        ),
        filter == LoglevelFilter::Off ==> dqcs_loglevel_t::spec_from_filter(
            filter,
        ).spec_capture_mode() == Some(StreamCaptureMode::Null),
        Loglevel::spec_try_from(filter) matches Some(l) ==> dqcs_loglevel_t::spec_from_filter(
            filter,
        ).spec_capture_mode() == Some(StreamCaptureMode::Capture(l))
            && LoglevelFilter::spec_from(l) == filter,
{
}

/// A boolean maps to the C value 1 for true and 0 for false.
pub proof fn law_bool_values(b: bool)
    ensures
        dqcs_bool_return_t::spec_from(b).spec_value() == (if b {
            1int
        } else {
            0int
        }),
{
}

/// A measurement value survives the trip through its C value, and only the
/// invalid C value names none.
pub proof fn law_measurement_roundtrip(v: QubitMeasurementValue, c: dqcs_measurement_t)
    ensures
        dqcs_measurement_t::spec_from(v).spec_measurement_value() == Some(v),
        c.spec_measurement_value() matches Some(w) ==> dqcs_measurement_t::spec_from(w) == c,
        c.spec_measurement_value() is None <==> c == dqcs_measurement_t::DQCS_MEAS_INVALID,
{
}

/// A path style survives the trip through its C value, and only the
/// invalid C value names none.
pub proof fn law_path_style_roundtrip(p: ReproductionPathStyle, c: dqcs_path_style_t)
    ensures
        dqcs_path_style_t::spec_from(p).spec_path_style() == Some(p),
        c.spec_path_style() matches Some(q) ==> dqcs_path_style_t::spec_from(q) == c,
        c.spec_path_style() is None <==> c == dqcs_path_style_t::DQCS_PATH_STYLE_INVALID,
{
}

/// Only the invalid C gate value names no unitary gate type, and distinct
/// C gate values name distinct gate types.
pub proof fn law_predefined_gates_distinct(a: dqcs_predefined_gate_t, b: dqcs_predefined_gate_t)
    ensures
        a.spec_unitary_gate_type() is None <==> a == dqcs_predefined_gate_t::DQCS_GATE_INVALID,
        a.spec_unitary_gate_type() is Some && a.spec_unitary_gate_type()
            == b.spec_unitary_gate_type() ==> a == b,
{
}

/// Each C plugin type names the plugin type of the same name: the C
/// values of frontends, operators and backends are 0, 1 and 2, and the
/// invalid value, -1, names none.
pub proof fn law_plugin_type_values(c: dqcs_plugin_type_t)
    ensures
        dqcs_plugin_type_t::spec_from(PluginType::Frontend).spec_value() == 0,
        dqcs_plugin_type_t::spec_from(PluginType::Operator).spec_value() == 1,
        dqcs_plugin_type_t::spec_from(PluginType::Backend).spec_value() == 2,
        c.spec_value() == 0 ==> c.spec_plugin_type() == Some(PluginType::Frontend),
        c.spec_value() == 1 ==> c.spec_plugin_type() == Some(PluginType::Operator),
        c.spec_value() == 2 ==> c.spec_plugin_type() == Some(PluginType::Backend),
        c.spec_plugin_type() is None <==> c.spec_value() == -1,
        c.spec_plugin_type() matches Some(u) ==> dqcs_plugin_type_t::spec_from(u).spec_value()
            == c.spec_value(),
{
}

/// The C value of a capture mode: 0 discards the stream, 8 passes it
/// through, and 1 to 7 capture it at the level of that value (fatal to
/// trace); -1 is invalid.
pub proof fn law_capture_mode_values(mode: StreamCaptureMode, c: dqcs_loglevel_t)
    ensures
        dqcs_loglevel_t::spec_from_capture_mode(StreamCaptureMode::Null).spec_value() == 0,
        dqcs_loglevel_t::spec_from_capture_mode(StreamCaptureMode::Pass).spec_value() == 8,
        mode matches StreamCaptureMode::Capture(l) ==> dqcs_loglevel_t::spec_from_capture_mode(
            mode,
        ).spec_value() == l.rank(),
        c.spec_value() == 0 ==> c.spec_capture_mode() == Some(StreamCaptureMode::Null),
        c.spec_value() == 8 ==> c.spec_capture_mode() == Some(StreamCaptureMode::Pass),
        c.spec_capture_mode() matches Some(StreamCaptureMode::Capture(l)) ==> l.rank()
            == c.spec_value(),
        1 <= c.spec_value() <= 7 ==> c.spec_capture_mode() matches Some(StreamCaptureMode::Capture(_)),
        c.spec_capture_mode() is None <==> c.spec_value() == -1,
        dqcs_loglevel_t::spec_from_filter(LoglevelFilter::Off).spec_value() == 0,
{
}

/// The C values of measurement results: 0 for zero, 1 for one, 2 for an
/// undefined value; -1 is invalid.
pub proof fn law_measurement_values(c: dqcs_measurement_t)
    ensures
        dqcs_measurement_t::spec_from(QubitMeasurementValue::Zero).spec_value() == 0,
        dqcs_measurement_t::spec_from(QubitMeasurementValue::One).spec_value() == 1,
        dqcs_measurement_t::spec_from(QubitMeasurementValue::Undefined).spec_value() == 2,
        c.spec_value() == 0 ==> c.spec_measurement_value() == Some(QubitMeasurementValue::Zero),
        c.spec_value() == 1 ==> c.spec_measurement_value() == Some(QubitMeasurementValue::One),
        c.spec_value() == 2 ==> c.spec_measurement_value() == Some(QubitMeasurementValue::Undefined),
        c.spec_measurement_value() is None <==> c.spec_value() == -1,
{
}

/// The C values of path styles: 0 keeps paths, 1 makes them relative, 2
/// absolute; -1 is invalid.
pub proof fn law_path_style_values(c: dqcs_path_style_t)
    ensures
        dqcs_path_style_t::spec_from(ReproductionPathStyle::Keep).spec_value() == 0,
        dqcs_path_style_t::spec_from(ReproductionPathStyle::Relative).spec_value() == 1,
        dqcs_path_style_t::spec_from(ReproductionPathStyle::Absolute).spec_value() == 2,
        c.spec_value() == 0 ==> c.spec_path_style() == Some(ReproductionPathStyle::Keep),
        c.spec_value() == 1 ==> c.spec_path_style() == Some(ReproductionPathStyle::Relative),
        c.spec_value() == 2 ==> c.spec_path_style() == Some(ReproductionPathStyle::Absolute),
        c.spec_path_style() is None <==> c.spec_value() == -1,
{
}

/// The C values of bases and gate types: X, Y and Z are 1, 2 and 3;
/// unitary, measurement, preparation and custom gates are 1, 2, 3 and 4;
/// 0 is invalid.
pub proof fn law_basis_and_gate_type_values(b: dqcs_basis_t, name: String)
    ensures
        b.spec_value() == 1 ==> b.spec_basis() == Some(Basis::X),
        b.spec_value() == 2 ==> b.spec_basis() == Some(Basis::Y),
        b.spec_value() == 3 ==> b.spec_basis() == Some(Basis::Z),
        b.spec_basis() is None <==> b.spec_value() == 0,
        dqcs_gate_type_t::spec_from(GateType::Unitary).spec_value() == 1,
        dqcs_gate_type_t::spec_from(GateType::Measurement).spec_value() == 2,
        dqcs_gate_type_t::spec_from(GateType::Prep).spec_value() == 3,
        dqcs_gate_type_t::spec_from(GateType::Custom(name)).spec_value() == 4,
{
}

/// The C values of the predefined gates name gate types of the same
/// name; the general unitaries on n = 1, 2, 3 qubits have the value
/// 100·n + 90, and 0 is invalid.
pub proof fn law_predefined_gate_values(c: dqcs_predefined_gate_t)
    ensures
        c.spec_value() == 100 ==> c.spec_unitary_gate_type() == Some(UnitaryGateType::I),
        c.spec_value() == 101 ==> c.spec_unitary_gate_type() == Some(UnitaryGateType::X),
        c.spec_value() == 102 ==> c.spec_unitary_gate_type() == Some(UnitaryGateType::Y),
        c.spec_value() == 103 ==> c.spec_unitary_gate_type() == Some(UnitaryGateType::Z),
        c.spec_value() == 104 ==> c.spec_unitary_gate_type() == Some(UnitaryGateType::H),
        c.spec_value() == 105 ==> c.spec_unitary_gate_type() == Some(UnitaryGateType::S),
        c.spec_value() == 106 ==> c.spec_unitary_gate_type() == Some(UnitaryGateType::SDAG),
        c.spec_value() == 107 ==> c.spec_unitary_gate_type() == Some(UnitaryGateType::T),
        c.spec_value() == 108 ==> c.spec_unitary_gate_type() == Some(UnitaryGateType::TDAG),
        c.spec_value() == 109 ==> c.spec_unitary_gate_type() == Some(UnitaryGateType::RX90),
        c.spec_value() == 110 ==> c.spec_unitary_gate_type() == Some(UnitaryGateType::RXM90),
        c.spec_value() == 111 ==> c.spec_unitary_gate_type() == Some(UnitaryGateType::RX180),
        c.spec_value() == 112 ==> c.spec_unitary_gate_type() == Some(UnitaryGateType::RY90),
        c.spec_value() == 113 ==> c.spec_unitary_gate_type() == Some(UnitaryGateType::RYM90),
        c.spec_value() == 114 ==> c.spec_unitary_gate_type() == Some(UnitaryGateType::RY180),
        c.spec_value() == 115 ==> c.spec_unitary_gate_type() == Some(UnitaryGateType::RZ90),
        c.spec_value() == 116 ==> c.spec_unitary_gate_type() == Some(UnitaryGateType::RZM90),
        c.spec_value() == 117 ==> c.spec_unitary_gate_type() == Some(UnitaryGateType::RZ180),
        c.spec_value() == 150 ==> c.spec_unitary_gate_type() == Some(UnitaryGateType::RX),
        c.spec_value() == 151 ==> c.spec_unitary_gate_type() == Some(UnitaryGateType::RY),
        c.spec_value() == 152 ==> c.spec_unitary_gate_type() == Some(UnitaryGateType::RZ),
        c.spec_value() == 153 ==> c.spec_unitary_gate_type() == Some(UnitaryGateType::PhaseK),
        c.spec_value() == 154 ==> c.spec_unitary_gate_type() == Some(UnitaryGateType::Phase),
        c.spec_value() == 191 ==> c.spec_unitary_gate_type() == Some(UnitaryGateType::R),
        c.spec_value() == 200 ==> c.spec_unitary_gate_type() == Some(UnitaryGateType::SWAP),
        c.spec_value() == 201 ==> c.spec_unitary_gate_type() == Some(UnitaryGateType::SQSWAP),
        c.spec_unitary_gate_type() matches Some(UnitaryGateType::U(n)) ==> c.spec_value() == 100
            * n + 90 && 1 <= n <= 3,
        c.spec_unitary_gate_type() is None <==> c.spec_value() == 0,
{
}

} // verus!
