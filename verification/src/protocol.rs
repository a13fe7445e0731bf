//! The messages exchanged between the simulator and its plugins, and the
//! plugin configuration they carry.

use vstd::prelude::*;
use crate::log::LoglevelFilter;
use crate::types::StreamCaptureMode;

verus! {

/// Arbitrary data: a JSON text and a list of binary strings.
#[derive(Debug, PartialEq, Eq)]
pub struct ArbData {
    /// The JSON part.
    pub json: String,
    /// The binary arguments.
    pub args: Vec<Vec<u8>>,
}

/// The abstract value of arbitrary data.
pub struct ArbDataView {
    /// The JSON text.
    pub json: Seq<char>,
    /// The binary arguments.
    pub args: Seq<Seq<u8>>,
}

impl View for ArbData {
    type V = ArbDataView;

    open spec fn view(&self) -> ArbDataView {
        ArbDataView { json: self.json@, args: self.args@.map_values(|a: Vec<u8>| a@) }
    }
}

impl Clone for ArbData {
    fn clone(&self) -> (r: ArbData)
        ensures
            r@ == self@,
    {
        let mut args: Vec<Vec<u8>> = Vec::new();
        let n = self.args.len();
        for i in 0..n
            invariant
                n == self.args@.len(),
                args@.len() == i,
                forall|j: int| 0 <= j < i ==> (#[trigger] args@[j])@ == self.args@[j]@,
        {
            let a = self.args[i].clone();
            assert(a@ =~= self.args@[i as int]@);
            args.push(a);
        }
        let r = ArbData { json: self.json.clone(), args };
        assert(r@.args =~= self@.args);
        r
    }
}

/// An arbitrary command: an interface and an operation identifier, and the
/// data of the command.
#[derive(Debug, PartialEq, Eq)]
pub struct ArbCmd {
    /// The interface the command belongs to.
    pub interface_identifier: String,
    /// The operation within the interface.
    pub operation_identifier: String,
    /// The data of the command.
    pub data: ArbData,
}

/// The abstract value of an arbitrary command.
pub struct ArbCmdView {
    /// The interface identifier.
    pub interface_identifier: Seq<char>,
    /// The operation identifier.
    pub operation_identifier: Seq<char>,
    /// The data.
    pub data: ArbDataView,
}

impl View for ArbCmd {
    type V = ArbCmdView;

    open spec fn view(&self) -> ArbCmdView {
        ArbCmdView {
            interface_identifier: self.interface_identifier@,
            operation_identifier: self.operation_identifier@,
            data: self.data@,
        }
    }
}

impl Clone for ArbCmd {
    fn clone(&self) -> (r: ArbCmd)
        ensures
            r@ == self@,
    {
        ArbCmd {
            interface_identifier: self.interface_identifier.clone(),
            operation_identifier: self.operation_identifier.clone(),
            data: self.data.clone(),
        }
    }
}

/// The views of a list of commands.
pub open spec fn arb_cmds_view(cmds: Seq<ArbCmd>) -> Seq<ArbCmdView> {
    cmds.map_values(|c: ArbCmd| c@)
}

/// Clones a list of commands.
pub fn clone_arb_cmds(cmds: &Vec<ArbCmd>) -> (r: Vec<ArbCmd>)
    ensures
        arb_cmds_view(r@) == arb_cmds_view(cmds@),
{
    let mut r: Vec<ArbCmd> = Vec::new();
    let n = cmds.len();
    for i in 0..n
        invariant
            n == cmds@.len(),
            r@.len() == i,
            forall|j: int| 0 <= j < i ==> (#[trigger] r@[j])@ == cmds@[j]@,
    {
        r.push(cmds[i].clone());
    }
    assert(arb_cmds_view(r@) =~= arb_cmds_view(cmds@));
    r
}

/// A timeout: a finite duration, or none at all.
#[derive(Clone, Copy, Debug)]
pub enum Timeout {
    /// Time out after the duration.
    Duration(std::time::Duration),
    /// Never time out.
    Infinite,
}

/// The functional configuration of a plugin: what it is asked to do.
#[derive(Clone, Debug)]
pub struct PluginFunctionalConfiguration {
    /// The commands sent to the plugin when it is initialized.
    pub init: Vec<ArbCmd>,
}

/// The nonfunctional configuration of a plugin: how it is run.
#[derive(Clone, Debug)]
pub struct PluginNonfunctionalConfiguration {
    /// The level at which the plugin logs.
    pub verbosity: LoglevelFilter,
    /// What happens to the plugin's stderr stream.
    pub stderr_mode: StreamCaptureMode,
    /// What happens to the plugin's stdout stream.
    pub stdout_mode: StreamCaptureMode,
    /// How long the simulator waits for the plugin to connect.
    pub accept_timeout: Timeout,
    /// How long the simulator waits for the plugin to shut down.
    pub shutdown_timeout: Timeout,
}

/// The configuration of a plugin.
#[derive(Clone, Debug)]
pub struct PluginConfiguration {
    /// The name of the plugin.
    pub name: String,
    /// What the plugin is asked to do.
    pub functional: PluginFunctionalConfiguration,
    /// How the plugin is run.
    pub nonfunctional: PluginNonfunctionalConfiguration,
}

/// Simulator to plugin requests.
#[derive(Debug)]
pub enum Request {
    /// Handshake the configuration for reference.
    Configuration(Box<PluginConfiguration>),
    /// Request to initialize the plugin: it is to connect to the given
    /// downstream plugin.
    Init(InitializeRequest),
    /// Request to abort the simulation and stop the plugin.
    Abort,
}

/// Plugin to simulator responses.
#[derive(Debug)]
pub enum Response {
    /// Initialization response.
    Init(InitializeResponse),
    /// Success response.
    Success,
}

/// Initialization request.
#[derive(Debug)]
pub struct InitializeRequest {
    /// Downstream plugin to connect to.
    pub downstream: Option<String>,
    /// Arbitrary commands.
    pub arb_cmds: Vec<ArbCmd>,
    /// Prefix for logging.
    pub prefix: String,
    /// LoglevelFilter for logging.
    pub level: LoglevelFilter,
}

/// Initialization response.
#[derive(Debug)]
pub struct InitializeResponse {
    /// Upstream endpoint.
    pub upstream: Option<String>,
}

/// Greetings exchanged between neighbouring plugins.
#[derive(Debug)]
pub enum GateStream {
    /// Greeting.
    Hello(String),
    /// Farewell.
    Bye(String),
}

} // verus!
