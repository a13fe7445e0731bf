use dqcsim::error::Error;
use dqcsim::log::{Loglevel, LoglevelFilter};
use dqcsim::plugin::{chain_start, chain_step, init_reply, init_request, ChainAction};
use dqcsim::protocol::{
    clone_arb_cmds, ArbCmd, ArbData, InitializeResponse, PluginConfiguration,
    PluginFunctionalConfiguration, PluginNonfunctionalConfiguration, Request, Response, Timeout,
};
use dqcsim::types::StreamCaptureMode;

fn config() -> PluginConfiguration {
    PluginConfiguration {
        name: "op".to_string(),
        functional: PluginFunctionalConfiguration {
            init: vec![ArbCmd {
                interface_identifier: "a".to_string(),
                operation_identifier: "b".to_string(),
                data: ArbData { json: "{}".to_string(), args: vec![vec![1, 2], vec![]] },
            }],
        },
        nonfunctional: PluginNonfunctionalConfiguration {
            verbosity: LoglevelFilter::Debug,
            stderr_mode: StreamCaptureMode::Capture(Loglevel::Info),
            stdout_mode: StreamCaptureMode::Pass,
            accept_timeout: Timeout::Infinite,
            shutdown_timeout: Timeout::Duration(std::time::Duration::from_secs(5)),
        },
    }
}

#[test]
fn init_request_carries_configuration() {
    let c = config();
    match init_request(&c, Some("ipc://down".to_string())) {
        Request::Init(req) => {
            assert_eq!(req.downstream, Some("ipc://down".to_string()));
            assert_eq!(req.arb_cmds, c.functional.init);
            assert_eq!(req.prefix, "op");
            assert_eq!(req.level, LoglevelFilter::Debug);
        }
        other => panic!("unexpected request {:?}", other),
    }
}

#[test]
fn init_reply_meaning() {
    let r = init_reply(Response::Init(InitializeResponse { upstream: Some("up".to_string()) }));
    assert_eq!(r, Ok(Some("up".to_string())));
    assert_eq!(init_reply(Response::Init(InitializeResponse { upstream: None })), Ok(None));
    assert_eq!(init_reply(Response::Success), Err(Error::Other("bad-reply".to_string())));
}

#[test]
fn arb_clone_is_equal() {
    let c = config();
    let cmd = c.functional.init[0].clone();
    assert_eq!(cmd, c.functional.init[0]);
    assert_eq!(clone_arb_cmds(&c.functional.init), c.functional.init);
}

#[test]
fn arb_data_clone_keeps_args() {
    let d = ArbData { json: "{\"a\":1}".to_string(), args: vec![vec![], vec![0, 255], vec![7]] };
    let e = d.clone();
    assert_eq!(e.json, "{\"a\":1}");
    assert_eq!(e.args, vec![vec![], vec![0, 255], vec![7]]);
}

#[test]
fn chain_passes_endpoints_upstream() {
    assert_eq!(chain_start(0), ChainAction::Done);
    assert_eq!(chain_start(3), ChainAction::Initialize(0, None));
    let reply = |u: Option<&str>| Response::Init(InitializeResponse { upstream: u.map(|s| s.to_string()) });
    assert_eq!(
        chain_step(0, 3, reply(Some("ipc://backend"))),
        ChainAction::Initialize(1, Some("ipc://backend".to_string()))
    );
    assert_eq!(chain_step(1, 3, reply(None)), ChainAction::Initialize(2, None));
    assert_eq!(chain_step(2, 3, reply(Some("x"))), ChainAction::Done);
    assert_eq!(
        chain_step(1, 3, Response::Success),
        ChainAction::Failed(Error::Other("bad-reply".to_string()))
    );
}
