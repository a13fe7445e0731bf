//! The decisions a simulator makes about a plugin: the request that
//! initializes it, and what the plugin's reply to that request means.
//!
//! The plugins of a simulation are initialized in a chain, from the
//! downstream end up: each is told the endpoint of its downstream neighbour,
//! and answers with the endpoint its upstream neighbour is to connect to.

use vstd::prelude::*;
use crate::error::{is_other, Error, Result};
use crate::protocol::{
    arb_cmds_view, clone_arb_cmds, InitializeRequest, PluginConfiguration, Request, Response,
};

verus! {

/// The request that initializes the plugin of the given configuration,
/// telling it the downstream plugin to connect to: it carries the
/// plugin's initialization commands, its name as the log prefix, and its
/// verbosity as the log level.
pub fn init_request(configuration: &PluginConfiguration, downstream: Option<String>) -> (r: Request)
    ensures
        r matches Request::Init(req) && {
            &&& req.downstream == downstream
            &&& arb_cmds_view(req.arb_cmds@) == arb_cmds_view(configuration.functional.init@)
            &&& req.prefix@ == configuration.name@
            &&& req.level == configuration.nonfunctional.verbosity
        },
{
    Request::Init(
        InitializeRequest {
            downstream,
            arb_cmds: clone_arb_cmds(&configuration.functional.init),
            prefix: configuration.name.clone(),
            level: configuration.nonfunctional.verbosity,
        },
    )
}

/// What the plugin's reply to the initialization request means: an
/// initialization response gives the endpoint that the next plugin upstream
/// is to connect to, if any; any other reply is an error.
pub fn init_reply(response: Response) -> (r: Result<Option<String>>)
    ensures
        response matches Response::Init(resp) ==> r == Ok::<Option<String>, Error>(resp.upstream),
        response is Success ==> is_other(r, "bad-reply"@),
{
    match response {
        Response::Init(resp) => Ok(resp.upstream),
        _ => Err(Error::Other(String::from_str("bad-reply"))),
    }
}

/// What the simulator does next while it initializes a chain of plugins,
/// from the downstream end (position 0) up.
#[derive(Debug, PartialEq, Eq)]
pub enum ChainAction {
    /// Send the initialization request to the plugin at this position,
    /// telling it this downstream endpoint.
    Initialize(usize, Option<String>),
    /// Every plugin of the chain is initialized.
    Done,
    /// The initialization failed with this error.
    Failed(Error),
}

/// The first step of initializing a chain of `count` plugins: the most
/// downstream plugin is initialized first, with no downstream endpoint.
pub fn chain_start(count: usize) -> (r: ChainAction)
    ensures
        count == 0 ==> r is Done,
        count > 0 ==> r == ChainAction::Initialize(0, None),
{
    if count == 0 {
        ChainAction::Done
    } else {
        ChainAction::Initialize(0, None)
    }
}

/// The step after the plugin at `position` of a chain of `count` plugins
/// replied to its initialization request: the next plugin upstream is told
/// the endpoint this one answered, until the chain ends; a reply that is no
/// initialization response stops the chain with an error.
pub fn chain_step(position: usize, count: usize, response: Response) -> (r: ChainAction)
    requires
        position < count,
    ensures
        response matches Response::Init(resp) ==> (if position + 1 < count {
            r == ChainAction::Initialize((position + 1) as usize, resp.upstream)
        } else {
            r is Done
        }),
        response is Success ==> (r matches ChainAction::Failed(e) && is_other(
            Err::<(), Error>(e),
            "bad-reply"@,
        )),
{
    match init_reply(response) {
        Ok(upstream) => {
            if position + 1 < count {
                ChainAction::Initialize(position + 1, upstream)
            } else {
                ChainAction::Done
            }
        },
        Err(e) => ChainAction::Failed(e),
    }
}

} // verus!
