//! The handle on the streaming endpoint.

use vstd::prelude::*;

verus! {

/// The endpoint that connections are made to.
#[derive(Debug, Clone)]
pub struct RpcClient {
    pub rpc_url: String,
}

impl RpcClient {
    /// A client for `url`; connections are opened per request.
    pub fn connect(url: &str) -> (r: Self)
        ensures
            r.rpc_url@ == url@,
    {
        RpcClient { rpc_url: url.to_owned() }
    }
}

} // verus!
