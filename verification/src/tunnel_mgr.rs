//! The managed third-party tunnel endpoints: the requests they take and
//! the decisions behind them. Spawning and killing the tunnel process
//! happens outside.

use vstd::prelude::*;

use crate::text::str_eq;

verus! {

/// A request to the management API to start a third-party tunnel.
pub struct StartTunnelRequest {
    pub provider: String,
    pub token: String,
    pub local_port: Option<u16>,
}

/// The same request as the desktop front-end sends it.
pub struct TunnelStartRequest {
    pub provider: String,
    pub token: String,
    pub local_port: Option<u16>,
}

/// What a tunnel endpoint answered.
pub struct TunnelResponse {
    pub status: String,
    pub message: String,
}

/// The supported third-party tunnel providers.
#[derive(Clone, Copy, PartialEq, Eq, Structural, Debug)]
pub enum TunnelProvider {
    Cloudflare,
    Pangolin,
}

/// Recognize a provider name; anything else is unsupported and refused.
pub fn parse_provider(name: &str) -> (r: Option<TunnelProvider>)
    ensures
        r == Some(TunnelProvider::Cloudflare) <==> name@ == "cloudflare"@,
        r == Some(TunnelProvider::Pangolin) <==> name@ == "pangolin"@,
        r is None <==> name@ != "cloudflare"@ && name@ != "pangolin"@,
{
    proof {
        reveal_strlit("cloudflare");
        reveal_strlit("pangolin");
        assert("cloudflare"@.len() == 10);
        assert("pangolin"@.len() == 8);
        assert("cloudflare"@ != "pangolin"@);
    }
    if str_eq(name, "cloudflare") {
        Some(TunnelProvider::Cloudflare)
    } else if str_eq(name, "pangolin") {
        Some(TunnelProvider::Pangolin)
    } else {
        None
    }
}

/// The local port a tunnel forwards to: the request's, or the mesh port.
pub fn tunnel_forward_port(local_port: Option<u16>, mesh_port: u16) -> (r: u16)
    ensures
        local_port matches Some(p) ==> r == p,
        local_port is None ==> r == mesh_port,
{
    match local_port {
        Some(p) => p,
        None => mesh_port,
    }
}

} // verus!
