//! The ephemeral description of one discovered tunnel.

use vstd::prelude::*;

verus! {

/// One active tunnel as the discovery endpoint reports it: the public URL,
/// the protocol, and the local bind address it forwards to. Consumed for
/// notification and then discarded.
#[derive(Debug, Clone)]
pub struct NgrokTunnel {
    pub public_url: String,
    pub proto: String,
    pub config: NgrokTunnelConfig,
}

/// The local half of a tunnel's configuration.
#[derive(Debug, Clone)]
pub struct NgrokTunnelConfig {
    pub addr: String,
}

} // verus!
