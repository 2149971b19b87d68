//! Discovery of mining boards over the physical transports.
//!
//! The transport event enum of the board support (one variant per
//! transport, carrying the CPU and USB transports' own event types) is not
//! defined here: those transports' modules are not part of this crate, so
//! their event types cannot be named. Discovery is synchronous here, as
//! verified code has no `async`.
use vstd::prelude::*;

verus! {

/// Why a transport could not start or stop discovering devices.
#[derive(Debug, Clone)]
pub struct TransportError {
    pub message: String,
}

/// Common interface of transport discovery: each transport can offer
/// device discovery through it, started and stopped on demand.
pub trait TransportDiscovery: Send + Sync {
    /// Start discovering devices on this transport.
    fn start_discovery(&self) -> Result<(), TransportError>;

    /// Stop discovery and clean up resources.
    fn stop_discovery(&self) -> Result<(), TransportError>;
}

} // verus!
