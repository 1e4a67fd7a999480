//! Gateway library bridging an RPC order-submission front end to a
//! session-oriented financial messaging engine.
//!
//! The library holds the verified core of the gateway: the sequenced
//! event cache, the duplicate-submission guard, the connection-state
//! monitor, the request-to-order translation layer, and the decision
//! logic of the order-forwarding pipeline. The unverified edges (the
//! RPC transport, the engine's wire-level session handling, process
//! configuration and logging) live outside and talk to this library
//! through plain values.

pub mod cfg;
pub mod fix_convert;
pub mod fix_interface;
pub mod gw_plugin;
pub mod order_manager;
pub mod server;
pub mod shared_data;
