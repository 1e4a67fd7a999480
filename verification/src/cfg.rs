use vstd::prelude::*;

verus! {

/// Selects the counterparty-specific order-translator profile, chosen
/// once at startup from configuration and immutable thereafter.
#[derive(Debug, Clone, Copy, PartialEq, Eq, Structural)]
pub enum BrokerName {
    Broker1,
    Broker2,
}

/// Process configuration recognised by the gateway: the RPC bind
/// address, the session engine's settings file, the session identity
/// triple, the cache-poll period in milliseconds, and the translator
/// profile.
#[derive(Debug, Clone)]
pub struct GwConfig {
    pub address: String,
    pub fix_cfg: String,
    pub begin_string: String,
    pub sender_comp_id: String,
    pub target_comp_id: String,
    pub interval: u64,
    pub plugin_cfg_file: String,
    pub broker_name: BrokerName,
}

} // verus!
