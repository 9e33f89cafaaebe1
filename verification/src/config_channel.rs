//! The configuration channel: a cell that holds the latest optional TLS
//! server configuration. One writer publishes, any number of readers take a
//! point-in-time snapshot. No history is kept.

use std::sync::Arc;
use vstd::prelude::*;

verus! {

/// Identifies one published server configuration.
pub type ConfigId = u64;

/// `rustls::ServerConfig`: certificate chain, private key and negotiation
/// parameters, carried through as one opaque value.
#[verifier::external_type_specification]
#[verifier::external_body]
pub struct ExServerConfig(rustls::ServerConfig);

/// `tokio::sync::watch::Receiver`: the reading end of the channel on which
/// the configuration loader publishes. Nothing is known of what it holds.
#[verifier::external_type_specification]
#[verifier::external_body]
#[verifier::reject_recursive_types(T)]
pub struct ExWatchReceiver<T>(tokio::sync::watch::Receiver<T>);

/// The latest published configuration, or none while no certificate has been
/// loaded. A publish replaces the value wholesale.
#[derive(Debug)]
pub struct ConfigSlot {
    current: Option<ConfigId>,
}

impl View for ConfigSlot {
    type V = Option<ConfigId>;

    closed spec fn view(&self) -> Option<ConfigId> {
        self.current
    }
}

impl ConfigSlot {
    /// A slot in which nothing has been published yet.
    pub fn empty() -> (slot: Self)
        ensures
            slot@ is None,
    {
        ConfigSlot { current: None }
    }

    /// A slot that starts out with `config` published.
    pub fn holding(config: ConfigId) -> (slot: Self)
        ensures
            slot@ == Some(config),
    {
        ConfigSlot { current: Some(config) }
    }

    /// Replaces the held value. What was held before is forgotten.
    pub fn publish(&mut self, value: Option<ConfigId>)
        ensures
            final(self)@ == value,
    {
        self.current = value;
    }

    /// The most recently published value.
    pub fn snapshot(&self) -> (latest: Option<ConfigId>)
        ensures
            latest == self@,
    {
        self.current
    }
}

/// Calls `tokio::sync::watch::Receiver::borrow` and clones the value it
/// guards. The value is whatever the sender published last, which another
/// task may replace at any moment, so nothing is claimed of the result.
#[verifier::external_body]
pub(crate) fn read_latest(
    channel: &tokio::sync::watch::Receiver<Option<Arc<rustls::ServerConfig>>>,
) -> (latest: Option<Arc<rustls::ServerConfig>>) {
    channel.borrow().clone()
}

} // verus!
