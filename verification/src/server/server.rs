//! The health-check server: its queues and the routing of the messages of
//! the control agent.

use crate::server::types::{HealthcheckConfig, ProxyToServerMsg, ServerConfig};
use vstd::prelude::*;

verus! {

/// The capacities of the four bounded queues of the server.
#[derive(Debug, Clone, Copy, PartialEq, Eq, Structural)]
pub struct QueueCapacities {
    /// Notifications, from the poller to the notifier.
    pub notifications: usize,
    /// Configuration updates, to the manager.
    pub config_updates: usize,
    /// Messages to the control agent.
    pub to_proxy: usize,
    /// Messages from the control agent.
    pub from_proxy: usize,
}

/// Where a message of the control agent goes.
pub enum Routing {
    /// To the manager: the full set of checks that are wanted.
    UpdateConfigs(Vec<HealthcheckConfig>),
    /// Nowhere: a request for status is noted and dropped.
    StatusRequested,
    /// The handler stops.
    Stop,
}

/// Where a message of the control agent goes.
pub open spec fn routing_spec(msg: ProxyToServerMsg) -> Routing {
    match msg {
        ProxyToServerMsg::UpdateConfigs { configs } => Routing::UpdateConfigs(configs),
        ProxyToServerMsg::RequestStatus => Routing::StatusRequested,
        ProxyToServerMsg::Shutdown => Routing::Stop,
    }
}

/// The health-check server.
pub struct HealthcheckServer {
    config: ServerConfig,
}

impl HealthcheckServer {
    /// The configuration of the server.
    pub closed spec fn config(&self) -> ServerConfig {
        self.config
    }

    /// A server with the given configuration.
    pub fn new(config: ServerConfig) -> (s: Self)
        ensures
            s.config() == config,
    {
        HealthcheckServer { config }
    }

    /// The configuration of the server.
    pub fn get_config(&self) -> (c: &ServerConfig)
        ensures
            *c == self.config(),
    {
        &self.config
    }

    /// The capacities of the queues: notifications and messages to the
    /// control agent share the channel size, configuration updates and
    /// messages from the control agent have their own.
    pub fn queue_capacities(&self) -> (q: QueueCapacities)
        ensures
            q == (QueueCapacities {
                notifications: self.config().channel_size,
                config_updates: self.config().config_channel_size,
                to_proxy: self.config().channel_size,
                from_proxy: self.config().proxy_channel_size,
            }),
    {
        QueueCapacities {
            notifications: self.config.channel_size,
            config_updates: self.config.config_channel_size,
            to_proxy: self.config.channel_size,
            from_proxy: self.config.proxy_channel_size,
        }
    }

    /// Routes one message of the control agent: an update goes to the
    /// manager, a request for status is noted and dropped, a shutdown stops
    /// the handler.
    pub fn route_message(msg: ProxyToServerMsg) -> (routing: Routing)
        ensures
            routing == routing_spec(msg),
    {
        match msg {
            ProxyToServerMsg::UpdateConfigs { configs } => Routing::UpdateConfigs(configs),
            ProxyToServerMsg::RequestStatus => Routing::StatusRequested,
            ProxyToServerMsg::Shutdown => Routing::Stop,
        }
    }
}

} // verus!
