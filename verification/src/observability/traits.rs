//! What observers are told.
use vstd::prelude::*;

verus! {

/// Something that happened.
#[derive(Debug, Clone, PartialEq, Eq)]
pub enum ObserverEvent {
    /// An agent began to work with a model of a provider.
    AgentStart { provider: String, model: String },
    /// A message went through a channel.
    ChannelMessage { channel: String, direction: String },
    /// The heartbeat ticked.
    HeartbeatTick,
    /// A component failed.
    Error { component: String, message: String },
}

/// Something that was measured.
#[derive(Debug, Clone, Copy, PartialEq, Eq)]
pub enum ObserverMetric {
    TokensUsed(u64),
    ActiveSessions(u64),
    QueueDepth(u64),
}

} // verus!
