//! The behaviour composite, as far as the engine decides on it: what each
//! sub-behaviour is set up with, and which sub-behaviour an event comes from.
//!
//! The composite itself is put together by whoever owns the network; it is
//! made of topic messaging, the distributed hash table, identity exchange and
//! local-network discovery, polled as one.

use crate::reactor::{NetworkEvent, NetworkEventView};
use vstd::prelude::*;

verus! {

/// The protocol version that identity exchange announces.
pub const IDENTIFY_PROTOCOL_VERSION: &'static str = "/ipfs/0.1.0";

/// After how many seconds a query of the distributed hash table is given up.
pub const KADEMLIA_QUERY_TIMEOUT_SECS: u64 = 5 * 60;

/// How many seconds pass between two heartbeats of topic messaging.
pub const GOSSIPSUB_HEARTBEAT_SECS: u64 = 10;

/// What the sub-behaviours are set up with.
#[derive(Debug, Clone, PartialEq, Eq)]
pub struct BlinkBehaviorConfig {
    /// The protocol version that identity exchange announces.
    pub identify_protocol_version: String,
    /// After how many seconds a query for peers is given up.
    pub kademlia_query_timeout_secs: u64,
    /// How many seconds pass between two heartbeats of topic messaging.
    pub gossipsub_heartbeat_secs: u64,
    /// Whether topic messaging accepts signed messages only.
    pub strict_validation: bool,
}

impl BlinkBehaviorConfig {
    /// The set-up of the composite: the version `/ipfs/0.1.0`, queries of five
    /// minutes, heartbeats every ten seconds, signed messages only.
    pub fn new() -> (config: BlinkBehaviorConfig)
        ensures
            config.identify_protocol_version@ == IDENTIFY_PROTOCOL_VERSION@,
            config.kademlia_query_timeout_secs == 300,
            config.gossipsub_heartbeat_secs == 10,
            config.strict_validation,
    {
        BlinkBehaviorConfig {
            identify_protocol_version: String::from_str(IDENTIFY_PROTOCOL_VERSION),
            kademlia_query_timeout_secs: KADEMLIA_QUERY_TIMEOUT_SECS,
            gossipsub_heartbeat_secs: GOSSIPSUB_HEARTBEAT_SECS,
            strict_validation: true,
        }
    }
}

/// The tag of an event of the composite: the sub-behaviour it comes from.
#[derive(Clone, Copy, Debug, PartialEq, Eq, Structural)]
pub enum BehaviourEvent {
    Gossipsub,
    KademliaEvent,
    IdentifyEvent,
    MdnsEvent,
}

/// The sub-behaviour that an event comes from; `None` for an event of the
/// connections and listeners, which comes from no sub-behaviour.
pub open spec fn source_of(event: NetworkEventView) -> Option<BehaviourEvent> {
    match event {
        NetworkEventView::MdnsDiscovered(_) => Some(BehaviourEvent::MdnsEvent),
        NetworkEventView::MdnsExpired(_) => Some(BehaviourEvent::MdnsEvent),
        NetworkEventView::IdentifyReceived { .. } => Some(BehaviourEvent::IdentifyEvent),
        NetworkEventView::IdentifyOther => Some(BehaviourEvent::IdentifyEvent),
        NetworkEventView::GossipsubMessage { .. } => Some(BehaviourEvent::Gossipsub),
        NetworkEventView::GossipsubOther => Some(BehaviourEvent::Gossipsub),
        NetworkEventView::KademliaClosestPeers(_) => Some(BehaviourEvent::KademliaEvent),
        NetworkEventView::KademliaOther => Some(BehaviourEvent::KademliaEvent),
        _ => None,
    }
}

impl BehaviourEvent {
    /// The sub-behaviour that an event comes from.
    pub fn from(event: &NetworkEvent) -> (tag: Option<BehaviourEvent>)
        ensures
            tag == source_of(event@),
    {
        match event {
            NetworkEvent::MdnsDiscovered(_) => Some(BehaviourEvent::MdnsEvent),
            NetworkEvent::MdnsExpired(_) => Some(BehaviourEvent::MdnsEvent),
            NetworkEvent::IdentifyReceived { .. } => Some(BehaviourEvent::IdentifyEvent),
            NetworkEvent::IdentifyOther => Some(BehaviourEvent::IdentifyEvent),
            NetworkEvent::GossipsubMessage { .. } => Some(BehaviourEvent::Gossipsub),
            NetworkEvent::GossipsubOther => Some(BehaviourEvent::Gossipsub),
            NetworkEvent::KademliaClosestPeers(_) => Some(BehaviourEvent::KademliaEvent),
            NetworkEvent::KademliaOther => Some(BehaviourEvent::KademliaEvent),
            _ => None,
        }
    }
}

} // verus!
