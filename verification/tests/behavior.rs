use blink::behavior::{
    BehaviourEvent, BlinkBehaviorConfig, GOSSIPSUB_HEARTBEAT_SECS, IDENTIFY_PROTOCOL_VERSION,
    KADEMLIA_QUERY_TIMEOUT_SECS,
};
use blink::identity::{KeyAlgorithm, NetworkPublicKey};
use blink::reactor::NetworkEvent;

#[test]
fn composite_is_set_up_as_agreed() {
    let config = BlinkBehaviorConfig::new();
    assert_eq!(config.identify_protocol_version, "/ipfs/0.1.0");
    assert_eq!(config.kademlia_query_timeout_secs, 300);
    assert_eq!(config.gossipsub_heartbeat_secs, 10);
    assert!(config.strict_validation);
    assert_eq!(IDENTIFY_PROTOCOL_VERSION, "/ipfs/0.1.0");
    assert_eq!(KADEMLIA_QUERY_TIMEOUT_SECS, 5 * 60);
    assert_eq!(GOSSIPSUB_HEARTBEAT_SECS, 10);
}

#[test]
fn events_are_tagged_with_their_source() {
    assert_eq!(
        BehaviourEvent::from(&NetworkEvent::MdnsDiscovered(Vec::new())),
        Some(BehaviourEvent::MdnsEvent)
    );
    assert_eq!(
        BehaviourEvent::from(&NetworkEvent::MdnsExpired(Vec::new())),
        Some(BehaviourEvent::MdnsEvent)
    );
    assert_eq!(
        BehaviourEvent::from(&NetworkEvent::IdentifyReceived {
            peer_id: "p".to_string(),
            public_key: NetworkPublicKey {
                algorithm: KeyAlgorithm::Ed25519,
                bytes: Vec::new()
            }
        }),
        Some(BehaviourEvent::IdentifyEvent)
    );
    assert_eq!(
        BehaviourEvent::from(&NetworkEvent::IdentifyOther),
        Some(BehaviourEvent::IdentifyEvent)
    );
    assert_eq!(
        BehaviourEvent::from(&NetworkEvent::GossipsubOther),
        Some(BehaviourEvent::Gossipsub)
    );
    assert_eq!(
        BehaviourEvent::from(&NetworkEvent::KademliaOther),
        Some(BehaviourEvent::KademliaEvent)
    );
    assert_eq!(
        BehaviourEvent::from(&NetworkEvent::ConnectionClosed("p".to_string())),
        None
    );
    assert_eq!(BehaviourEvent::from(&NetworkEvent::Other), None);
}
