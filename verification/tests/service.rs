use blink::command::{BlinkCommand, DialOpts};
use blink::envelope::Envelope;
use blink::event::Event;
use blink::identity::{DidKey, KeyAlgorithm, NetworkPublicKey};
use blink::peer_to_peer_service::{Dispatch, PeerToPeerService, StartError, CHANNEL_SIZE};
use blink::reactor::{Effect, NetworkEvent, Outcome};

const PEER_ONES: &str = "12D3KooWK99VoVxNE7XzyBwXEzW7xhK7Gpv85r9F3V3fyKSUKPH5";
const PEER_TWOS: &str = "12D3KooWJWoaqZhDaoEFshF7Rh1bpY9ohihFhzcW6d69Lr2NASuq";
const DID_TWOS: &str = "did:key:z6Mko9hTggMwjSTEaJaPUfE6tqcy2xvU6BnNq3e3o8qVBiyH";
const DID_ZEROS: &str = "did:key:z6MkiTBz1ymuepAQ4HEHYSF1H8quG5GLVVQR3djdX3mDooWp";

fn s(text: &str) -> String {
    text.to_string()
}

fn did(byte: u8) -> DidKey {
    DidKey::from_secret_key(&vec![byte; 32]).unwrap()
}

fn validate(node: &mut PeerToPeerService, byte: u8) {
    let asked = PeerToPeerService::handle_event(NetworkEvent::IdentifyReceived {
        peer_id: s("peer"),
        public_key: NetworkPublicKey {
            algorithm: KeyAlgorithm::Ed25519,
            bytes: did(byte).public_key_bytes(),
        },
    });
    let validated = node.resume(asked.waiting.unwrap(), Outcome::Done);
    node.resume(validated.waiting.unwrap(), Outcome::Done);
}

#[test]
fn channel_holds_sixty_four_entries() {
    assert_eq!(CHANNEL_SIZE, 64);
}

#[test]
fn engine_starts_by_listening() {
    let started = PeerToPeerService::new(did(1), "/ip4/0.0.0.0/tcp/0", None).unwrap();
    assert_eq!(started.effects, vec![Effect::Listen(s("/ip4/0.0.0.0/tcp/0"))]);
    assert_eq!(started.key_pair.seed_bytes(), vec![1u8; 32]);
    assert_eq!(started.key_pair.peer_id(), PEER_ONES);
    assert_eq!(started.service.topic_of(&s(DID_TWOS)), None);
}

#[test]
fn engine_tells_discovery_of_the_known_peers() {
    let with_peer = format!("/ip4/127.0.0.1/tcp/4001/p2p/{}", PEER_TWOS);
    let known = vec![
        with_peer.clone(),
        s("/ip4/127.0.0.1/tcp/4002"),
        s("no address at all"),
    ];
    let started = PeerToPeerService::new(did(1), "/ip4/0.0.0.0/tcp/0", Some(known)).unwrap();
    assert_eq!(
        started.effects,
        vec![
            Effect::AddAddress(s(PEER_TWOS), with_peer),
            Effect::AddExplicitPeer(s(PEER_TWOS)),
            Effect::Listen(s("/ip4/0.0.0.0/tcp/0")),
        ]
    );
}

#[test]
fn engine_with_no_known_peers_only_listens() {
    let started =
        PeerToPeerService::new(did(1), "/ip4/0.0.0.0/tcp/0", Some(Vec::new())).unwrap();
    assert_eq!(started.effects, vec![Effect::Listen(s("/ip4/0.0.0.0/tcp/0"))]);
}

#[test]
fn engine_refuses_an_invalid_listen_address() {
    assert_eq!(
        PeerToPeerService::new(did(1), "no address", None).err(),
        Some(StartError::InvalidListenAddress)
    );
    assert_eq!(
        PeerToPeerService::new(did(1), "/ip4/999.0.0.1/tcp/0", None).err(),
        Some(StartError::InvalidListenAddress)
    );
}

#[test]
fn engine_refuses_a_did_without_seed() {
    assert_eq!(
        PeerToPeerService::new(did(1).public_did(), "/ip4/0.0.0.0/tcp/0", None).err(),
        Some(StartError::KeyConversion)
    );
    assert_eq!(
        PeerToPeerService::new(did(1).public_did(), "no address", None).err(),
        Some(StartError::KeyConversion)
    );
}

#[test]
fn public_operations_make_commands() {
    let node = PeerToPeerService::new(did(1), "/ip4/0.0.0.0/tcp/0", None)
        .unwrap()
        .service;
    let target = DialOpts::from_peer_id(s(PEER_TWOS));
    assert_eq!(
        node.pair_to_another_peer(target.clone()),
        BlinkCommand::Dial(target)
    );
    assert_eq!(
        node.subscribe_to_topic(s("some topic")),
        BlinkCommand::Subscribe(s("some topic"))
    );
    assert_eq!(
        node.publish_message_to_topic(s("SomeTopic"), b"Test".to_vec()),
        BlinkCommand::PublishToTopic(s("SomeTopic"), Envelope::new(b"Test".to_vec(), None))
    );
}

#[test]
fn send_to_an_unpaired_recipient_reports_and_does_not_fail() {
    let node = PeerToPeerService::new(did(1), "/ip4/0.0.0.0/tcp/0", None)
        .unwrap()
        .service;
    let plan = node.send(&b"Test".to_vec(), &vec![s(DID_TWOS)], Some(1));
    assert_eq!(plan, vec![Dispatch::Emit(Event::CouldntFindTopicForDid)]);
}

#[test]
fn send_to_nobody_does_nothing() {
    let node = PeerToPeerService::new(did(1), "/ip4/0.0.0.0/tcp/0", None)
        .unwrap()
        .service;
    assert!(node.send(&b"Test".to_vec(), &Vec::new(), None).is_empty());
}

#[test]
fn send_resolves_a_validated_recipient() {
    let mut node = PeerToPeerService::new(did(1), "/ip4/0.0.0.0/tcp/0", None)
        .unwrap()
        .service;
    validate(&mut node, 2);
    let topic = node.topic_of(&s(DID_TWOS)).unwrap();
    let plan = node.send(&b"Test".to_vec(), &vec![s(DID_TWOS)], Some(99));
    assert_eq!(
        plan,
        vec![Dispatch::Enqueue(BlinkCommand::PublishToTopic(
            topic,
            Envelope::new(b"Test".to_vec(), Some(99))
        ))]
    );
}

#[test]
fn send_serves_the_others_when_one_recipient_is_unresolved() {
    let mut node = PeerToPeerService::new(did(1), "/ip4/0.0.0.0/tcp/0", None)
        .unwrap()
        .service;
    validate(&mut node, 2);
    validate(&mut node, 0);
    let topic_twos = node.topic_of(&s(DID_TWOS)).unwrap();
    let topic_zeros = node.topic_of(&s(DID_ZEROS)).unwrap();
    assert_ne!(topic_twos, topic_zeros);
    let recipients = vec![s(DID_TWOS), s("did:key:unknown"), s(DID_ZEROS)];
    let plan = node.send(&b"Test".to_vec(), &recipients, None);
    // The recipients are taken last first.
    assert_eq!(
        plan,
        vec![
            Dispatch::Enqueue(BlinkCommand::PublishToTopic(
                topic_zeros,
                Envelope::new(b"Test".to_vec(), None)
            )),
            Dispatch::Emit(Event::CouldntFindTopicForDid),
            Dispatch::Enqueue(BlinkCommand::PublishToTopic(
                topic_twos,
                Envelope::new(b"Test".to_vec(), None)
            )),
        ]
    );
}

#[test]
fn send_serves_a_recipient_named_twice_twice() {
    let mut node = PeerToPeerService::new(did(1), "/ip4/0.0.0.0/tcp/0", None)
        .unwrap()
        .service;
    validate(&mut node, 2);
    let plan = node.send(&Vec::new(), &vec![s(DID_TWOS), s(DID_TWOS)], None);
    assert_eq!(plan.len(), 2);
    assert_eq!(plan[0], plan[1]);
}
