use blink::identity::DidKey;
use did_key::{Generate, ECDH};
use blink::topic::{derive_topic, generate_topic_from_key_exchange, TopicError};

const TOPIC_ONES_TWOS: &str =
    "8Jgc29k8R0Uu9wsqWGJ0JDh5HUO7l5jzb+nwa8ZoA2yEqH0S8xlD1Yax7aWDHNBL0KIT64FjD7GjFB/mrV7mtw==";
const TOPIC_ONES_ZEROS: &str =
    "TVgo1w6j8v0EOnMhyb32IXE/V56cxfSahML5yaZmuIJEsnjpltuDtYriymEcivtbJ8wpVZ8eiSSqFXqf+TNl6g==";

fn node(byte: u8) -> DidKey {
    DidKey::from_secret_key(&vec![byte; 32]).unwrap()
}

#[test]
fn topic_has_the_known_value() {
    let a = node(1);
    let b = node(2);
    assert_eq!(
        generate_topic_from_key_exchange(&a, &b.public_did()),
        TOPIC_ONES_TWOS
    );
    assert_eq!(
        generate_topic_from_key_exchange(&a, &node(0).public_did()),
        TOPIC_ONES_ZEROS
    );
}

#[test]
fn topic_is_symmetric() {
    for (x, y) in [(1u8, 2u8), (0, 9), (17, 250), (3, 3)] {
        let a = node(x);
        let b = node(y);
        let from_a = derive_topic(&a, &b.public_did()).unwrap();
        let from_b = derive_topic(&b, &a.public_did()).unwrap();
        assert_eq!(from_a, from_b);
    }
}

#[test]
fn topic_differs_between_pairs() {
    let a = node(1);
    let with_b = derive_topic(&a, &node(2).public_did()).unwrap();
    let with_c = derive_topic(&a, &node(3).public_did()).unwrap();
    assert_ne!(with_b, with_c);
}

#[test]
fn topic_is_eighty_eight_characters_of_base_64() {
    let topic = derive_topic(&node(5), &node(6).public_did()).unwrap();
    assert_eq!(topic.len(), 88);
    assert!(topic.ends_with("=="));
    assert!(topic
        .chars()
        .all(|c| c.is_ascii_alphanumeric() || c == '+' || c == '/' || c == '='));
}

#[test]
fn topic_is_the_hash_of_the_exchange_in_base_64() {
    let ours = did_key::Ed25519KeyPair::from_secret_key(&[1u8; 32]).get_x25519();
    let theirs = did_key::Ed25519KeyPair::from_secret_key(&[2u8; 32]).get_x25519();
    let expected = base64::encode(hmac_sha512::Hash::hash(ours.key_exchange(&theirs)));
    assert_eq!(
        derive_topic(&node(1), &node(2).public_did()).unwrap(),
        expected
    );
}

#[test]
fn topic_needs_the_own_seed() {
    let public_only = node(1).public_did();
    assert_eq!(
        derive_topic(&public_only, &node(2).public_did()).err(),
        Some(TopicError::MissingPrivateKey)
    );
}

#[test]
fn topic_accepts_a_peer_that_holds_its_seed() {
    let a = node(1);
    let b = node(2);
    assert_eq!(derive_topic(&a, &b).unwrap(), TOPIC_ONES_TWOS);
}
