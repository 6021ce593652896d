//! Topic derivation: the name of the pairwise channel of two peers, computed
//! from one peer's seed and the other's public key.
//!
//! The two Ed25519 keys are taken to their X25519 forms, the Diffie-Hellman
//! exchange of those gives a shared secret, the secret is hashed with SHA-512
//! and the hash is written in base 64.

use crate::identity::{is_ed25519_public_key, DidKey, KEY_LENGTH};
use did_key::{Generate, ECDH};
use vstd::prelude::*;

verus! {

/// A topic name.
pub type TopicName = String;

/// Length in bytes of a SHA-512 digest.
pub const DIGEST_LENGTH: usize = 64;

/// Largest input, in bytes, that is handed to the hash and to the base-64
/// encoder.
pub const MAX_INPUT: usize = 0x1000_0000;

/// The X25519 shared secret of the Ed25519 seed of one peer and the Ed25519
/// public key of another.
pub uninterp spec fn x25519_shared_secret(seed: Seq<u8>, peer_public_key: Seq<u8>) -> Seq<u8>;

/// The SHA-512 digest of `data`.
pub uninterp spec fn sha512_digest(data: Seq<u8>) -> Seq<u8>;

/// `data` in base 64, standard alphabet, padded.
pub uninterp spec fn base64_text(data: Seq<u8>) -> Seq<char>;

/// Calls `did_key::Ed25519KeyPair::from_secret_key` on the seed and
/// `from_public_key` on the peer's key, `get_x25519` on both, and
/// `ECDH::key_exchange` on the two X25519 key pairs. The constructors panic
/// unless the seed is 32 bytes long and the public key is 32 bytes that
/// decompress to a curve point; the shared secret is 32 bytes long.
#[verifier::external_body]
fn key_exchange(seed: &Vec<u8>, peer_public_key: &Vec<u8>) -> (secret: Vec<u8>)
    requires
        seed@.len() == KEY_LENGTH,
        peer_public_key@.len() == KEY_LENGTH,
        is_ed25519_public_key(peer_public_key@),
    ensures
        secret@ == x25519_shared_secret(seed@, peer_public_key@),
        secret@.len() == KEY_LENGTH,
{
    let ours = did_key::Ed25519KeyPair::from_secret_key(seed.as_slice()).get_x25519();
    let theirs = did_key::Ed25519KeyPair::from_public_key(peer_public_key.as_slice()).get_x25519();
    ours.key_exchange(&theirs)
}

/// Calls `hmac_sha512::Hash::hash`, which returns an array of 64 bytes. It
/// multiplies the input's length by eight, so the input is kept short.
#[verifier::external_body]
fn sha512(data: &Vec<u8>) -> (digest: Vec<u8>)
    requires
        data@.len() <= MAX_INPUT,
    ensures
        digest@ == sha512_digest(data@),
        digest@.len() == DIGEST_LENGTH,
{
    hmac_sha512::Hash::hash(data.as_slice()).to_vec()
}

/// Calls `base64::encode`, which panics where four thirds of the input's
/// length do not fit a `usize`.
#[verifier::external_body]
fn base64_encode(data: &Vec<u8>) -> (text: String)
    requires
        data@.len() <= MAX_INPUT,
    ensures
        text@ == base64_text(data@),
{
    base64::encode(data.as_slice())
}

/// The name of the pairwise topic of the peer with seed `seed` and the peer
/// with public key `peer_public_key`.
pub open spec fn pairwise_topic(seed: Seq<u8>, peer_public_key: Seq<u8>) -> Seq<char> {
    base64_text(sha512_digest(x25519_shared_secret(seed, peer_public_key)))
}

/// Why no topic was derived.
#[derive(Clone, Copy, Debug, PartialEq, Eq, Structural)]
pub enum TopicError {
    /// The DID given as this node's own holds no seed.
    MissingPrivateKey,
}

/// Derives the pairwise topic from this node's DID, which must hold its seed,
/// and a peer's DID.
pub fn generate_topic_from_key_exchange(private_key: &DidKey, public_key: &DidKey) -> (topic:
    TopicName)
    requires
        private_key.secret() is Some,
    ensures
        topic@ == pairwise_topic(private_key.secret()->Some_0, public_key.public()),
{
    proof {
        use_type_invariant(private_key);
        use_type_invariant(public_key);
        private_key.lemma_well_formed();
        public_key.lemma_well_formed();
    }
    let seed = private_key.private_key_bytes();
    let peer = public_key.public_key_bytes();
    let exchange = key_exchange(&seed, &peer);
    let hashed = sha512(&exchange);
    base64_encode(&hashed)
}

/// Derives the pairwise topic of this node and a peer. Fails exactly where the
/// DID given as this node's own holds no seed.
pub fn derive_topic(self_private: &DidKey, peer_public: &DidKey) -> (r: Result<
    TopicName,
    TopicError,
>)
    ensures
        match r {
            Ok(topic) => self_private.secret() matches Some(seed) && topic@ == pairwise_topic(
                seed,
                peer_public.public(),
            ),
            Err(e) => self_private.secret() is None && e == TopicError::MissingPrivateKey,
        },
{
    if self_private.has_secret() {
        Ok(generate_topic_from_key_exchange(self_private, peer_public))
    } else {
        Err(TopicError::MissingPrivateKey)
    }
}

/// Two peers whose key exchanges agree on the shared secret derive the same
/// topic, each from its own seed and the other's public key.
pub proof fn lemma_topic_follows_exchange(
    a_seed: Seq<u8>,
    a_public: Seq<u8>,
    b_seed: Seq<u8>,
    b_public: Seq<u8>,
)
    requires
        x25519_shared_secret(a_seed, b_public) == x25519_shared_secret(b_seed, a_public),
    ensures
        pairwise_topic(a_seed, b_public) == pairwise_topic(b_seed, a_public),
{
}

} // verus!
