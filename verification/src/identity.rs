//! Identity bridge: the DID key representation on one side, the network
//! identity representation on the other, and the conversions between them.
//!
//! Only Ed25519 keys can be bridged. A DID is identified by its public key;
//! its text form is `did:key:` followed by the multibase fingerprint of that
//! key.

use did_key::{Fingerprint, Generate, KeyMaterial};
use vstd::prelude::*;

verus! {

/// Length in bytes of an Ed25519 seed and of a compressed Ed25519 public key.
pub const KEY_LENGTH: usize = 32;

/// Why a key could not be carried across the bridge.
#[derive(Clone, Copy, Debug, PartialEq, Eq, Structural)]
pub enum BridgeError {
    /// The private key material is missing or is no seed for the network
    /// identity scheme.
    KeyConversion,
    /// The network identity uses an algorithm that the DID scheme lacks.
    UnsupportedKeyType,
    /// The bytes do not encode an Ed25519 public key.
    PublicKeyInvalid,
}

/// Algorithm of a network identity key.
#[derive(Clone, Copy, Debug, PartialEq, Eq, Structural)]
pub enum KeyAlgorithm {
    Ed25519,
    Rsa,
    Secp256k1,
    Ecdsa,
}

/// `libp2p::identity::DecodingError`, which is carried and never read.
#[verifier::external_type_specification]
#[verifier::external_body]
pub struct ExDecodingError(libp2p::identity::DecodingError);

/// Whether `bytes` is the compressed form of an Ed25519 public key, as the
/// network identity scheme decides it.
pub uninterp spec fn is_ed25519_public_key(bytes: Seq<u8>) -> bool;

/// The Ed25519 public key that the network identity scheme derives from a seed.
pub uninterp spec fn network_public_key_of_seed(seed: Seq<u8>) -> Seq<u8>;

/// The Ed25519 public key that the DID scheme derives from a seed.
pub uninterp spec fn did_public_key_of_seed(seed: Seq<u8>) -> Seq<u8>;

/// The multibase fingerprint of an Ed25519 public key.
pub uninterp spec fn did_fingerprint(public_key: Seq<u8>) -> Seq<char>;

/// The base-58 text of the network peer identifier of an Ed25519 public key.
pub uninterp spec fn peer_id_text(public_key: Seq<u8>) -> Seq<char>;

/// Calls `libp2p::identity::ed25519::PublicKey::try_from_bytes`. That function
/// accepts exactly the byte strings named by [`is_ed25519_public_key`], and
/// refuses every slice whose length is not 32 before it looks at the point.
#[verifier::external_body]
fn parse_network_public_key(bytes: &Vec<u8>) -> (r: Result<(), libp2p::identity::DecodingError>)
    ensures
        r.is_ok() == is_ed25519_public_key(bytes@),
        r.is_ok() ==> bytes@.len() == KEY_LENGTH,
{
    match libp2p::identity::ed25519::PublicKey::try_from_bytes(bytes.as_slice()) {
        Ok(_) => Ok(()),
        Err(e) => Err(e),
    }
}

/// Calls `libp2p::identity::ed25519::SecretKey::try_from_bytes` on a copy of
/// the seed, promotes the secret to an `ed25519::Keypair` and returns the
/// bytes of its public half. The seed is refused exactly when its length is
/// not 32; the public half is 32 bytes long.
#[verifier::external_body]
fn network_public_key(seed: &Vec<u8>) -> (r: Result<Vec<u8>, libp2p::identity::DecodingError>)
    ensures
        r.is_ok() == (seed@.len() == KEY_LENGTH),
        r matches Ok(k) ==> k@ == network_public_key_of_seed(seed@) && k@.len() == KEY_LENGTH,
{
    let secret = libp2p::identity::ed25519::SecretKey::try_from_bytes(seed.clone())?;
    Ok(libp2p::identity::ed25519::Keypair::from(secret).public().to_bytes().to_vec())
}

/// Calls `libp2p::identity::PeerId::from_public_key` on the key that
/// `ed25519::PublicKey::try_from_bytes` parsed, and `PeerId::to_base58` on the
/// result. The parse fails exactly on the byte strings that are no Ed25519
/// public key.
#[verifier::external_body]
fn network_peer_id(public_key: &Vec<u8>) -> (r: Result<String, libp2p::identity::DecodingError>)
    ensures
        r.is_ok() == is_ed25519_public_key(public_key@),
        r matches Ok(id) ==> id@ == peer_id_text(public_key@),
{
    let key = libp2p::identity::ed25519::PublicKey::try_from_bytes(public_key.as_slice())?;
    Ok(libp2p::identity::PeerId::from_public_key(&libp2p::identity::PublicKey::from(key)).to_base58())
}

/// Calls `did_key::Ed25519KeyPair::from_secret_key` and
/// `KeyMaterial::public_key_bytes`. The first panics unless the seed is 32
/// bytes long; the public key is 32 bytes long.
#[verifier::external_body]
fn did_public_key(seed: &Vec<u8>) -> (k: Vec<u8>)
    requires
        seed@.len() == KEY_LENGTH,
    ensures
        k@ == did_public_key_of_seed(seed@),
        k@.len() == KEY_LENGTH,
{
    did_key::Ed25519KeyPair::from_secret_key(seed.as_slice()).public_key_bytes()
}

/// Calls `did_key::Ed25519KeyPair::from_public_key` and
/// `Fingerprint::fingerprint`. The first panics unless the bytes are 32 bytes
/// that decompress to a curve point, which is what
/// [`is_ed25519_public_key`] names.
#[verifier::external_body]
fn fingerprint(public_key: &Vec<u8>) -> (text: String)
    requires
        is_ed25519_public_key(public_key@),
        public_key@.len() == KEY_LENGTH,
    ensures
        text@ == did_fingerprint(public_key@),
{
    did_key::Ed25519KeyPair::from_public_key(public_key.as_slice()).fingerprint()
}

/// The text form of the DID whose public key is `public_key`.
pub open spec fn did_text(public_key: Seq<u8>) -> Seq<char> {
    "did:key:"@ + did_fingerprint(public_key)
}

/// Copies a byte vector.
pub fn copy_bytes(bytes: &Vec<u8>) -> (copy: Vec<u8>)
    ensures
        copy@ == bytes@,
{
    let mut copy: Vec<u8> = Vec::new();
    let mut i: usize = 0;
    while i < bytes.len()
        invariant
            i <= bytes.len(),
            copy@ == bytes@.subrange(0, i as int),
        decreases bytes.len() - i,
    {
        copy.push(bytes[i]);
        i = i + 1;
        assert(copy@ == bytes@.subrange(0, i as int));
    }
    assert(bytes@.subrange(0, bytes.len() as int) == bytes@);
    copy
}

/// A DID of the `did:key` method over Ed25519: a public key and, for the
/// node's own identity, the seed it was derived from.
pub struct DidKey {
    public_key: Vec<u8>,
    secret_key: Option<Vec<u8>>,
}

impl DidKey {
    #[verifier::type_invariant]
    pub closed spec fn well_formed(self) -> bool {
        &&& self.public_key@.len() == KEY_LENGTH
        &&& is_ed25519_public_key(self.public_key@)
        &&& self.secret_key matches Some(s) ==> {
            &&& s@.len() == KEY_LENGTH
            &&& self.public_key@ == did_public_key_of_seed(s@)
        }
    }

    /// The public key bytes.
    pub closed spec fn public(self) -> Seq<u8> {
        self.public_key@
    }

    /// The seed, where this DID holds one.
    pub closed spec fn secret(self) -> Option<Seq<u8>> {
        match self.secret_key {
            Some(s) => Some(s@),
            None => None,
        }
    }

    /// Every DID holds 32 bytes that are an Ed25519 public key, and a seed,
    /// where present, is 32 bytes long and is the one the key was derived from.
    pub proof fn lemma_well_formed(self)
        requires
            self.well_formed(),
        ensures
            self.public().len() == KEY_LENGTH,
            is_ed25519_public_key(self.public()),
            self.secret() matches Some(s) ==> s.len() == KEY_LENGTH && self.public()
                == did_public_key_of_seed(s),
    {
    }

    /// The DID of a peer, known by its public key alone.
    pub fn from_public_key(public_key: &Vec<u8>) -> (r: Result<DidKey, BridgeError>)
        ensures
            r.is_ok() == is_ed25519_public_key(public_key@),
            r matches Ok(did) ==> did.well_formed() && did.public() == public_key@ && did.secret() is None,
            r matches Err(e) ==> e == BridgeError::PublicKeyInvalid,
    {
        match parse_network_public_key(public_key) {
            Ok(_) => Ok(DidKey { public_key: copy_bytes(public_key), secret_key: None }),
            Err(_) => Err(BridgeError::PublicKeyInvalid),
        }
    }

    /// The DID that a seed stands for. The seed must be 32 bytes long, and the
    /// key derived from it must be one that the network identity scheme
    /// accepts.
    pub fn from_secret_key(seed: &Vec<u8>) -> (r: Result<DidKey, BridgeError>)
        ensures
            r.is_ok() == (seed@.len() == KEY_LENGTH && is_ed25519_public_key(
                did_public_key_of_seed(seed@),
            )),
            r matches Ok(did) ==> did.well_formed() && did.secret() == Some(seed@) && did.public()
                == did_public_key_of_seed(seed@),
            r matches Err(e) ==> e == (if seed@.len() == KEY_LENGTH {
                BridgeError::PublicKeyInvalid
            } else {
                BridgeError::KeyConversion
            }),
    {
        if seed.len() != KEY_LENGTH {
            return Err(BridgeError::KeyConversion);
        }
        let public_key = did_public_key(seed);
        match parse_network_public_key(&public_key) {
            Ok(_) => Ok(DidKey { public_key, secret_key: Some(copy_bytes(seed)) }),
            Err(_) => Err(BridgeError::PublicKeyInvalid),
        }
    }

    /// The public key bytes.
    pub fn public_key_bytes(&self) -> (bytes: Vec<u8>)
        ensures
            bytes@ == self.public(),
            bytes@.len() == KEY_LENGTH,
    {
        proof {
            use_type_invariant(self);
        }
        copy_bytes(&self.public_key)
    }

    /// The seed, or nothing where this DID holds only a public key.
    pub fn private_key_bytes(&self) -> (bytes: Vec<u8>)
        ensures
            bytes@ == (match self.secret() {
                Some(s) => s,
                None => Seq::<u8>::empty(),
            }),
    {
        match &self.secret_key {
            Some(s) => copy_bytes(s),
            None => Vec::new(),
        }
    }

    /// Whether this DID holds its seed.
    pub fn has_secret(&self) -> (b: bool)
        ensures
            b == self.secret().is_some(),
    {
        self.secret_key.is_some()
    }

    /// This DID without its seed.
    pub fn public_did(&self) -> (did: DidKey)
        ensures
            did.well_formed(),
            did.public() == self.public(),
            did.secret() is None,
    {
        proof {
            use_type_invariant(self);
        }
        DidKey { public_key: copy_bytes(&self.public_key), secret_key: None }
    }

    /// The text form: `did:key:` and the fingerprint of the public key.
    pub fn to_text(&self) -> (text: String)
        ensures
            text@ == did_text(self.public()),
    {
        proof {
            use_type_invariant(self);
        }
        let print = fingerprint(&self.public_key);
        String::from_str("did:key:").concat(print.as_str())
    }
}

/// A public key of the network identity scheme, as plain values.
#[derive(Debug, Clone, PartialEq, Eq)]
pub struct NetworkPublicKey {
    pub algorithm: KeyAlgorithm,
    /// For Ed25519 the 32 bytes of the compressed point.
    pub bytes: Vec<u8>,
}

/// A key pair of the network identity scheme, as plain values.
pub struct NetworkKeypair {
    seed: Vec<u8>,
    public_key: Vec<u8>,
}

impl NetworkKeypair {
    #[verifier::type_invariant]
    pub closed spec fn well_formed(self) -> bool {
        &&& self.seed@.len() == KEY_LENGTH
        &&& self.public_key@ == network_public_key_of_seed(self.seed@)
        &&& is_ed25519_public_key(self.public_key@)
    }

    pub closed spec fn seed(self) -> Seq<u8> {
        self.seed@
    }

    pub closed spec fn public(self) -> Seq<u8> {
        self.public_key@
    }

    /// The public half is the key that the network identity scheme derives
    /// from the seed.
    pub proof fn lemma_well_formed(self)
        requires
            self.well_formed(),
        ensures
            self.seed().len() == KEY_LENGTH,
            self.public() == network_public_key_of_seed(self.seed()),
            is_ed25519_public_key(self.public()),
    {
    }

    /// The seed, from which the network stack builds its own key pair.
    pub fn seed_bytes(&self) -> (bytes: Vec<u8>)
        ensures
            bytes@ == self.seed(),
            bytes@.len() == KEY_LENGTH,
    {
        proof {
            use_type_invariant(self);
        }
        copy_bytes(&self.seed)
    }

    /// The public half.
    pub fn public_key(&self) -> (key: NetworkPublicKey)
        ensures
            key.algorithm == KeyAlgorithm::Ed25519,
            key.bytes@ == self.public(),
    {
        NetworkPublicKey { algorithm: KeyAlgorithm::Ed25519, bytes: copy_bytes(&self.public_key) }
    }

    /// The network peer identifier of the public half, in base 58.
    pub fn peer_id(&self) -> (id: String)
        ensures
            id@ == peer_id_text(self.public()),
    {
        proof {
            use_type_invariant(self);
        }
        match network_peer_id(&self.public_key) {
            Ok(id) => id,
            Err(_) => String::new(),
        }
    }
}

/// What [`did_keypair_to_libp2p_keypair`] answers for a DID with the given
/// public key and seed: the seed and public half of the network key pair, or
/// the error.
pub open spec fn network_keypair_of(public: Seq<u8>, secret: Option<Seq<u8>>) -> Result<
    (Seq<u8>, Seq<u8>),
    BridgeError,
> {
    match secret {
        Some(seed) => if seed.len() == KEY_LENGTH && network_public_key_of_seed(seed) == public {
            Ok((seed, public))
        } else {
            Err(BridgeError::KeyConversion)
        },
        None => Err(BridgeError::KeyConversion),
    }
}

/// What [`libp2p_pub_to_did`] answers for a network public key: the public key
/// of the DID, or the error.
pub open spec fn did_of_network_key(algorithm: KeyAlgorithm, bytes: Seq<u8>) -> Result<
    Seq<u8>,
    BridgeError,
> {
    if algorithm != KeyAlgorithm::Ed25519 {
        Err(BridgeError::UnsupportedKeyType)
    } else if !is_ed25519_public_key(bytes) {
        Err(BridgeError::PublicKeyInvalid)
    } else {
        Ok(bytes)
    }
}

/// Compares two byte vectors.
pub fn same_bytes(a: &Vec<u8>, b: &Vec<u8>) -> (same: bool)
    ensures
        same == (a@ == b@),
{
    if a.len() != b.len() {
        return false;
    }
    let mut i: usize = 0;
    while i < a.len()
        invariant
            a.len() == b.len(),
            i <= a.len(),
            a@.subrange(0, i as int) == b@.subrange(0, i as int),
        decreases a.len() - i,
    {
        if a[i] != b[i] {
            return false;
        }
        i = i + 1;
        assert(a@.subrange(0, i as int) == a@.subrange(0, i - 1).push(a@[i - 1]));
        assert(b@.subrange(0, i as int) == b@.subrange(0, i - 1).push(b@[i - 1]));
    }
    assert(a@ == a@.subrange(0, a.len() as int));
    assert(b@ == b@.subrange(0, b.len() as int));
    true
}

/// Converts the key pair of a DID to the key pair of the network identity
/// scheme. Fails with `KeyConversion` where the DID holds no seed, or where the
/// network identity scheme derives another public key from the seed than the
/// DID states.
pub fn did_keypair_to_libp2p_keypair(key_pair: &DidKey) -> (r: Result<NetworkKeypair, BridgeError>)
    ensures
        match (r, network_keypair_of(key_pair.public(), key_pair.secret())) {
            (Ok(pair), Ok(halves)) => pair.well_formed() && pair.seed() == halves.0 && pair.public()
                == halves.1,
            (Err(e), Err(expected)) => e == expected,
            _ => false,
        },
{
    proof {
        use_type_invariant(key_pair);
    }
    let seed = key_pair.private_key_bytes();
    match network_public_key(&seed) {
        Ok(public_key) => {
            if same_bytes(&public_key, &key_pair.public_key) {
                Ok(NetworkKeypair { seed, public_key })
            } else {
                Err(BridgeError::KeyConversion)
            }
        },
        Err(_) => Err(BridgeError::KeyConversion),
    }
}

/// Converts a DID to the public key of the network identity scheme.
pub fn did_to_libp2p_pub(public_key: &DidKey) -> (key: NetworkPublicKey)
    ensures
        (key.algorithm, key.bytes@) == network_key_of_did(public_key.public()),
{
    NetworkPublicKey { algorithm: KeyAlgorithm::Ed25519, bytes: public_key.public_key_bytes() }
}

/// Converts a public key of the network identity scheme to a DID. Fails with
/// `UnsupportedKeyType` for every algorithm but Ed25519, and with
/// `PublicKeyInvalid` where the bytes are no Ed25519 public key.
pub fn libp2p_pub_to_did(public_key: &NetworkPublicKey) -> (r: Result<DidKey, BridgeError>)
    ensures
        match (r, did_of_network_key(public_key.algorithm, public_key.bytes@)) {
            (Ok(did), Ok(key)) => did.well_formed() && did.public() == key && did.secret() is None,
            (Err(e), Err(expected)) => e == expected,
            _ => false,
        },
{
    match public_key.algorithm {
        KeyAlgorithm::Ed25519 => DidKey::from_public_key(&public_key.bytes),
        _ => Err(BridgeError::UnsupportedKeyType),
    }
}

/// The public key of the network identity scheme that a DID with the given
/// public key converts to: its algorithm and its bytes.
pub open spec fn network_key_of_did(public: Seq<u8>) -> (KeyAlgorithm, Seq<u8>) {
    (KeyAlgorithm::Ed25519, public)
}

/// Bridge round trip: a DID that is taken to its network public key and back
/// comes out with the public key, and so the text form, that it went in with.
pub proof fn lemma_bridge_round_trip(did: DidKey)
    requires
        did.well_formed(),
    ensures
        did_of_network_key(network_key_of_did(did.public()).0, network_key_of_did(did.public()).1)
            == Ok::<Seq<u8>, BridgeError>(did.public()),
        did_text(
            did_of_network_key(
                network_key_of_did(did.public()).0,
                network_key_of_did(did.public()).1,
            )->Ok_0,
        ) == did_text(did.public()),
{
}

/// The round trip the other way: a network public key that converts to a DID
/// is the key that this DID converts to.
pub proof fn lemma_bridge_round_trip_from_network(algorithm: KeyAlgorithm, bytes: Seq<u8>)
    requires
        did_of_network_key(algorithm, bytes) is Ok,
    ensures
        network_key_of_did(did_of_network_key(algorithm, bytes)->Ok_0) == (algorithm, bytes),
{
}

/// Bridge round trip through the key pair: where a DID's key pair converts to
/// a network key pair, the public half of that pair converts back to the
/// DID's own public key.
pub proof fn lemma_keypair_round_trip(did: DidKey)
    requires
        did.well_formed(),
        network_keypair_of(did.public(), did.secret()) is Ok,
    ensures
        did_of_network_key(
            KeyAlgorithm::Ed25519,
            network_keypair_of(did.public(), did.secret())->Ok_0.1,
        ) == Ok::<Seq<u8>, BridgeError>(did.public()),
{
}

} // verus!
