//! The decisions of the network reactor.
//!
//! The reactor is the one task that owns the network. It takes a command or a
//! network event, and answers with a [`Step`]: the effects to perform, in
//! order, and, where the outcome of the last effect decides how to go on, what
//! the reactor is waiting for. Whoever drives the reactor performs the
//! effects and hands the outcome back with the same [`Waiting`] value, until a
//! step waits for nothing. This file holds the values that pass between the
//! two and the rules as mathematical functions; the engine in
//! `peer_to_peer_service` computes them.

use crate::command::{dial_peer, texts, CommandView, DialOpts, DialOptsView};
use crate::envelope::{decoded, encoded};
use crate::event::{Event, EventView};
use crate::identity::{
    did_of_network_key, did_text, DidKey, KeyAlgorithm, NetworkPublicKey,
};
use crate::topic::pairwise_topic;
use vstd::prelude::*;

verus! {

/// A peer that local-network discovery no longer announces.
#[derive(Debug, Clone, PartialEq, Eq)]
pub struct ExpiredPeer {
    pub peer: String,
    /// Whether local-network discovery still knows the peer by another
    /// record.
    pub still_discovered: bool,
}

/// An expired peer as a mathematical value.
pub struct ExpiredPeerView {
    pub peer: Seq<char>,
    pub still_discovered: bool,
}

impl View for ExpiredPeer {
    type V = ExpiredPeerView;

    open spec fn view(&self) -> ExpiredPeerView {
        ExpiredPeerView { peer: self.peer@, still_discovered: self.still_discovered }
    }
}

/// A peer that a query of the distributed hash table found, with the
/// addresses at which the table knows it.
#[derive(Debug, Clone, PartialEq, Eq)]
pub struct ClosestPeer {
    pub peer: String,
    pub addresses: Vec<String>,
}

/// A found peer as a mathematical value.
pub struct ClosestPeerView {
    pub peer: Seq<char>,
    pub addresses: Seq<Seq<char>>,
}

impl View for ClosestPeer {
    type V = ClosestPeerView;

    open spec fn view(&self) -> ClosestPeerView {
        ClosestPeerView { peer: self.peer@, addresses: texts(self.addresses@) }
    }
}

/// The views of a sequence of found peers.
pub open spec fn closest_views(peers: Seq<ClosestPeer>) -> Seq<ClosestPeerView> {
    peers.map_values(|p: ClosestPeer| p@)
}

/// What the network reports, as far as the reactor reads it.
#[derive(Debug, Clone, PartialEq, Eq)]
pub enum NetworkEvent {
    /// Local-network discovery found these peers.
    MdnsDiscovered(Vec<String>),
    /// Local-network discovery lost these records.
    MdnsExpired(Vec<ExpiredPeer>),
    /// Identity exchange received a peer's public key.
    IdentifyReceived { peer_id: String, public_key: NetworkPublicKey },
    /// Any other report of identity exchange.
    IdentifyOther,
    /// A message arrived on a subscribed topic.
    GossipsubMessage { topic: String, data: Vec<u8> },
    /// Any other report of topic messaging.
    GossipsubOther,
    /// A query for the nearest peers ended with these peers.
    KademliaClosestPeers(Vec<ClosestPeer>),
    /// Any other report of the distributed hash table.
    KademliaOther,
    ConnectionEstablished(String),
    ConnectionClosed(String),
    NewListenAddr(String),
    /// Anything else.
    Other,
}

/// A network event as a mathematical value.
pub enum NetworkEventView {
    MdnsDiscovered(Seq<Seq<char>>),
    MdnsExpired(Seq<ExpiredPeerView>),
    IdentifyReceived { peer_id: Seq<char>, algorithm: KeyAlgorithm, key: Seq<u8> },
    IdentifyOther,
    GossipsubMessage { topic: Seq<char>, data: Seq<u8> },
    GossipsubOther,
    KademliaClosestPeers(Seq<ClosestPeerView>),
    KademliaOther,
    ConnectionEstablished(Seq<char>),
    ConnectionClosed(Seq<char>),
    NewListenAddr(Seq<char>),
    Other,
}

/// The views of a sequence of expired peers.
pub open spec fn expired_views(peers: Seq<ExpiredPeer>) -> Seq<ExpiredPeerView> {
    peers.map_values(|p: ExpiredPeer| p@)
}

impl View for NetworkEvent {
    type V = NetworkEventView;

    open spec fn view(&self) -> NetworkEventView {
        match *self {
            NetworkEvent::MdnsDiscovered(peers) => NetworkEventView::MdnsDiscovered(texts(peers@)),
            NetworkEvent::MdnsExpired(peers) => NetworkEventView::MdnsExpired(
                expired_views(peers@),
            ),
            NetworkEvent::IdentifyReceived { peer_id, public_key } => {
                NetworkEventView::IdentifyReceived {
                    peer_id: peer_id@,
                    algorithm: public_key.algorithm,
                    key: public_key.bytes@,
                }
            },
            NetworkEvent::IdentifyOther => NetworkEventView::IdentifyOther,
            NetworkEvent::GossipsubMessage { topic, data } => NetworkEventView::GossipsubMessage {
                topic: topic@,
                data: data@,
            },
            NetworkEvent::GossipsubOther => NetworkEventView::GossipsubOther,
            NetworkEvent::KademliaClosestPeers(peers) => NetworkEventView::KademliaClosestPeers(
                closest_views(peers@),
            ),
            NetworkEvent::KademliaOther => NetworkEventView::KademliaOther,
            NetworkEvent::ConnectionEstablished(peer) => NetworkEventView::ConnectionEstablished(
                peer@,
            ),
            NetworkEvent::ConnectionClosed(peer) => NetworkEventView::ConnectionClosed(peer@),
            NetworkEvent::NewListenAddr(address) => NetworkEventView::NewListenAddr(address@),
            NetworkEvent::Other => NetworkEventView::Other,
        }
    }
}

/// Something for the driver of the reactor to do.
#[derive(Debug, Clone, PartialEq, Eq)]
pub enum Effect {
    /// Hand the event to the event sink.
    Emit(Event),
    /// Dial the target.
    Dial(DialOpts),
    /// Ask discovery for the peers nearest to the peer.
    FindNearest(String),
    /// Subscribe to the topic.
    Subscribe(String),
    /// Publish the bytes on the topic.
    Publish(String, Vec<u8>),
    /// Make the peer an explicit peer of topic messaging.
    AddExplicitPeer(String),
    /// Let the peer no longer be an explicit peer of topic messaging.
    RemoveExplicitPeer(String),
    /// Tell discovery that the peer is reached at the address.
    AddAddress(String, String),
    /// Close the connections to the peer.
    Disconnect(String),
    /// Listen on the address.
    Listen(String),
    /// Ask the identity directory for the DID.
    GetIdentity(String),
    /// Decode the application payload.
    DecodePayload(Vec<u8>),
    /// Write the payload to the cache, under the category of messages.
    AddToCache(Vec<u8>),
    /// Put the topic and the payload on the local delivery channel.
    Deliver(String, Vec<u8>),
}

/// An effect as a mathematical value.
pub enum EffectView {
    Emit(EventView),
    Dial(DialOptsView),
    FindNearest(Seq<char>),
    Subscribe(Seq<char>),
    Publish(Seq<char>, Seq<u8>),
    AddExplicitPeer(Seq<char>),
    RemoveExplicitPeer(Seq<char>),
    AddAddress(Seq<char>, Seq<char>),
    Disconnect(Seq<char>),
    Listen(Seq<char>),
    GetIdentity(Seq<char>),
    DecodePayload(Seq<u8>),
    AddToCache(Seq<u8>),
    Deliver(Seq<char>, Seq<u8>),
}

impl View for Effect {
    type V = EffectView;

    open spec fn view(&self) -> EffectView {
        match *self {
            Effect::Emit(event) => EffectView::Emit(event@),
            Effect::Dial(target) => EffectView::Dial(target@),
            Effect::FindNearest(peer) => EffectView::FindNearest(peer@),
            Effect::Subscribe(topic) => EffectView::Subscribe(topic@),
            Effect::Publish(topic, bytes) => EffectView::Publish(topic@, bytes@),
            Effect::AddExplicitPeer(peer) => EffectView::AddExplicitPeer(peer@),
            Effect::RemoveExplicitPeer(peer) => EffectView::RemoveExplicitPeer(peer@),
            Effect::AddAddress(peer, address) => EffectView::AddAddress(peer@, address@),
            Effect::Disconnect(peer) => EffectView::Disconnect(peer@),
            Effect::Listen(address) => EffectView::Listen(address@),
            Effect::GetIdentity(did) => EffectView::GetIdentity(did@),
            Effect::DecodePayload(payload) => EffectView::DecodePayload(payload@),
            Effect::AddToCache(payload) => EffectView::AddToCache(payload@),
            Effect::Deliver(topic, payload) => EffectView::Deliver(topic@, payload@),
        }
    }
}

/// The views of a sequence of effects.
pub open spec fn effect_views(effects: Seq<Effect>) -> Seq<EffectView> {
    effects.map_values(|e: Effect| e@)
}

/// How the effect that the reactor waited for ended.
#[derive(Debug, Clone, PartialEq, Eq)]
pub enum Outcome {
    Done,
    /// It failed; holds what the failure says of itself.
    Failed(String),
}

/// An outcome as a mathematical value.
pub enum OutcomeView {
    Done,
    Failed(Seq<char>),
}

impl View for Outcome {
    type V = OutcomeView;

    open spec fn view(&self) -> OutcomeView {
        match *self {
            Outcome::Done => OutcomeView::Done,
            Outcome::Failed(error) => OutcomeView::Failed(error@),
        }
    }
}

/// What the reactor waits for: the outcome of the last effect of a step, and
/// what it must remember to go on.
pub enum Waiting {
    /// A dial was started towards the peer.
    Dial { peer_id: String },
    /// A subscription that a command asked for.
    Subscribe { topic: String },
    /// A publication.
    Publish,
    /// The identity directory was asked for a peer's DID: the peer's
    /// identity is received and not yet judged.
    Identity { peer_id: String, their_public: DidKey },
    /// The peer is validated and the subscription to its topic was asked for.
    PairSubscribe { did: String, topic: String },
    /// The peer is rejected and its disconnection was asked for.
    Disconnect,
    /// The application payload of an inbound message is being decoded.
    Decode { topic: String, payload: Vec<u8> },
    /// The payload of an inbound message is being written to the cache.
    Cache { topic: String, payload: Vec<u8> },
    /// An inbound message is being put on the local delivery channel.
    Delivery,
}

/// What the reactor waits for, as a mathematical value.
pub enum WaitingView {
    Dial { peer_id: Seq<char> },
    Subscribe { topic: Seq<char> },
    Publish,
    Identity { peer_id: Seq<char>, their_public: Seq<u8> },
    PairSubscribe { did: Seq<char>, topic: Seq<char> },
    Disconnect,
    Decode { topic: Seq<char>, payload: Seq<u8> },
    Cache { topic: Seq<char>, payload: Seq<u8> },
    Delivery,
}

impl View for Waiting {
    type V = WaitingView;

    open spec fn view(&self) -> WaitingView {
        match *self {
            Waiting::Dial { peer_id } => WaitingView::Dial { peer_id: peer_id@ },
            Waiting::Subscribe { topic } => WaitingView::Subscribe { topic: topic@ },
            Waiting::Publish => WaitingView::Publish,
            Waiting::Identity { peer_id, their_public } => WaitingView::Identity {
                peer_id: peer_id@,
                their_public: their_public.public(),
            },
            Waiting::PairSubscribe { did, topic } => WaitingView::PairSubscribe {
                did: did@,
                topic: topic@,
            },
            Waiting::Disconnect => WaitingView::Disconnect,
            Waiting::Decode { topic, payload } => WaitingView::Decode {
                topic: topic@,
                payload: payload@,
            },
            Waiting::Cache { topic, payload } => WaitingView::Cache {
                topic: topic@,
                payload: payload@,
            },
            Waiting::Delivery => WaitingView::Delivery,
        }
    }
}

/// The reactor's answer to one input.
pub struct Step {
    /// What to do, in this order.
    pub effects: Vec<Effect>,
    /// Where this is `Some`, the outcome of the last effect is to be handed
    /// back with this value.
    pub waiting: Option<Waiting>,
}

/// A step as a mathematical value.
pub struct StepView {
    pub effects: Seq<EffectView>,
    pub waiting: Option<WaitingView>,
}

impl View for Step {
    type V = StepView;

    open spec fn view(&self) -> StepView {
        StepView {
            effects: effect_views(self.effects@),
            waiting: match self.waiting {
                Some(w) => Some(w@),
                None => None,
            },
        }
    }
}

/// The step that does nothing.
pub open spec fn idle() -> StepView {
    StepView { effects: Seq::empty(), waiting: None }
}

/// The step that reports one event and waits for nothing.
pub open spec fn report(event: EventView) -> StepView {
    StepView { effects: seq![EffectView::Emit(event)], waiting: None }
}

/// The step that performs one effect and waits for its outcome.
pub open spec fn attempt(effect: EffectView, waiting: WaitingView) -> StepView {
    StepView { effects: seq![effect], waiting: Some(waiting) }
}

/// One effect for each of the peers.
pub open spec fn explicit_peers(peers: Seq<Seq<char>>) -> Seq<EffectView> {
    peers.map_values(|p: Seq<char>| EffectView::AddExplicitPeer(p))
}

/// One effect for each of the addresses: the peer is reached there.
pub open spec fn peer_addresses(peer: Seq<char>, addresses: Seq<Seq<char>>) -> Seq<EffectView> {
    addresses.map_values(|a: Seq<char>| EffectView::AddAddress(peer, a))
}

/// For each of the peers, in their order, one effect for each of its
/// addresses.
pub open spec fn address_entries(peers: Seq<ClosestPeerView>) -> Seq<EffectView>
    decreases peers.len(),
{
    if peers.len() == 0 {
        Seq::empty()
    } else {
        address_entries(peers.drop_last()) + peer_addresses(
            peers.last().peer,
            peers.last().addresses,
        )
    }
}

/// One removal for each expired peer that local-network discovery knows by
/// no other record, in the order of the peers.
pub open spec fn removals(expired: Seq<ExpiredPeerView>) -> Seq<EffectView>
    decreases expired.len(),
{
    if expired.len() == 0 {
        Seq::empty()
    } else {
        let earlier = removals(expired.drop_last());
        if expired.last().still_discovered {
            earlier
        } else {
            earlier.push(EffectView::RemoveExplicitPeer(expired.last().peer))
        }
    }
}

/// The reactor's answer to a command.
pub open spec fn on_command(command: CommandView) -> StepView {
    match command {
        CommandView::FindNearest(peer) => StepView {
            effects: seq![EffectView::FindNearest(peer)],
            waiting: None,
        },
        CommandView::Dial(target) => attempt(
            EffectView::Dial(target),
            WaitingView::Dial {
                peer_id: match dial_peer(target) {
                    Some(p) => p,
                    None => Seq::empty(),
                },
            },
        ),
        CommandView::Subscribe(topic) => attempt(
            EffectView::Subscribe(topic),
            WaitingView::Subscribe { topic },
        ),
        CommandView::PublishToTopic(topic, envelope) => match encoded(envelope) {
            Ok(bytes) => attempt(EffectView::Publish(topic, bytes), WaitingView::Publish),
            Err(_) => report(EventView::ErrorSerializingData),
        },
    }
}

/// The reactor's answer to a network event. Each event has one handler.
pub open spec fn on_event(event: NetworkEventView) -> StepView {
    match event {
        NetworkEventView::MdnsDiscovered(peers) => StepView {
            effects: explicit_peers(peers),
            waiting: None,
        },
        NetworkEventView::MdnsExpired(expired) => StepView {
            effects: removals(expired),
            waiting: None,
        },
        NetworkEventView::IdentifyReceived { peer_id, algorithm, key } => match did_of_network_key(
            algorithm,
            key,
        ) {
            Ok(their_public) => attempt(
                EffectView::GetIdentity(did_text(their_public)),
                WaitingView::Identity { peer_id, their_public },
            ),
            Err(_) => report(EventView::ConvertKeyError),
        },
        NetworkEventView::IdentifyOther => idle(),
        NetworkEventView::GossipsubMessage { topic, data } => match decoded(data) {
            Ok(envelope) => attempt(
                EffectView::DecodePayload(envelope.payload),
                WaitingView::Decode { topic, payload: envelope.payload },
            ),
            Err(_) => report(EventView::ErrorDeserializingData),
        },
        NetworkEventView::GossipsubOther => idle(),
        NetworkEventView::KademliaClosestPeers(peers) => StepView {
            effects: address_entries(peers),
            waiting: None,
        },
        NetworkEventView::KademliaOther => idle(),
        NetworkEventView::ConnectionEstablished(peer) => report(
            EventView::ConnectionEstablished(peer),
        ),
        NetworkEventView::ConnectionClosed(peer) => report(EventView::PeerConnectionClosed(peer)),
        NetworkEventView::NewListenAddr(address) => report(EventView::NewListenAddr(address)),
        NetworkEventView::Other => idle(),
    }
}

/// The directory after a write for `did`: an entry that is there stays.
pub open spec fn written(
    directory: Map<Seq<char>, Seq<char>>,
    did: Seq<char>,
    topic: Seq<char>,
) -> Map<Seq<char>, Seq<char>> {
    if directory.dom().contains(did) {
        directory
    } else {
        directory.insert(did, topic)
    }
}

/// The peer-topic directory after the reactor has gone on from `waiting`
/// with `outcome`. Only the validation of a peer writes to it.
pub open spec fn directory_after(
    waiting: WaitingView,
    outcome: OutcomeView,
    seed: Seq<u8>,
    directory: Map<Seq<char>, Seq<char>>,
) -> Map<Seq<char>, Seq<char>> {
    match (waiting, outcome) {
        (WaitingView::Identity { peer_id, their_public }, OutcomeView::Done) => written(
            directory,
            did_text(their_public),
            pairwise_topic(seed, their_public),
        ),
        _ => directory,
    }
}

/// How the reactor goes on from `waiting` with `outcome`, for a node with the
/// given seed and peer-topic directory.
pub open spec fn on_outcome(
    waiting: WaitingView,
    outcome: OutcomeView,
    seed: Seq<u8>,
    directory: Map<Seq<char>, Seq<char>>,
) -> StepView {
    match waiting {
        WaitingView::Dial { peer_id } => match outcome {
            OutcomeView::Done => report(EventView::DialSuccessful(peer_id)),
            OutcomeView::Failed(error) => report(EventView::DialError(error)),
        },
        WaitingView::Subscribe { topic } => match outcome {
            OutcomeView::Done => report(EventView::SubscribedToTopic(topic)),
            OutcomeView::Failed(error) => report(EventView::SubscriptionError(error)),
        },
        WaitingView::Publish => match outcome {
            OutcomeView::Done => idle(),
            OutcomeView::Failed(error) => report(EventView::ErrorPublishingData(error)),
        },
        WaitingView::Identity { peer_id, their_public } => match outcome {
            OutcomeView::Done => {
                let did = did_text(their_public);
                let topic = written(directory, did, pairwise_topic(seed, their_public))[did];
                attempt(EffectView::Subscribe(topic), WaitingView::PairSubscribe { did, topic })
            },
            OutcomeView::Failed(_) => StepView {
                effects: seq![
                    EffectView::Emit(EventView::FailureToIdentifyPeer),
                    EffectView::Disconnect(peer_id),
                ],
                waiting: Some(WaitingView::Disconnect),
            },
        },
        WaitingView::PairSubscribe { did, topic } => match outcome {
            OutcomeView::Done => StepView {
                effects: seq![
                    EffectView::Emit(EventView::GeneratedTopic(did, topic)),
                    EffectView::Emit(EventView::SubscribedToTopic(topic)),
                    EffectView::Emit(EventView::PeerIdentified),
                ],
                waiting: None,
            },
            OutcomeView::Failed(error) => report(EventView::SubscriptionError(error)),
        },
        WaitingView::Disconnect => match outcome {
            OutcomeView::Done => idle(),
            OutcomeView::Failed(_) => report(EventView::FailureToDisconnectPeer),
        },
        WaitingView::Decode { topic, payload } => match outcome {
            OutcomeView::Done => attempt(
                EffectView::AddToCache(payload),
                WaitingView::Cache { topic, payload },
            ),
            OutcomeView::Failed(_) => report(EventView::ErrorDeserializingData),
        },
        WaitingView::Cache { topic, payload } => match outcome {
            OutcomeView::Done => attempt(
                EffectView::Deliver(topic, payload),
                WaitingView::Delivery,
            ),
            OutcomeView::Failed(error) => StepView {
                effects: seq![
                    EffectView::Emit(EventView::ErrorAddingToCache(error)),
                    EffectView::Deliver(topic, payload),
                ],
                waiting: Some(WaitingView::Delivery),
            },
        },
        WaitingView::Delivery => match outcome {
            OutcomeView::Done => idle(),
            OutcomeView::Failed(_) => report(EventView::FailedToSendMessage),
        },
    }
}

/// Where the verification of a peer's identity stands.
#[derive(Clone, Copy, Debug, PartialEq, Eq, Structural)]
pub enum VerificationState {
    /// The peer is connected and has not shown its identity.
    Connected,
    /// The peer's identity is received and the identity directory is asked.
    IdentityReceived,
    /// The identity directory knows the peer.
    Validated,
    /// The identity directory does not know the peer.
    Rejected,
    /// The connection is closed.
    Disconnected,
}

/// What moves the verification of a peer's identity on.
#[derive(Clone, Copy, Debug, PartialEq, Eq, Structural)]
pub enum VerificationInput {
    /// Identity exchange received the peer's public key, and the key crossed
    /// the bridge.
    IdentityReceived,
    /// The identity directory knows the peer's DID.
    DirectoryConfirmed,
    /// The identity directory does not know the peer's DID.
    DirectoryRefused,
    /// The connection to the peer was closed.
    ConnectionClosed,
}

/// The state that follows on an input, or `None` where the state has no use
/// for the input. A closed connection ends the verification from any state;
/// an identity is received from a connected peer, and judged only once it is
/// received.
pub open spec fn next_state(state: VerificationState, input: VerificationInput) -> Option<
    VerificationState,
> {
    match (state, input) {
        (VerificationState::Disconnected, _) => None,
        (_, VerificationInput::ConnectionClosed) => Some(VerificationState::Disconnected),
        (VerificationState::Connected, VerificationInput::IdentityReceived) => Some(
            VerificationState::IdentityReceived,
        ),
        (VerificationState::IdentityReceived, VerificationInput::DirectoryConfirmed) => Some(
            VerificationState::Validated,
        ),
        (VerificationState::IdentityReceived, VerificationInput::DirectoryRefused) => Some(
            VerificationState::Rejected,
        ),
        _ => None,
    }
}

/// The state of the verification that the reactor is in while it waits, or
/// `None` where it waits for something else.
pub open spec fn verification_state(waiting: WaitingView) -> Option<VerificationState> {
    match waiting {
        WaitingView::Identity { .. } => Some(VerificationState::IdentityReceived),
        WaitingView::PairSubscribe { .. } => Some(VerificationState::Validated),
        WaitingView::Disconnect => Some(VerificationState::Rejected),
        _ => None,
    }
}

/// What an outcome is to the verification of a peer's identity while the
/// identity directory is asked.
pub open spec fn verdict(outcome: OutcomeView) -> VerificationInput {
    match outcome {
        OutcomeView::Done => VerificationInput::DirectoryConfirmed,
        OutcomeView::Failed(_) => VerificationInput::DirectoryRefused,
    }
}

impl VerificationState {
    /// The state that follows on an input.
    pub fn advance(self, input: VerificationInput) -> (next: Option<VerificationState>)
        ensures
            next == next_state(self, input),
    {
        match (self, input) {
            (VerificationState::Disconnected, _) => None,
            (_, VerificationInput::ConnectionClosed) => Some(VerificationState::Disconnected),
            (VerificationState::Connected, VerificationInput::IdentityReceived) => Some(
                VerificationState::IdentityReceived,
            ),
            (VerificationState::IdentityReceived, VerificationInput::DirectoryConfirmed) => Some(
                VerificationState::Validated,
            ),
            (VerificationState::IdentityReceived, VerificationInput::DirectoryRefused) => Some(
                VerificationState::Rejected,
            ),
            _ => None,
        }
    }

    /// Whether the verification has come to an end in this state.
    pub fn is_terminal(self) -> (b: bool)
        ensures
            b == (forall|input: VerificationInput| next_state(self, input) is None),
    {
        match self {
            VerificationState::Disconnected => true,
            _ => {
                assert(next_state(self, VerificationInput::ConnectionClosed) is Some);
                false
            },
        }
    }
}

impl Waiting {
    /// The state of the verification that the reactor is in while it waits
    /// for this.
    pub fn verification_state(&self) -> (state: Option<VerificationState>)
        ensures
            state == verification_state(self@),
    {
        match self {
            Waiting::Identity { .. } => Some(VerificationState::IdentityReceived),
            Waiting::PairSubscribe { .. } => Some(VerificationState::Validated),
            Waiting::Disconnect => Some(VerificationState::Rejected),
            _ => None,
        }
    }
}

impl Step {
    /// The step that does nothing.
    pub fn idle() -> (step: Step)
        ensures
            step@ == idle(),
    {
        let effects: Vec<Effect> = Vec::new();
        assert(effect_views(effects@) =~= Seq::<EffectView>::empty());
        Step { effects, waiting: None }
    }

    /// The step that reports one event and waits for nothing.
    pub fn report(event: Event) -> (step: Step)
        ensures
            step@ == report(event@),
    {
        let mut effects: Vec<Effect> = Vec::new();
        effects.push(Effect::Emit(event));
        assert(effect_views(effects@) =~= seq![EffectView::Emit(event@)]);
        Step { effects, waiting: None }
    }

    /// The step that performs one effect and waits for nothing.
    pub fn perform(effect: Effect) -> (step: Step)
        ensures
            step@ == (StepView { effects: seq![effect@], waiting: None }),
    {
        let mut effects: Vec<Effect> = Vec::new();
        effects.push(effect);
        assert(effect_views(effects@) =~= seq![effect@]);
        Step { effects, waiting: None }
    }

    /// The step that performs one effect and waits for its outcome.
    pub fn attempt(effect: Effect, waiting: Waiting) -> (step: Step)
        ensures
            step@ == attempt(effect@, waiting@),
    {
        let mut effects: Vec<Effect> = Vec::new();
        effects.push(effect);
        assert(effect_views(effects@) =~= seq![effect@]);
        Step { effects, waiting: Some(waiting) }
    }

    /// The step that performs two effects and, where `waiting` is given,
    /// waits for the outcome of the second.
    pub fn pair(first: Effect, second: Effect, waiting: Option<Waiting>) -> (step: Step)
        ensures
            step@.effects == seq![first@, second@],
            step@.waiting == (match waiting {
                Some(w) => Some(w@),
                None => None,
            }),
    {
        let mut effects: Vec<Effect> = Vec::new();
        effects.push(first);
        effects.push(second);
        assert(effect_views(effects@) =~= seq![first@, second@]);
        Step { effects, waiting }
    }

    /// Whether the reactor has finished with the input that led to this
    /// step.
    pub fn is_final(&self) -> (b: bool)
        ensures
            b == (self@.waiting is None),
    {
        self.waiting.is_none()
    }
}

/// Write-once: whatever the reactor goes on with, a peer that has an entry
/// keeps it, with the topic it had.
pub proof fn lemma_entries_stay(
    waiting: WaitingView,
    outcome: OutcomeView,
    seed: Seq<u8>,
    directory: Map<Seq<char>, Seq<char>>,
    did: Seq<char>,
)
    requires
        directory.dom().contains(did),
    ensures
        directory_after(waiting, outcome, seed, directory).dom().contains(did),
        directory_after(waiting, outcome, seed, directory)[did] == directory[did],
{
}

/// As soon as the identity directory has confirmed a peer, the peer has an
/// entry, and the reactor subscribes to the topic of that entry. Where the
/// peer had none before, the topic is the one derived from the node's seed
/// and the peer's public key.
pub proof fn lemma_validated_peer_has_entry(
    peer_id: Seq<char>,
    their_public: Seq<u8>,
    seed: Seq<u8>,
    directory: Map<Seq<char>, Seq<char>>,
)
    ensures
        ({
            let waiting = WaitingView::Identity { peer_id, their_public };
            let did = did_text(their_public);
            let after = directory_after(waiting, OutcomeView::Done, seed, directory);
            let step = on_outcome(waiting, OutcomeView::Done, seed, directory);
            &&& after.dom().contains(did)
            &&& !directory.dom().contains(did) ==> after[did] == pairwise_topic(seed, their_public)
            &&& step.effects == seq![EffectView::Subscribe(after[did])]
            &&& step.waiting == Some(WaitingView::PairSubscribe { did, topic: after[did] })
        }),
{
}

/// A validated peer whose subscription succeeded is announced by three
/// events, in this order: the topic, the subscription, the identification.
pub proof fn lemma_validation_events(
    did: Seq<char>,
    topic: Seq<char>,
    seed: Seq<u8>,
    directory: Map<Seq<char>, Seq<char>>,
)
    ensures
        on_outcome(WaitingView::PairSubscribe { did, topic }, OutcomeView::Done, seed, directory)
            == (StepView {
            effects: seq![
                EffectView::Emit(EventView::GeneratedTopic(did, topic)),
                EffectView::Emit(EventView::SubscribedToTopic(topic)),
                EffectView::Emit(EventView::PeerIdentified),
            ],
            waiting: None,
        }),
{
}

/// A peer that the identity directory does not know gets no entry: the
/// directory stays as it is, the failure is reported and the peer's
/// disconnection is asked for. Whether the disconnection succeeds or not, the
/// directory stays as it is then too, and a failure to disconnect is reported
/// and not tried again.
pub proof fn lemma_rejected_peer_has_no_entry(
    peer_id: Seq<char>,
    their_public: Seq<u8>,
    reason: Seq<char>,
    disconnected: OutcomeView,
    seed: Seq<u8>,
    directory: Map<Seq<char>, Seq<char>>,
)
    ensures
        ({
            let waiting = WaitingView::Identity { peer_id, their_public };
            let rejected = OutcomeView::Failed(reason);
            let step = on_outcome(waiting, rejected, seed, directory);
            &&& directory_after(waiting, rejected, seed, directory) == directory
            &&& step.effects == seq![
                EffectView::Emit(EventView::FailureToIdentifyPeer),
                EffectView::Disconnect(peer_id),
            ]
            &&& step.waiting == Some(WaitingView::Disconnect)
            &&& directory_after(WaitingView::Disconnect, disconnected, seed, directory)
                == directory
            &&& on_outcome(WaitingView::Disconnect, disconnected, seed, directory).waiting is None
            &&& on_outcome(WaitingView::Disconnect, disconnected, seed, directory).effects == (
            match disconnected {
                OutcomeView::Done => Seq::<EffectView>::empty(),
                OutcomeView::Failed(_) => seq![
                    EffectView::Emit(EventView::FailureToDisconnectPeer),
                ],
            })
        }),
{
}

/// A payload that does not serialize is reported and the command is dropped:
/// nothing is published, and the reactor waits for nothing, so it takes the
/// next input.
pub proof fn lemma_serialization_failure_is_contained(
    topic: Seq<char>,
    envelope: crate::envelope::EnvelopeView,
)
    requires
        encoded(envelope) is Err,
    ensures
        on_command(CommandView::PublishToTopic(topic, envelope)) == report(
            EventView::ErrorSerializingData,
        ),
        on_command(CommandView::PublishToTopic(topic, envelope)).waiting is None,
{
}

/// A cache that fails does not hold a message back: the failure is reported
/// and the message is delivered all the same, as it is where the cache
/// succeeds.
pub proof fn lemma_cache_failure_is_contained(
    topic: Seq<char>,
    payload: Seq<u8>,
    error: Seq<char>,
    seed: Seq<u8>,
    directory: Map<Seq<char>, Seq<char>>,
)
    ensures
        ({
            let waiting = WaitingView::Cache { topic, payload };
            let failed = on_outcome(waiting, OutcomeView::Failed(error), seed, directory);
            let stored = on_outcome(waiting, OutcomeView::Done, seed, directory);
            &&& failed.effects == seq![
                EffectView::Emit(EventView::ErrorAddingToCache(error)),
                EffectView::Deliver(topic, payload),
            ]
            &&& failed.waiting == Some(WaitingView::Delivery)
            &&& stored.effects == seq![EffectView::Deliver(topic, payload)]
            &&& stored.waiting == Some(WaitingView::Delivery)
        }),
{
}

/// A closed connection is reported and nothing else: the reactor waits for
/// nothing, and since the handler of a network event never sees the
/// directory, the peer's entry stays.
pub proof fn lemma_closed_connection_is_reported(peer: Seq<char>)
    ensures
        on_event(NetworkEventView::ConnectionClosed(peer)) == report(
            EventView::PeerConnectionClosed(peer),
        ),
{
}

/// The reactor follows the verification of a peer's identity: a received
/// identity that crossed the bridge is in the state `IdentityReceived`; from
/// there the identity directory's answer leads to the state that the
/// verification names, `Validated` or `Rejected`; and from either of those
/// the reactor finishes with the peer.
pub proof fn lemma_reactor_follows_verification(
    peer_id: Seq<char>,
    their_public: Seq<u8>,
    outcome: OutcomeView,
    later: OutcomeView,
    seed: Seq<u8>,
    directory: Map<Seq<char>, Seq<char>>,
)
    ensures
        ({
            let received = WaitingView::Identity { peer_id, their_public };
            let judged = on_outcome(received, outcome, seed, directory);
            &&& verification_state(received) == Some(VerificationState::IdentityReceived)
            &&& judged.waiting is Some
            &&& verification_state(judged.waiting->Some_0) == next_state(
                VerificationState::IdentityReceived,
                verdict(outcome),
            )
            &&& on_outcome(judged.waiting->Some_0, later, seed, directory).waiting is None
        }),
{
}

/// A closed connection ends the verification from every state but the last,
/// and nothing follows on the last.
pub proof fn lemma_disconnected_is_terminal(state: VerificationState, input: VerificationInput)
    ensures
        state != VerificationState::Disconnected ==> next_state(
            state,
            VerificationInput::ConnectionClosed,
        ) == Some(VerificationState::Disconnected),
        next_state(VerificationState::Disconnected, input) is None,
        next_state(state, input) == Some(VerificationState::Validated) ==> state
            == VerificationState::IdentityReceived,
        next_state(state, input) == Some(VerificationState::Rejected) ==> state
            == VerificationState::IdentityReceived,
{
}

/// How many more outcomes the reactor takes, at most, before it has finished
/// with the input that it waits on.
pub open spec fn steps_left(waiting: WaitingView) -> nat {
    match waiting {
        WaitingView::Identity { .. } => 2,
        WaitingView::Decode { .. } => 3,
        WaitingView::Cache { .. } => 2,
        _ => 1,
    }
}

/// The reactor does not hang on an input: whatever the outcome, it either
/// finishes with the input or waits on something that is nearer to the end.
/// Every input is finished after four outcomes at most.
pub proof fn lemma_reactor_finishes(
    waiting: WaitingView,
    outcome: OutcomeView,
    seed: Seq<u8>,
    directory: Map<Seq<char>, Seq<char>>,
)
    ensures
        1 <= steps_left(waiting) <= 3,
        on_outcome(waiting, outcome, seed, directory).waiting matches Some(next) ==> steps_left(next)
            < steps_left(waiting),
{
}

/// The first answer to a command or to a network event waits, where it waits
/// at all, on something that takes three more outcomes at most.
pub proof fn lemma_inputs_are_bounded(command: CommandView, event: NetworkEventView)
    ensures
        on_command(command).waiting matches Some(next) ==> steps_left(next) == 1,
        on_event(event).waiting matches Some(next) ==> steps_left(next) <= 3,
{
}

} // verus!
