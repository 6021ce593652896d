//! The handlers of network events. Each handler takes the events of one
//! source; no event is taken by two of them.

use crate::command::texts;
use crate::envelope::Envelope;
use crate::event::Event;
use crate::identity::{copy_bytes, libp2p_pub_to_did};
use crate::reactor::{
    address_entries, closest_views, effect_views, expired_views, explicit_peers, idle, on_event,
    peer_addresses, removals, ClosestPeer, ClosestPeerView, Effect, EffectView, ExpiredPeer,
    ExpiredPeerView, NetworkEvent, NetworkEventView, Step, StepView, Waiting,
};
use vstd::prelude::*;

verus! {

/// The handlers.
#[derive(Clone, Copy, Debug, PartialEq, Eq, Structural)]
pub enum HandlerKind {
    /// Local-network discovery: upkeep of the explicit peers of topic
    /// messaging.
    Mdns,
    /// Identity exchange: the verification of a peer's identity.
    Identify,
    /// Topic messaging: the routing of inbound messages.
    GossipSub,
    /// The distributed hash table: upkeep of the routing table.
    Kademlia,
    ConnectionClosed,
    ConnectionEstablished,
    NewListener,
}

/// Whether a handler takes an event.
pub open spec fn handles(handler: HandlerKind, event: NetworkEventView) -> bool {
    match handler {
        HandlerKind::Mdns => event is MdnsDiscovered || event is MdnsExpired,
        HandlerKind::Identify => event is IdentifyReceived || event is IdentifyOther,
        HandlerKind::GossipSub => event is GossipsubMessage || event is GossipsubOther,
        HandlerKind::Kademlia => event is KademliaClosestPeers || event is KademliaOther,
        HandlerKind::ConnectionClosed => event is ConnectionClosed,
        HandlerKind::ConnectionEstablished => event is ConnectionEstablished,
        HandlerKind::NewListener => event is NewListenAddr,
    }
}

/// What a handler answers to an event: the reactor's answer where the handler
/// takes the event, and nothing where it does not.
pub open spec fn handled(handler: HandlerKind, event: NetworkEventView) -> StepView {
    if handles(handler, event) {
        on_event(event)
    } else {
        idle()
    }
}

/// A handler of network events.
pub trait EventHandler {
    /// Which handler this is.
    spec fn kind() -> HandlerKind;

    /// Whether this handler takes the event.
    fn can_handle(event: &NetworkEvent) -> (b: bool)
        ensures
            b == handles(Self::kind(), event@),
    ;

    /// This handler's answer to the event.
    fn handle(event: NetworkEvent) -> (step: Step)
        ensures
            step@ == handled(Self::kind(), event@),
    ;
}

/// Handler of local-network discovery.
#[derive(Default)]
pub struct MdnsHandler {}

/// Handler of identity exchange.
#[derive(Default)]
pub struct IdentifyEventHandler {}

/// Handler of topic messaging.
#[derive(Default)]
pub struct GossipSubHandler {}

/// Handler of the distributed hash table.
#[derive(Default)]
pub struct KademliaEventHandler {}

/// Handler of closed connections.
#[derive(Default)]
pub struct ConnectionClosedHandler {}

/// Handler of established connections.
#[derive(Default)]
pub struct ConnectionEstablishedHandler {}

/// Handler of new listen addresses.
#[derive(Default)]
pub struct NewListenerHandler {}

impl MdnsHandler {
    /// Every peer that local-network discovery found becomes an explicit peer
    /// of topic messaging.
    fn discovered(list: &Vec<String>) -> (step: Step)
        ensures
            step@ == (StepView { effects: explicit_peers(texts(list@)), waiting: None }),
    {
        let mut effects: Vec<Effect> = Vec::new();
        let mut i: usize = 0;
        while i < list.len()
            invariant
                i <= list@.len(),
                effects@.len() == i,
                forall|j: int|
                    0 <= j < i ==> (#[trigger] effects@[j])@ == EffectView::AddExplicitPeer(
                        list@[j]@,
                    ),
            decreases list@.len() - i,
        {
            effects.push(Effect::AddExplicitPeer(list[i].clone()));
            i = i + 1;
        }
        assert(effect_views(effects@) =~= explicit_peers(texts(list@)));
        Step { effects, waiting: None }
    }

    /// Every expired peer that local-network discovery knows by no other
    /// record stops being an explicit peer of topic messaging.
    fn expired(list: &Vec<ExpiredPeer>) -> (step: Step)
        ensures
            step@ == (StepView { effects: removals(expired_views(list@)), waiting: None }),
    {
        let mut effects: Vec<Effect> = Vec::new();
        let mut i: usize = 0;
        let ghost all = expired_views(list@);
        assert(all.subrange(0, 0) =~= Seq::<ExpiredPeerView>::empty());
        assert(effect_views(effects@) =~= removals(all.subrange(0, 0)));
        while i < list.len()
            invariant
                i <= list@.len(),
                all == expired_views(list@),
                effect_views(effects@) == removals(all.subrange(0, i as int)),
            decreases list@.len() - i,
        {
            let ghost before = effect_views(effects@);
            proof {
                let upto = all.subrange(0, i + 1);
                assert(upto.drop_last() =~= all.subrange(0, i as int));
                assert(upto.last() == list@[i as int]@);
            }
            if !list[i].still_discovered {
                effects.push(Effect::RemoveExplicitPeer(list[i].peer.clone()));
                assert(effect_views(effects@) =~= before.push(
                    EffectView::RemoveExplicitPeer(list@[i as int].peer@),
                ));
            }
            i = i + 1;
        }
        assert(all.subrange(0, i as int) =~= all);
        Step { effects, waiting: None }
    }
}

impl EventHandler for MdnsHandler {
    open spec fn kind() -> HandlerKind {
        HandlerKind::Mdns
    }

    fn can_handle(event: &NetworkEvent) -> (b: bool) {
        match event {
            NetworkEvent::MdnsDiscovered(_) => true,
            NetworkEvent::MdnsExpired(_) => true,
            _ => false,
        }
    }

    fn handle(event: NetworkEvent) -> (step: Step) {
        match event {
            NetworkEvent::MdnsDiscovered(list) => Self::discovered(&list),
            NetworkEvent::MdnsExpired(list) => Self::expired(&list),
            _ => Step::idle(),
        }
    }
}

impl EventHandler for IdentifyEventHandler {
    open spec fn kind() -> HandlerKind {
        HandlerKind::Identify
    }

    fn can_handle(event: &NetworkEvent) -> (b: bool) {
        match event {
            NetworkEvent::IdentifyReceived { .. } => true,
            NetworkEvent::IdentifyOther => true,
            _ => false,
        }
    }

    /// A received identity is taken across the bridge. Where that fails, the
    /// failure is reported and the peer is left as it is; where it succeeds,
    /// the identity directory is asked for the peer's DID.
    fn handle(event: NetworkEvent) -> (step: Step) {
        match event {
            NetworkEvent::IdentifyReceived { peer_id, public_key } => {
                match libp2p_pub_to_did(&public_key) {
                    Ok(their_public) => {
                        let did = their_public.to_text();
                        Step::attempt(
                            Effect::GetIdentity(did),
                            Waiting::Identity { peer_id, their_public },
                        )
                    },
                    Err(_) => Step::report(Event::ConvertKeyError),
                }
            },
            _ => Step::idle(),
        }
    }
}

impl EventHandler for GossipSubHandler {
    open spec fn kind() -> HandlerKind {
        HandlerKind::GossipSub
    }

    fn can_handle(event: &NetworkEvent) -> (b: bool) {
        match event {
            NetworkEvent::GossipsubMessage { .. } => true,
            NetworkEvent::GossipsubOther => true,
            _ => false,
        }
    }

    /// An inbound message is read as an envelope. Where that fails, the
    /// failure is reported and the message is dropped; where it succeeds, the
    /// application payload goes to its decoder.
    fn handle(event: NetworkEvent) -> (step: Step) {
        match event {
            NetworkEvent::GossipsubMessage { topic, data } => {
                match Envelope::decode(&data) {
                    Ok(envelope) => {
                        let payload = copy_bytes(&envelope.payload);
                        Step::attempt(
                            Effect::DecodePayload(payload),
                            Waiting::Decode { topic, payload: envelope.payload },
                        )
                    },
                    Err(_) => Step::report(Event::ErrorDeserializingData),
                }
            },
            _ => Step::idle(),
        }
    }
}

impl KademliaEventHandler {
    /// Every address of every peer that a query found nearest is entered into
    /// the routing table again.
    fn closest_peers(peers: &Vec<ClosestPeer>) -> (step: Step)
        ensures
            step@ == (StepView { effects: address_entries(closest_views(peers@)), waiting: None }),
    {
        let mut effects: Vec<Effect> = Vec::new();
        let mut i: usize = 0;
        let ghost all = closest_views(peers@);
        assert(all.subrange(0, 0) =~= Seq::<ClosestPeerView>::empty());
        assert(effect_views(effects@) =~= address_entries(all.subrange(0, 0)));
        while i < peers.len()
            invariant
                i <= peers@.len(),
                all == closest_views(peers@),
                effect_views(effects@) == address_entries(all.subrange(0, i as int)),
            decreases peers@.len() - i,
        {
            let ghost before = effect_views(effects@);
            let found = &peers[i];
            proof {
                let upto = all.subrange(0, i + 1);
                assert(upto.drop_last() =~= all.subrange(0, i as int));
                assert(upto.last() == found@);
            }
            let mut j: usize = 0;
            while j < found.addresses.len()
                invariant
                    j <= found.addresses@.len(),
                    effect_views(effects@) == before + peer_addresses(
                        found@.peer,
                        found@.addresses,
                    ).subrange(0, j as int),
                decreases found.addresses@.len() - j,
            {
                let ghost so_far = effect_views(effects@);
                effects.push(Effect::AddAddress(found.peer.clone(), found.addresses[j].clone()));
                assert(effect_views(effects@) =~= so_far.push(
                    EffectView::AddAddress(found@.peer, found.addresses@[j as int]@),
                ));
                j = j + 1;
                assert(effect_views(effects@) =~= before + peer_addresses(
                    found@.peer,
                    found@.addresses,
                ).subrange(0, j as int));
            }
            assert(peer_addresses(found@.peer, found@.addresses).subrange(0, j as int)
                =~= peer_addresses(found@.peer, found@.addresses));
            i = i + 1;
        }
        assert(all.subrange(0, i as int) =~= all);
        Step { effects, waiting: None }
    }
}

impl EventHandler for KademliaEventHandler {
    open spec fn kind() -> HandlerKind {
        HandlerKind::Kademlia
    }

    fn can_handle(event: &NetworkEvent) -> (b: bool) {
        match event {
            NetworkEvent::KademliaClosestPeers(_) => true,
            NetworkEvent::KademliaOther => true,
            _ => false,
        }
    }

    fn handle(event: NetworkEvent) -> (step: Step) {
        match event {
            NetworkEvent::KademliaClosestPeers(peers) => Self::closest_peers(&peers),
            _ => Step::idle(),
        }
    }
}

impl EventHandler for ConnectionClosedHandler {
    open spec fn kind() -> HandlerKind {
        HandlerKind::ConnectionClosed
    }

    fn can_handle(event: &NetworkEvent) -> (b: bool) {
        match event {
            NetworkEvent::ConnectionClosed(_) => true,
            _ => false,
        }
    }

    fn handle(event: NetworkEvent) -> (step: Step) {
        match event {
            NetworkEvent::ConnectionClosed(peer_id) => Step::report(
                Event::PeerConnectionClosed(peer_id),
            ),
            _ => Step::idle(),
        }
    }
}

impl EventHandler for ConnectionEstablishedHandler {
    open spec fn kind() -> HandlerKind {
        HandlerKind::ConnectionEstablished
    }

    fn can_handle(event: &NetworkEvent) -> (b: bool) {
        match event {
            NetworkEvent::ConnectionEstablished(_) => true,
            _ => false,
        }
    }

    fn handle(event: NetworkEvent) -> (step: Step) {
        match event {
            NetworkEvent::ConnectionEstablished(peer_id) => Step::report(
                Event::ConnectionEstablished(peer_id),
            ),
            _ => Step::idle(),
        }
    }
}

impl EventHandler for NewListenerHandler {
    open spec fn kind() -> HandlerKind {
        HandlerKind::NewListener
    }

    fn can_handle(event: &NetworkEvent) -> (b: bool) {
        match event {
            NetworkEvent::NewListenAddr(_) => true,
            _ => false,
        }
    }

    fn handle(event: NetworkEvent) -> (step: Step) {
        match event {
            NetworkEvent::NewListenAddr(address) => Step::report(Event::NewListenAddr(address)),
            _ => Step::idle(),
        }
    }
}

/// No event is taken by two handlers.
pub proof fn lemma_one_handler(event: NetworkEventView, first: HandlerKind, second: HandlerKind)
    requires
        handles(first, event),
        handles(second, event),
    ensures
        first == second,
{
}

/// An event that no handler takes has no effect.
pub proof fn lemma_unhandled_event(event: NetworkEventView)
    requires
        forall|handler: HandlerKind| !handles(handler, event),
    ensures
        on_event(event) == idle(),
{
    assert(!handles(HandlerKind::Mdns, event));
    assert(!handles(HandlerKind::Identify, event));
    assert(!handles(HandlerKind::GossipSub, event));
    assert(!handles(HandlerKind::Kademlia, event));
    assert(!handles(HandlerKind::ConnectionClosed, event));
    assert(!handles(HandlerKind::ConnectionEstablished, event));
    assert(!handles(HandlerKind::NewListener, event));
}

} // verus!
