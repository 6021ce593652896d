//! The engine: the state that the reactor and the public operations share,
//! the reactor's handlers and the public operations themselves.
//!
//! The peer-topic directory is held here, beside the node's own DID. The
//! reactor writes to it when a peer is validated; `send` reads it. Whoever
//! drives the engine keeps it behind one lock and holds that lock for one call
//! at a time.
//!
//! Cancellation ends the reactor loop: when the flag is seen at the top of an
//! iteration, `TaskCancelled` is reported once and no further input is taken.

use crate::command::{
    is_multiaddr, multiaddr_peer_id, parse_multiaddr, texts, trailing_peer_id, BlinkCommand,
    CommandView, DialOpts,
};
use crate::directory::PeerTopicDirectory;
use crate::envelope::{Envelope, EnvelopeView};
use crate::event::{Event, EventView};
use crate::identity::{did_keypair_to_libp2p_keypair, network_keypair_of, DidKey, NetworkKeypair};
use crate::event_handlers::{
    ConnectionClosedHandler, ConnectionEstablishedHandler, EventHandler, GossipSubHandler,
    IdentifyEventHandler, KademliaEventHandler, MdnsHandler, NewListenerHandler,
};
use crate::reactor::{
    directory_after, effect_views, on_command, on_event, on_outcome, Effect, EffectView,
    NetworkEvent, Outcome, Step, Waiting,
};
use crate::topic::{generate_topic_from_key_exchange, TopicName};
use vstd::prelude::*;

verus! {

/// Capacity of the command channel and of the local delivery channel.
pub const CHANNEL_SIZE: usize = 64;

/// What reaches the application: the topic a message came on and its payload.
pub type MessageContent = (String, Vec<u8>);

/// Why the engine did not start.
#[derive(Clone, Copy, Debug, PartialEq, Eq, Structural)]
pub enum StartError {
    /// The DID holds no seed that the network identity scheme accepts.
    KeyConversion,
    /// The text given to listen on is no transport address.
    InvalidListenAddress,
}

/// Something for a public operation's caller to do.
#[derive(Debug, Clone, PartialEq, Eq)]
pub enum Dispatch {
    /// Put the command on the command channel.
    Enqueue(BlinkCommand),
    /// Hand the event to the event sink.
    Emit(Event),
}

/// A dispatch as a mathematical value.
pub enum DispatchView {
    Enqueue(CommandView),
    Emit(EventView),
}

impl View for Dispatch {
    type V = DispatchView;

    open spec fn view(&self) -> DispatchView {
        match *self {
            Dispatch::Enqueue(command) => DispatchView::Enqueue(command@),
            Dispatch::Emit(event) => DispatchView::Emit(event@),
        }
    }
}

/// The views of a sequence of dispatches.
pub open spec fn dispatch_views(dispatches: Seq<Dispatch>) -> Seq<DispatchView> {
    dispatches.map_values(|d: Dispatch| d@)
}

/// What `send` does for one recipient: a publication on the recipient's
/// topic, or the report that the recipient has none.
pub open spec fn dispatch_for(
    payload: Seq<u8>,
    recipient: Seq<char>,
    sent_at: Option<u64>,
    directory: Map<Seq<char>, Seq<char>>,
) -> DispatchView {
    if directory.dom().contains(recipient) {
        DispatchView::Enqueue(
            CommandView::PublishToTopic(
                directory[recipient],
                EnvelopeView { payload, timestamp: sent_at },
            ),
        )
    } else {
        DispatchView::Emit(EventView::CouldntFindTopicForDid)
    }
}

/// What `send` does: one dispatch for each recipient, the last recipient
/// first.
pub open spec fn send_plan(
    payload: Seq<u8>,
    recipients: Seq<Seq<char>>,
    sent_at: Option<u64>,
    directory: Map<Seq<char>, Seq<char>>,
) -> Seq<DispatchView>
    decreases recipients.len(),
{
    if recipients.len() == 0 {
        Seq::empty()
    } else {
        seq![dispatch_for(payload, recipients.last(), sent_at, directory)] + send_plan(
            payload,
            recipients.drop_last(),
            sent_at,
            directory,
        )
    }
}

/// What the engine does with the addresses it is started with: each address
/// that ends with a peer is told to discovery, and its peer is made an
/// explicit peer of topic messaging.
pub open spec fn known_peers(addresses: Seq<Seq<char>>) -> Seq<EffectView>
    decreases addresses.len(),
{
    if addresses.len() == 0 {
        Seq::empty()
    } else {
        let earlier = known_peers(addresses.drop_last());
        match multiaddr_peer_id(addresses.last()) {
            Some(peer) => earlier.push(EffectView::AddAddress(peer, addresses.last())).push(
                EffectView::AddExplicitPeer(peer),
            ),
            None => earlier,
        }
    }
}

/// What starting the engine answers: the effects that set the network up,
/// ending with the one that listens, or the error.
pub open spec fn start_plan(
    public: Seq<u8>,
    secret: Option<Seq<u8>>,
    address_to_listen: Seq<char>,
    initial_known_address: Seq<Seq<char>>,
) -> Result<Seq<EffectView>, StartError> {
    if network_keypair_of(public, secret) is Err {
        Err(StartError::KeyConversion)
    } else if !is_multiaddr(address_to_listen) {
        Err(StartError::InvalidListenAddress)
    } else {
        Ok(known_peers(initial_known_address).push(EffectView::Listen(address_to_listen)))
    }
}

/// The engine's state.
pub struct PeerToPeerService {
    did: DidKey,
    map_peer_topic: PeerTopicDirectory,
}

/// A started engine, the key pair for the network stack and the effects that
/// set the network up.
pub struct Started {
    pub service: PeerToPeerService,
    pub key_pair: NetworkKeypair,
    pub effects: Vec<Effect>,
}

impl PeerToPeerService {
    /// The node's DID holds its seed, and no DID has two directory entries.
    pub closed spec fn well_formed(&self) -> bool {
        &&& self.did.well_formed()
        &&& self.did.secret() is Some
        &&& self.map_peer_topic.well_formed()
    }

    /// The node's seed.
    pub closed spec fn seed(&self) -> Seq<u8> {
        self.did.secret()->Some_0
    }

    /// The node's public key.
    pub closed spec fn public(&self) -> Seq<u8> {
        self.did.public()
    }

    /// The peer-topic directory: from the text form of a validated peer's DID
    /// to the pairwise topic.
    pub closed spec fn directory(&self) -> Map<Seq<char>, Seq<char>> {
        self.map_peer_topic@
    }

    /// Starts the engine for the node with the given DID. Fails where the
    /// DID's key pair does not convert to a network key pair, and where the
    /// text to listen on is no transport address. The directory starts
    /// empty.
    pub fn new(
        did_key: DidKey,
        address_to_listen: &str,
        initial_known_address: Option<Vec<String>>,
    ) -> (r: Result<Started, StartError>)
        ensures
            match (
                r,
                start_plan(
                    did_key.public(),
                    did_key.secret(),
                    address_to_listen@,
                    match initial_known_address {
                        Some(known) => texts(known@),
                        None => Seq::empty(),
                    },
                ),
            ) {
                (Ok(started), Ok(plan)) => {
                    &&& started.service.well_formed()
                    &&& started.service.public() == did_key.public()
                    &&& Some(started.service.seed()) == did_key.secret()
                    &&& started.service.directory() == Map::<Seq<char>, Seq<char>>::empty()
                    &&& started.key_pair.well_formed()
                    &&& started.key_pair.seed() == started.service.seed()
                    &&& started.key_pair.public() == did_key.public()
                    &&& effect_views(started.effects@) == plan
                },
                (Err(e), Err(expected)) => e == expected,
                _ => false,
            },
    {
        proof {
            use_type_invariant(&did_key);
        }
        let key_pair = match did_keypair_to_libp2p_keypair(&did_key) {
            Ok(pair) => pair,
            Err(_) => {
                return Err(StartError::KeyConversion);
            },
        };
        if parse_multiaddr(address_to_listen).is_err() {
            return Err(StartError::InvalidListenAddress);
        }
        let mut effects: Vec<Effect> = Vec::new();
        let ghost known: Seq<Seq<char>> = Seq::empty();
        assert(effect_views(effects@) =~= known_peers(known));
        match initial_known_address {
            Some(addresses) => {
                let mut i: usize = 0;
                proof {
                    known = texts(addresses@);
                    assert(known.subrange(0, 0) =~= Seq::<Seq<char>>::empty());
                }
                while i < addresses.len()
                    invariant
                        i <= addresses@.len(),
                        known == texts(addresses@),
                        effect_views(effects@) == known_peers(known.subrange(0, i as int)),
                    decreases addresses@.len() - i,
                {
                    let ghost before = effect_views(effects@);
                    proof {
                        let upto = known.subrange(0, i + 1);
                        assert(upto.drop_last() =~= known.subrange(0, i as int));
                        assert(upto.last() == addresses@[i as int]@);
                    }
                    match trailing_peer_id(addresses[i].as_str()) {
                        Some(peer) => {
                            effects.push(Effect::AddAddress(peer.clone(), addresses[i].clone()));
                            effects.push(Effect::AddExplicitPeer(peer));
                            assert(effect_views(effects@) =~= before.push(
                                EffectView::AddAddress(peer@, addresses@[i as int]@),
                            ).push(EffectView::AddExplicitPeer(peer@)));
                        },
                        None => {},
                    }
                    i = i + 1;
                }
                assert(known.subrange(0, i as int) =~= known);
            },
            None => {},
        }
        let ghost before = effect_views(effects@);
        let listen = String::from_str(address_to_listen);
        effects.push(Effect::Listen(listen));
        assert(effect_views(effects@) =~= before.push(EffectView::Listen(address_to_listen@)));
        Ok(
            Started {
                service: PeerToPeerService {
                    did: did_key,
                    map_peer_topic: PeerTopicDirectory::new(),
                },
                key_pair,
                effects,
            },
        )
    }

    /// What the reactor loop does at the top of an iteration: where the
    /// cancellation flag is set, it reports `TaskCancelled` and ends.
    pub fn check_cancellation(cancelled: bool) -> (report: Option<Event>)
        ensures
            match report {
                Some(event) => cancelled && event@ == EventView::TaskCancelled,
                None => !cancelled,
            },
    {
        if cancelled {
            Some(Event::TaskCancelled)
        } else {
            None
        }
    }

    /// The reactor's answer to a command.
    pub fn handle_command(command: BlinkCommand) -> (step: Step)
        ensures
            step@ == on_command(command@),
    {
        match command {
            BlinkCommand::FindNearest(peer) => Step::perform(Effect::FindNearest(peer)),
            BlinkCommand::Dial(dial_opts) => {
                let peer_id = match dial_opts.get_peer_id() {
                    Some(p) => p,
                    None => String::new(),
                };
                Step::attempt(Effect::Dial(dial_opts), Waiting::Dial { peer_id })
            },
            BlinkCommand::Subscribe(topic) => {
                let asked = topic.clone();
                Step::attempt(Effect::Subscribe(asked), Waiting::Subscribe { topic })
            },
            BlinkCommand::PublishToTopic(name, envelope) => {
                match envelope.encode() {
                    Ok(serialized) => Step::attempt(
                        Effect::Publish(name, serialized),
                        Waiting::Publish,
                    ),
                    Err(_) => Step::report(Event::ErrorSerializingData),
                }
            },
        }
    }

    /// The reactor's answer to a network event: the answer of the one handler
    /// that takes the event, or nothing where none does.
    pub fn handle_event(event: NetworkEvent) -> (step: Step)
        ensures
            step@ == on_event(event@),
    {
        if MdnsHandler::can_handle(&event) {
            MdnsHandler::handle(event)
        } else if IdentifyEventHandler::can_handle(&event) {
            IdentifyEventHandler::handle(event)
        } else if GossipSubHandler::can_handle(&event) {
            GossipSubHandler::handle(event)
        } else if KademliaEventHandler::can_handle(&event) {
            KademliaEventHandler::handle(event)
        } else if ConnectionEstablishedHandler::can_handle(&event) {
            ConnectionEstablishedHandler::handle(event)
        } else if ConnectionClosedHandler::can_handle(&event) {
            ConnectionClosedHandler::handle(event)
        } else if NewListenerHandler::can_handle(&event) {
            NewListenerHandler::handle(event)
        } else {
            Step::idle()
        }
    }

    /// Goes on from what the reactor waited for, with the outcome of the
    /// effect it waited on. Only the validation of a peer writes to the
    /// directory.
    pub fn resume(&mut self, waiting: Waiting, outcome: Outcome) -> (step: Step)
        requires
            old(self).well_formed(),
        ensures
            final(self).well_formed(),
            final(self).seed() == old(self).seed(),
            final(self).public() == old(self).public(),
            final(self).directory() == directory_after(
                waiting@,
                outcome@,
                old(self).seed(),
                old(self).directory(),
            ),
            step@ == on_outcome(waiting@, outcome@, old(self).seed(), old(self).directory()),
    {
        match waiting {
            Waiting::Dial { peer_id } => match outcome {
                Outcome::Done => Step::report(Event::DialSuccessful(peer_id)),
                Outcome::Failed(error) => Step::report(Event::DialError(error)),
            },
            Waiting::Subscribe { topic } => match outcome {
                Outcome::Done => Step::report(Event::SubscribedToTopic(topic)),
                Outcome::Failed(error) => Step::report(Event::SubscriptionError(error)),
            },
            Waiting::Publish => match outcome {
                Outcome::Done => Step::idle(),
                Outcome::Failed(error) => Step::report(Event::ErrorPublishingData(error)),
            },
            Waiting::Identity { peer_id, their_public } => match outcome {
                Outcome::Done => {
                    let derived = generate_topic_from_key_exchange(&self.did, &their_public);
                    let did = their_public.to_text();
                    let topic = self.map_peer_topic.insert(did.clone(), derived);
                    let asked = topic.clone();
                    Step::attempt(Effect::Subscribe(asked), Waiting::PairSubscribe { did, topic })
                },
                Outcome::Failed(_) => Step::pair(
                    Effect::Emit(Event::FailureToIdentifyPeer),
                    Effect::Disconnect(peer_id),
                    Some(Waiting::Disconnect),
                ),
            },
            Waiting::PairSubscribe { did, topic } => match outcome {
                Outcome::Done => {
                    let mut effects: Vec<Effect> = Vec::new();
                    effects.push(Effect::Emit(Event::GeneratedTopic(did, topic.clone())));
                    effects.push(Effect::Emit(Event::SubscribedToTopic(topic)));
                    effects.push(Effect::Emit(Event::PeerIdentified));
                    assert(effect_views(effects@) =~= seq![
                        EffectView::Emit(EventView::GeneratedTopic(did@, topic@)),
                        EffectView::Emit(EventView::SubscribedToTopic(topic@)),
                        EffectView::Emit(EventView::PeerIdentified),
                    ]);
                    Step { effects, waiting: None }
                },
                Outcome::Failed(error) => Step::report(Event::SubscriptionError(error)),
            },
            Waiting::Disconnect => match outcome {
                Outcome::Done => Step::idle(),
                Outcome::Failed(_) => Step::report(Event::FailureToDisconnectPeer),
            },
            Waiting::Decode { topic, payload } => match outcome {
                Outcome::Done => {
                    let cached = crate::identity::copy_bytes(&payload);
                    Step::attempt(Effect::AddToCache(cached), Waiting::Cache { topic, payload })
                },
                Outcome::Failed(_) => Step::report(Event::ErrorDeserializingData),
            },
            Waiting::Cache { topic, payload } => match outcome {
                Outcome::Done => Step::attempt(Effect::Deliver(topic, payload), Waiting::Delivery),
                Outcome::Failed(error) => Step::pair(
                    Effect::Emit(Event::ErrorAddingToCache(error)),
                    Effect::Deliver(topic, payload),
                    Some(Waiting::Delivery),
                ),
            },
            Waiting::Delivery => match outcome {
                Outcome::Done => Step::idle(),
                Outcome::Failed(_) => Step::report(Event::FailedToSendMessage),
            },
        }
    }

    /// The command that dials a peer. The outcome of the dial is seen later,
    /// as an event.
    pub fn pair_to_another_peer(&self, dial_opts: DialOpts) -> (command: BlinkCommand)
        ensures
            command@ == CommandView::Dial(dial_opts@),
    {
        BlinkCommand::Dial(dial_opts)
    }

    /// The command that subscribes to a topic chosen by the application.
    pub fn subscribe_to_topic(&self, topic_name: String) -> (command: BlinkCommand)
        ensures
            command@ == CommandView::Subscribe(topic_name@),
    {
        BlinkCommand::Subscribe(topic_name)
    }

    /// The command that publishes a payload on a topic.
    pub fn publish_message_to_topic(&self, topic: TopicName, payload: Vec<u8>) -> (command:
        BlinkCommand)
        ensures
            command@ == CommandView::PublishToTopic(
                topic@,
                EnvelopeView { payload: payload@, timestamp: None },
            ),
    {
        BlinkCommand::PublishToTopic(topic, Envelope::new(payload, None))
    }

    /// The topic of a validated peer, by the text form of its DID.
    pub fn topic_of(&self, did: &String) -> (topic: Option<TopicName>)
        ensures
            match topic {
                Some(t) => self.directory().dom().contains(did@) && t@ == self.directory()[did@],
                None => !self.directory().dom().contains(did@),
            },
    {
        self.map_peer_topic.get(did)
    }

    /// Sends a payload to recipients, given by the text forms of their DIDs.
    /// For a recipient that has a topic the payload is published on it, in an
    /// envelope with the time of sending; for one that has none, that is
    /// reported, and the other recipients are served all the same. The
    /// recipients are taken last first.
    pub fn send(&self, payload: &Vec<u8>, recipients: &Vec<String>, sent_at: Option<u64>) -> (plan:
        Vec<Dispatch>)
        ensures
            dispatch_views(plan@) == send_plan(
                payload@,
                texts(recipients@),
                sent_at,
                self.directory(),
            ),
    {
        let mut plan: Vec<Dispatch> = Vec::new();
        let mut i: usize = recipients.len();
        let ghost all = texts(recipients@);
        assert(all.subrange(0, i as int) =~= all);
        assert(dispatch_views(plan@) =~= Seq::<DispatchView>::empty());
        while i > 0
            invariant
                i <= recipients@.len(),
                all == texts(recipients@),
                dispatch_views(plan@) + send_plan(
                    payload@,
                    all.subrange(0, i as int),
                    sent_at,
                    self.directory(),
                ) == send_plan(payload@, all, sent_at, self.directory()),
            decreases i,
        {
            let ghost before = dispatch_views(plan@);
            let ghost upto = all.subrange(0, i as int);
            i = i - 1;
            proof {
                assert(upto.drop_last() =~= all.subrange(0, i as int));
                assert(upto.last() == recipients@[i as int]@);
            }
            let who = &recipients[i];
            match self.map_peer_topic.get(who) {
                Some(topic) => {
                    let envelope = Envelope::new(crate::identity::copy_bytes(payload), sent_at);
                    plan.push(Dispatch::Enqueue(BlinkCommand::PublishToTopic(topic, envelope)));
                },
                None => {
                    plan.push(Dispatch::Emit(Event::CouldntFindTopicForDid));
                },
            }
            proof {
                let one = dispatch_for(payload@, who@, sent_at, self.directory());
                assert(dispatch_views(plan@) =~= before.push(one));
                assert(before.push(one) + send_plan(
                    payload@,
                    all.subrange(0, i as int),
                    sent_at,
                    self.directory(),
                ) =~= before + (seq![one] + send_plan(
                    payload@,
                    all.subrange(0, i as int),
                    sent_at,
                    self.directory(),
                )));
            }
        }
        assert(all.subrange(0, 0) =~= Seq::<Seq<char>>::empty());
        assert(dispatch_views(plan@) + Seq::<DispatchView>::empty() =~= dispatch_views(plan@));
        plan
    }
}

/// `send` serves every recipient: its plan has one dispatch for each.
pub proof fn lemma_send_serves_all(
    payload: Seq<u8>,
    recipients: Seq<Seq<char>>,
    sent_at: Option<u64>,
    directory: Map<Seq<char>, Seq<char>>,
)
    ensures
        send_plan(payload, recipients, sent_at, directory).len() == recipients.len(),
    decreases recipients.len(),
{
    if recipients.len() > 0 {
        lemma_send_serves_all(payload, recipients.drop_last(), sent_at, directory);
    }
}

/// The dispatch for the recipient at place `i` stands at the mirrored place
/// of the plan, whatever the other recipients are.
pub proof fn lemma_send_each(
    payload: Seq<u8>,
    recipients: Seq<Seq<char>>,
    sent_at: Option<u64>,
    directory: Map<Seq<char>, Seq<char>>,
    i: int,
)
    requires
        0 <= i < recipients.len(),
    ensures
        send_plan(payload, recipients, sent_at, directory).len() == recipients.len(),
        send_plan(payload, recipients, sent_at, directory)[recipients.len() - 1 - i]
            == dispatch_for(payload, recipients[i], sent_at, directory),
    decreases recipients.len(),
{
    lemma_send_serves_all(payload, recipients, sent_at, directory);
    if i < recipients.len() - 1 {
        lemma_send_each(payload, recipients.drop_last(), sent_at, directory, i);
        lemma_send_serves_all(payload, recipients.drop_last(), sent_at, directory);
    }
}

/// A recipient that was never paired does not make `send` fail: for it the
/// plan holds the report that no topic was found, and nothing is published.
pub proof fn lemma_unresolved_recipient(
    payload: Seq<u8>,
    recipient: Seq<char>,
    sent_at: Option<u64>,
    directory: Map<Seq<char>, Seq<char>>,
)
    requires
        !directory.dom().contains(recipient),
    ensures
        send_plan(payload, seq![recipient], sent_at, directory) == seq![
            DispatchView::Emit(EventView::CouldntFindTopicForDid),
        ],
{
    let one = seq![recipient];
    assert(one.drop_last() =~= Seq::<Seq<char>>::empty());
    assert(send_plan(payload, one.drop_last(), sent_at, directory) =~= Seq::<
        DispatchView,
    >::empty());
    assert(send_plan(payload, one, sent_at, directory) =~= seq![
        DispatchView::Emit(EventView::CouldntFindTopicForDid),
    ]);
}

/// Once a peer has been validated, `send` resolves it: from then on, whatever
/// the reactor goes on with, the payload for that peer is published on the
/// topic of the peer's entry.
pub proof fn lemma_validated_recipient_resolves(
    payload: Seq<u8>,
    sent_at: Option<u64>,
    peer_id: Seq<char>,
    their_public: Seq<u8>,
    seed: Seq<u8>,
    directory: Map<Seq<char>, Seq<char>>,
    later_waiting: crate::reactor::WaitingView,
    later_outcome: crate::reactor::OutcomeView,
)
    ensures
        ({
            let did = crate::identity::did_text(their_public);
            let validated = directory_after(
                crate::reactor::WaitingView::Identity { peer_id, their_public },
                crate::reactor::OutcomeView::Done,
                seed,
                directory,
            );
            let later = directory_after(later_waiting, later_outcome, seed, validated);
            &&& validated.dom().contains(did)
            &&& later.dom().contains(did)
            &&& later[did] == validated[did]
            &&& dispatch_for(payload, did, sent_at, later) == DispatchView::Enqueue(
                CommandView::PublishToTopic(
                    validated[did],
                    EnvelopeView { payload, timestamp: sent_at },
                ),
            )
        }),
{
}

} // verus!
