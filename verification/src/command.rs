//! Commands: the intents that the public operations hand to the reactor.

use crate::envelope::{Envelope, EnvelopeView};
use crate::topic::TopicName;
use vstd::prelude::*;

verus! {

/// `libp2p::multiaddr::Error`, which is carried and never read.
#[verifier::external_type_specification]
#[verifier::external_body]
pub struct ExMultiaddrError(libp2p::multiaddr::Error);

/// The views of a sequence of strings.
pub open spec fn texts(strings: Seq<String>) -> Seq<Seq<char>> {
    strings.map_values(|s: String| s@)
}

/// Whether a text is a transport address of the multi-segment form.
pub uninterp spec fn is_multiaddr(text: Seq<char>) -> bool;

/// The peer identifier, in base 58, that a transport address ends with, or
/// `None` where the text is no transport address or ends with another
/// segment.
pub uninterp spec fn multiaddr_peer_id(text: Seq<char>) -> Option<Seq<char>>;

/// Calls `<libp2p::Multiaddr as FromStr>::from_str`.
#[verifier::external_body]
pub(crate) fn parse_multiaddr(text: &str) -> (r: Result<(), libp2p::multiaddr::Error>)
    ensures
        r.is_ok() == is_multiaddr(text@),
{
    match text.parse::<libp2p::Multiaddr>() {
        Ok(_) => Ok(()),
        Err(e) => Err(e),
    }
}

/// Calls `<libp2p::Multiaddr as FromStr>::from_str`, `Multiaddr::iter` for
/// the last segment and, where that is a `/p2p` segment, `PeerId::to_base58`
/// on the peer it holds.
#[verifier::external_body]
pub(crate) fn trailing_peer_id(text: &str) -> (peer: Option<String>)
    ensures
        match peer {
            Some(p) => multiaddr_peer_id(text@) == Some(p@),
            None => multiaddr_peer_id(text@) is None,
        },
{
    match text.parse::<libp2p::Multiaddr>() {
        Ok(address) => match address.iter().last() {
            Some(libp2p::multiaddr::Protocol::P2p(peer)) => Some(peer.to_base58()),
            _ => None,
        },
        Err(_) => None,
    }
}

/// Whom to dial: a peer identifier, transport addresses, or both.
#[derive(Debug, Clone, PartialEq, Eq)]
pub struct DialOpts {
    pub peer_id: Option<String>,
    pub addresses: Vec<String>,
}

/// A dial target as a mathematical value.
pub struct DialOptsView {
    pub peer_id: Option<Seq<char>>,
    pub addresses: Seq<Seq<char>>,
}

impl View for DialOpts {
    type V = DialOptsView;

    open spec fn view(&self) -> DialOptsView {
        DialOptsView {
            peer_id: match self.peer_id {
                Some(p) => Some(p@),
                None => None,
            },
            addresses: texts(self.addresses@),
        }
    }
}

/// The peer that a dial target names: the one it states or else the one that
/// its first address ends with.
pub open spec fn dial_peer(target: DialOptsView) -> Option<Seq<char>> {
    match target.peer_id {
        Some(p) => Some(p),
        None => if target.addresses.len() > 0 {
            multiaddr_peer_id(target.addresses[0])
        } else {
            None
        },
    }
}

impl DialOpts {
    /// A target known by its transport address.
    pub fn from_address(address: String) -> (target: DialOpts)
        ensures
            target@ == (DialOptsView { peer_id: None, addresses: seq![address@] }),
    {
        let mut addresses: Vec<String> = Vec::new();
        addresses.push(address);
        assert(texts(addresses@) =~= seq![address@]);
        DialOpts { peer_id: None, addresses }
    }

    /// A target known by its peer identifier, to be dialled at the addresses
    /// that discovery has for it.
    pub fn from_peer_id(peer_id: String) -> (target: DialOpts)
        ensures
            target@ == (DialOptsView { peer_id: Some(peer_id@), addresses: Seq::empty() }),
    {
        let addresses: Vec<String> = Vec::new();
        assert(texts(addresses@) =~= Seq::<Seq<char>>::empty());
        DialOpts { peer_id: Some(peer_id), addresses }
    }

    /// The peer that this target names.
    pub fn get_peer_id(&self) -> (peer: Option<String>)
        ensures
            match peer {
                Some(p) => dial_peer(self@) == Some(p@),
                None => dial_peer(self@) is None,
            },
    {
        match &self.peer_id {
            Some(p) => Some(p.clone()),
            None => {
                if self.addresses.len() > 0 {
                    trailing_peer_id(self.addresses[0].as_str())
                } else {
                    None
                }
            },
        }
    }
}

/// An intent, made by a public operation and consumed once by the reactor.
#[derive(Debug, Clone, PartialEq, Eq)]
pub enum BlinkCommand {
    /// Ask discovery for the peers nearest to a peer identifier.
    FindNearest(String),
    Dial(DialOpts),
    Subscribe(String),
    PublishToTopic(TopicName, Envelope),
}

/// A command as a mathematical value.
pub enum CommandView {
    FindNearest(Seq<char>),
    Dial(DialOptsView),
    Subscribe(Seq<char>),
    PublishToTopic(Seq<char>, EnvelopeView),
}

impl View for BlinkCommand {
    type V = CommandView;

    open spec fn view(&self) -> CommandView {
        match *self {
            BlinkCommand::FindNearest(peer) => CommandView::FindNearest(peer@),
            BlinkCommand::Dial(target) => CommandView::Dial(target@),
            BlinkCommand::Subscribe(topic) => CommandView::Subscribe(topic@),
            BlinkCommand::PublishToTopic(topic, envelope) => CommandView::PublishToTopic(
                topic@,
                envelope@,
            ),
        }
    }
}

} // verus!
