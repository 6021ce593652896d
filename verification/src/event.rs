//! Events: what the engine reports to the event sink. They are for
//! observation only; the engine never reads one back.

use vstd::prelude::*;

verus! {

/// An observable occurrence.
#[derive(Debug, Clone, PartialEq, Eq)]
pub enum Event {
    /// A dial was started; holds the peer identifier, empty where the target
    /// named none.
    DialSuccessful(String),
    DialError(String),
    ConvertKeyError,
    SubscriptionError(String),
    NewListenAddr(String),
    ErrorAddingToCache(String),
    ErrorDeserializingData,
    ErrorSerializingData,
    ErrorPublishingData(String),
    /// A peer was validated; holds its DID and the pairwise topic.
    GeneratedTopic(String, String),
    SubscribedToTopic(String),
    FailureToIdentifyPeer,
    PeerIdentified,
    FailedToSendMessage,
    FailureToDisconnectPeer,
    PeerConnectionClosed(String),
    ConnectionEstablished(String),
    TaskCancelled,
    CouldntFindTopicForDid,
}

/// An event as a mathematical value.
pub enum EventView {
    DialSuccessful(Seq<char>),
    DialError(Seq<char>),
    ConvertKeyError,
    SubscriptionError(Seq<char>),
    NewListenAddr(Seq<char>),
    ErrorAddingToCache(Seq<char>),
    ErrorDeserializingData,
    ErrorSerializingData,
    ErrorPublishingData(Seq<char>),
    GeneratedTopic(Seq<char>, Seq<char>),
    SubscribedToTopic(Seq<char>),
    FailureToIdentifyPeer,
    PeerIdentified,
    FailedToSendMessage,
    FailureToDisconnectPeer,
    PeerConnectionClosed(Seq<char>),
    ConnectionEstablished(Seq<char>),
    TaskCancelled,
    CouldntFindTopicForDid,
}

impl View for Event {
    type V = EventView;

    open spec fn view(&self) -> EventView {
        match *self {
            Event::DialSuccessful(peer) => EventView::DialSuccessful(peer@),
            Event::DialError(error) => EventView::DialError(error@),
            Event::ConvertKeyError => EventView::ConvertKeyError,
            Event::SubscriptionError(error) => EventView::SubscriptionError(error@),
            Event::NewListenAddr(address) => EventView::NewListenAddr(address@),
            Event::ErrorAddingToCache(error) => EventView::ErrorAddingToCache(error@),
            Event::ErrorDeserializingData => EventView::ErrorDeserializingData,
            Event::ErrorSerializingData => EventView::ErrorSerializingData,
            Event::ErrorPublishingData(error) => EventView::ErrorPublishingData(error@),
            Event::GeneratedTopic(did, topic) => EventView::GeneratedTopic(did@, topic@),
            Event::SubscribedToTopic(topic) => EventView::SubscribedToTopic(topic@),
            Event::FailureToIdentifyPeer => EventView::FailureToIdentifyPeer,
            Event::PeerIdentified => EventView::PeerIdentified,
            Event::FailedToSendMessage => EventView::FailedToSendMessage,
            Event::FailureToDisconnectPeer => EventView::FailureToDisconnectPeer,
            Event::PeerConnectionClosed(peer) => EventView::PeerConnectionClosed(peer@),
            Event::ConnectionEstablished(peer) => EventView::ConnectionEstablished(peer@),
            Event::TaskCancelled => EventView::TaskCancelled,
            Event::CouldntFindTopicForDid => EventView::CouldntFindTopicForDid,
        }
    }
}

/// Whether an event reports a failure, as opposed to progress.
pub open spec fn reports_failure(event: EventView) -> bool {
    match event {
        EventView::DialSuccessful(_) => false,
        EventView::NewListenAddr(_) => false,
        EventView::GeneratedTopic(_, _) => false,
        EventView::SubscribedToTopic(_) => false,
        EventView::PeerIdentified => false,
        EventView::PeerConnectionClosed(_) => false,
        EventView::ConnectionEstablished(_) => false,
        EventView::TaskCancelled => false,
        _ => true,
    }
}

impl Event {
    /// Whether this event reports a failure, as opposed to progress.
    pub fn is_error(&self) -> (b: bool)
        ensures
            b == reports_failure(self@),
    {
        match self {
            Event::DialSuccessful(_) => false,
            Event::NewListenAddr(_) => false,
            Event::GeneratedTopic(_, _) => false,
            Event::SubscribedToTopic(_) => false,
            Event::PeerIdentified => false,
            Event::PeerConnectionClosed(_) => false,
            Event::ConnectionEstablished(_) => false,
            Event::TaskCancelled => false,
            _ => true,
        }
    }
}

/// The sink that events are handed to. It is called inline by whoever drives
/// the engine, so it must return quickly.
pub trait EventBus {
    fn event_occurred(&mut self, event: Event);
}

} // verus!
