//! The collaborators of the engine, as capabilities that its user supplies:
//! the identity directory, the cache and the event sink. Beside them stand
//! plain implementations: a directory that knows everybody or nobody, a cache
//! of texts, and a sink that keeps one line for each event.

use crate::command::texts;
use crate::event::{Event, EventBus, EventView};
use crate::reactor::{Outcome, OutcomeView};
use vstd::prelude::*;
use vstd::utf8::{decode_utf8, valid_utf8};

verus! {

/// The categories under which the cache keeps data.
#[derive(Clone, Copy, Debug, PartialEq, Eq, Structural)]
pub enum DataType {
    Messaging,
}

/// What a collaborator may answer in place of a result.
#[derive(Clone, Copy, Debug, PartialEq, Eq, Structural)]
pub enum CollaboratorError {
    /// The identity directory does not know the DID.
    IdentityDoesntExist,
    /// The data cannot be kept as it is.
    InvalidDataType,
    /// Anything else.
    Any,
}

/// The name of an error.
pub open spec fn error_name(error: CollaboratorError) -> Seq<char> {
    match error {
        CollaboratorError::IdentityDoesntExist => "IdentityDoesntExist"@,
        CollaboratorError::InvalidDataType => "InvalidDataType"@,
        CollaboratorError::Any => "Any"@,
    }
}

impl CollaboratorError {
    /// The name of this error.
    pub fn enum_to_string(&self) -> (name: String)
        ensures
            name@ == error_name(*self),
    {
        match self {
            CollaboratorError::IdentityDoesntExist => String::from_str("IdentityDoesntExist"),
            CollaboratorError::InvalidDataType => String::from_str("InvalidDataType"),
            CollaboratorError::Any => String::from_str("Any"),
        }
    }
}

/// What a collaborator's answer is to the reactor.
pub open spec fn outcome_of(result: Result<(), CollaboratorError>) -> OutcomeView {
    match result {
        Ok(_) => OutcomeView::Done,
        Err(error) => OutcomeView::Failed(error_name(error)),
    }
}

/// Turns a collaborator's answer into the outcome that the reactor goes on
/// with.
pub fn to_outcome(result: Result<(), CollaboratorError>) -> (outcome: Outcome)
    ensures
        outcome@ == outcome_of(result),
{
    match result {
        Ok(_) => Outcome::Done,
        Err(error) => Outcome::Failed(error.enum_to_string()),
    }
}

/// The identity directory: it tells whether a DID, given in its text form,
/// belongs to a known identity.
pub trait MultiPass {
    fn get_identity(&self, did: &String) -> Result<(), CollaboratorError>;
}

/// The cache: it keeps delivered payloads.
pub trait PocketDimension {
    fn add_data(&mut self, dimension: DataType, data: &Vec<u8>) -> Result<(), CollaboratorError>;
}

/// An identity directory that knows every DID, or none.
#[derive(Clone, Copy, Debug, PartialEq, Eq, Structural)]
pub struct MultiPassImpl {
    pub pass_as_valid: bool,
}

impl MultiPassImpl {
    /// A directory that knows every DID where `pass_as_valid` holds, and none
    /// where it does not.
    pub fn new(pass_as_valid: bool) -> (directory: MultiPassImpl)
        ensures
            directory.pass_as_valid == pass_as_valid,
    {
        MultiPassImpl { pass_as_valid }
    }
}

impl Default for MultiPassImpl {
    /// The directory that knows every DID.
    fn default() -> (directory: MultiPassImpl)
        ensures
            directory.pass_as_valid,
    {
        MultiPassImpl { pass_as_valid: true }
    }
}

impl MultiPass for MultiPassImpl {
    fn get_identity(&self, did: &String) -> (r: Result<(), CollaboratorError>)
        ensures
            r == (if self.pass_as_valid {
                Ok::<(), CollaboratorError>(())
            } else {
                Err::<(), CollaboratorError>(CollaboratorError::IdentityDoesntExist)
            }),
    {
        if self.pass_as_valid {
            Ok(())
        } else {
            Err(CollaboratorError::IdentityDoesntExist)
        }
    }
}

/// Calls `String::from_utf8` on a copy of the bytes, which succeeds exactly on
/// valid UTF-8 and gives the text that the bytes encode.
#[verifier::external_body]
fn utf8_text(bytes: &Vec<u8>) -> (text: Option<String>)
    ensures
        text.is_some() == valid_utf8(bytes@),
        text matches Some(t) ==> t@ == decode_utf8(bytes@),
{
    match String::from_utf8(bytes.clone()) {
        Ok(t) => Some(t),
        Err(_) => None,
    }
}

/// A cache of texts: it keeps every payload that is valid UTF-8, in the order
/// of arrival, and refuses any other.
#[derive(Default)]
pub struct PocketDimensionImpl {
    pub texts: Vec<String>,
}

impl View for PocketDimensionImpl {
    type V = Seq<Seq<char>>;

    open spec fn view(&self) -> Seq<Seq<char>> {
        texts(self.texts@)
    }
}

impl PocketDimension for PocketDimensionImpl {
    fn add_data(&mut self, dimension: DataType, data: &Vec<u8>) -> (r: Result<(), CollaboratorError>)
        ensures
            r.is_ok() == valid_utf8(data@),
            r matches Err(e) ==> e == CollaboratorError::InvalidDataType,
            final(self)@ == (if valid_utf8(data@) {
                old(self)@.push(decode_utf8(data@))
            } else {
                old(self)@
            }),
    {
        match utf8_text(data) {
            Some(text) => {
                self.texts.push(text);
                assert(texts(self.texts@) =~= texts(old(self).texts@).push(decode_utf8(data@)));
                Ok(())
            },
            None => Err(CollaboratorError::InvalidDataType),
        }
    }
}

/// The line that stands for an event.
pub open spec fn event_line(event: EventView) -> Seq<char> {
    match event {
        EventView::DialSuccessful(peer) => "Event: Successfully dialed "@ + peer,
        EventView::DialError(error) => "Event: Error dialing "@ + error,
        EventView::ConvertKeyError => "Event: Converting key error"@,
        EventView::SubscriptionError(error) => "Event: Subscription error "@ + error,
        EventView::NewListenAddr(address) => "Event: NewListenAddr "@ + address,
        EventView::ErrorAddingToCache(error) => "Event: Error adding to cache "@ + error,
        EventView::ErrorDeserializingData => "Event: Error deserializing data"@,
        EventView::ErrorSerializingData => "Event: Error serializing data"@,
        EventView::ErrorPublishingData(error) => "Event: Error publishing data "@ + error,
        EventView::GeneratedTopic(_, _) => "Event: Generated topic"@,
        EventView::SubscribedToTopic(topic) => "Event: Subscribed to topic "@ + topic,
        EventView::FailureToIdentifyPeer => "Event: Failure to identify peer"@,
        EventView::PeerIdentified => "Event: Peer identified"@,
        EventView::FailedToSendMessage => "Event: Failure to send message"@,
        EventView::FailureToDisconnectPeer => "Event: Failure to disconnect from peer"@,
        EventView::PeerConnectionClosed(peer) => "Event: Peer connection closed "@ + peer,
        EventView::ConnectionEstablished(peer) => "Event: Connection established "@ + peer,
        EventView::TaskCancelled => "Event: Task cancelled"@,
        EventView::CouldntFindTopicForDid => "Event: Couldn't find topic for did"@,
    }
}

/// An event sink that keeps one line for each event, in the order of
/// arrival.
#[derive(Default)]
pub struct EventHandlerImpl {
    pub lines: Vec<String>,
}

impl View for EventHandlerImpl {
    type V = Seq<Seq<char>>;

    open spec fn view(&self) -> Seq<Seq<char>> {
        texts(self.lines@)
    }
}

impl EventHandlerImpl {
    /// The line that stands for an event.
    pub fn line(event: &Event) -> (line: String)
        ensures
            line@ == event_line(event@),
    {
        match event {
            Event::DialSuccessful(x) => String::from_str("Event: Successfully dialed ").concat(
                x.as_str(),
            ),
            Event::DialError(x) => String::from_str("Event: Error dialing ").concat(x.as_str()),
            Event::ConvertKeyError => String::from_str("Event: Converting key error"),
            Event::SubscriptionError(x) => String::from_str("Event: Subscription error ").concat(
                x.as_str(),
            ),
            Event::NewListenAddr(x) => String::from_str("Event: NewListenAddr ").concat(
                x.as_str(),
            ),
            Event::ErrorAddingToCache(x) => String::from_str(
                "Event: Error adding to cache ",
            ).concat(x.as_str()),
            Event::ErrorDeserializingData => String::from_str("Event: Error deserializing data"),
            Event::ErrorSerializingData => String::from_str("Event: Error serializing data"),
            Event::ErrorPublishingData(x) => String::from_str(
                "Event: Error publishing data ",
            ).concat(x.as_str()),
            Event::GeneratedTopic(_, _) => String::from_str("Event: Generated topic"),
            Event::SubscribedToTopic(x) => String::from_str("Event: Subscribed to topic ").concat(
                x.as_str(),
            ),
            Event::FailureToIdentifyPeer => String::from_str("Event: Failure to identify peer"),
            Event::PeerIdentified => String::from_str("Event: Peer identified"),
            Event::FailedToSendMessage => String::from_str("Event: Failure to send message"),
            Event::FailureToDisconnectPeer => String::from_str(
                "Event: Failure to disconnect from peer",
            ),
            Event::PeerConnectionClosed(x) => String::from_str(
                "Event: Peer connection closed ",
            ).concat(x.as_str()),
            Event::ConnectionEstablished(x) => String::from_str(
                "Event: Connection established ",
            ).concat(x.as_str()),
            Event::TaskCancelled => String::from_str("Event: Task cancelled"),
            Event::CouldntFindTopicForDid => String::from_str(
                "Event: Couldn't find topic for did",
            ),
        }
    }
}

impl EventBus for EventHandlerImpl {
    fn event_occurred(&mut self, event: Event)
        ensures
            final(self)@ == old(self)@.push(event_line(event@)),
    {
        let line = Self::line(&event);
        self.lines.push(line);
        assert(texts(self.lines@) =~= texts(old(self).lines@).push(event_line(event@)));
    }
}

} // verus!
