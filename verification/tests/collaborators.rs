use blink::collaborators::{
    to_outcome, CollaboratorError, DataType, EventHandlerImpl, MultiPass, MultiPassImpl,
    PocketDimension, PocketDimensionImpl,
};
use blink::event::{Event, EventBus};
use blink::reactor::Outcome;

fn s(text: &str) -> String {
    text.to_string()
}

#[test]
fn identity_directory_knows_everybody_or_nobody() {
    let knows = MultiPassImpl::new(true);
    assert!(knows.pass_as_valid);
    assert_eq!(knows.get_identity(&s("did:key:a")), Ok(()));
    let knows_nobody = MultiPassImpl::new(false);
    assert!(!knows_nobody.pass_as_valid);
    assert_eq!(
        knows_nobody.get_identity(&s("did:key:a")),
        Err(CollaboratorError::IdentityDoesntExist)
    );
    assert_eq!(MultiPassImpl::default(), MultiPassImpl::new(true));
}

#[test]
fn errors_have_names() {
    assert_eq!(
        CollaboratorError::IdentityDoesntExist.enum_to_string(),
        "IdentityDoesntExist"
    );
    assert_eq!(
        CollaboratorError::InvalidDataType.enum_to_string(),
        "InvalidDataType"
    );
    assert_eq!(CollaboratorError::Any.enum_to_string(), "Any");
}

#[test]
fn answers_become_outcomes() {
    assert_eq!(to_outcome(Ok(())), Outcome::Done);
    assert_eq!(
        to_outcome(Err(CollaboratorError::IdentityDoesntExist)),
        Outcome::Failed(s("IdentityDoesntExist"))
    );
    assert_eq!(
        to_outcome(Err(CollaboratorError::InvalidDataType)),
        Outcome::Failed(s("InvalidDataType"))
    );
}

#[test]
fn cache_keeps_texts_in_order() {
    let mut cache = PocketDimensionImpl::default();
    assert_eq!(cache.add_data(DataType::Messaging, &b"Test".to_vec()), Ok(()));
    assert_eq!(
        cache.add_data(DataType::Messaging, &"h\u{e9}llo \u{1f600}".as_bytes().to_vec()),
        Ok(())
    );
    assert_eq!(cache.add_data(DataType::Messaging, &Vec::new()), Ok(()));
    assert_eq!(cache.texts, vec![s("Test"), s("h\u{e9}llo \u{1f600}"), s("")]);
}

#[test]
fn cache_refuses_what_is_no_text() {
    let mut cache = PocketDimensionImpl::default();
    cache.add_data(DataType::Messaging, &b"kept".to_vec()).unwrap();
    assert_eq!(
        cache.add_data(DataType::Messaging, &vec![0xff, 0xfe]),
        Err(CollaboratorError::InvalidDataType)
    );
    assert_eq!(
        cache.add_data(DataType::Messaging, &vec![0xc3]),
        Err(CollaboratorError::InvalidDataType)
    );
    assert_eq!(cache.texts, vec![s("kept")]);
}

#[test]
fn every_event_has_its_line() {
    let cases = vec![
        (Event::DialSuccessful(s("peer")), "Event: Successfully dialed peer"),
        (Event::DialError(s("why")), "Event: Error dialing why"),
        (Event::ConvertKeyError, "Event: Converting key error"),
        (Event::SubscriptionError(s("why")), "Event: Subscription error why"),
        (Event::NewListenAddr(s("/ip4/1.2.3.4/tcp/5")), "Event: NewListenAddr /ip4/1.2.3.4/tcp/5"),
        (Event::ErrorAddingToCache(s("why")), "Event: Error adding to cache why"),
        (Event::ErrorDeserializingData, "Event: Error deserializing data"),
        (Event::ErrorSerializingData, "Event: Error serializing data"),
        (Event::ErrorPublishingData(s("why")), "Event: Error publishing data why"),
        (Event::GeneratedTopic(s("did"), s("topic")), "Event: Generated topic"),
        (Event::SubscribedToTopic(s("topic")), "Event: Subscribed to topic topic"),
        (Event::FailureToIdentifyPeer, "Event: Failure to identify peer"),
        (Event::PeerIdentified, "Event: Peer identified"),
        (Event::FailedToSendMessage, "Event: Failure to send message"),
        (Event::FailureToDisconnectPeer, "Event: Failure to disconnect from peer"),
        (Event::PeerConnectionClosed(s("peer")), "Event: Peer connection closed peer"),
        (Event::ConnectionEstablished(s("peer")), "Event: Connection established peer"),
        (Event::TaskCancelled, "Event: Task cancelled"),
        (Event::CouldntFindTopicForDid, "Event: Couldn't find topic for did"),
    ];
    for (event, line) in cases {
        assert_eq!(EventHandlerImpl::line(&event), line);
    }
}

#[test]
fn sink_keeps_one_line_for_each_event() {
    let mut sink = EventHandlerImpl::default();
    sink.event_occurred(Event::PeerIdentified);
    sink.event_occurred(Event::DialError(s("no route")));
    assert_eq!(
        sink.lines,
        vec![s("Event: Peer identified"), s("Event: Error dialing no route")]
    );
}
