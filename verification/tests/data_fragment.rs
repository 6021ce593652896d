use blink::conflux::Conflux;
use blink::data_fragment::errors::{FragmentErrorData, FragmentErrors};
use blink::data_fragment::traits::{Fragment, FragmentAccessor, FragmentError, LiveFragment};
use blink::data_fragment::{DataFragment, UNINITIALIZED};

fn s(text: &str) -> String {
    text.to_string()
}

#[test]
fn expect_default() {
    let mut fragment = DataFragment::new(s("cid-of-default"));
    assert_eq!(fragment.v, -1);
    assert_eq!(fragment.v, UNINITIALIZED);
    assert_eq!(fragment.timestamp, 0);
    assert_eq!(fragment.data, "");
    assert!(!fragment.stream);
    fragment.set(Some(s("Inital data")), s("cid-of-data"));
    assert_eq!(fragment.v, 0);
    assert_eq!(fragment.data, "Inital data");
    assert_eq!(fragment.cid, "cid-of-data");
}

#[test]
fn expect_cid_remains_unchanged() {
    let mut fragment = DataFragment::from_data(s("Inital data"), s("cid-1"), 5);
    assert_eq!(fragment.v, 0);
    assert_eq!(fragment.timestamp, 5);
    fragment.set(Some(s("Hello, world!")), s("cid-2"));
    assert_eq!(fragment.cid, "cid-1");
    assert_eq!(fragment.v, 1);
    assert_eq!(fragment.data, "Hello, world!");
}

#[test]
fn expect_timestamp_incrementing() {
    let mut fragment = DataFragment::from_data(s("Inital data"), s("cid-1"), 5);
    fragment.set_at(Some(s("Hello, world!")), s("cid-2"), 6);
    assert_eq!(fragment.timestamp, 6);
    fragment.set(None, s("cid-3"));
    assert!(fragment.timestamp > 6);
    assert_eq!(fragment.data, "");
    assert_eq!(fragment.v, 2);
}

#[test]
fn expect_static_data_dead() {
    let mut fragment = DataFragment::from_data(s("Inital data"), s("cid-1"), 5);
    assert!(!fragment.alive);
    assert!(!fragment.is_alive());
}

#[test]
fn expect_stream_alive() {
    let mut fragment = DataFragment::from_data(s("Inital data"), s("cid-1"), 5);
    fragment.wake();
    assert!(fragment.alive);
    assert!(fragment.is_alive());
    assert!(fragment.timestamp > 5);
    fragment.kill();
    assert!(!fragment.is_alive());
    assert_eq!(fragment.v, 0);
    assert_eq!(fragment.data, "Inital data");
}

#[test]
fn stream_is_marked_at_the_given_time() {
    let mut fragment = DataFragment::from_data(s("data"), s("cid-1"), 5);
    fragment.set_alive_at(true, 9);
    assert!(fragment.alive);
    assert_eq!(fragment.timestamp, 9);
    fragment.set_alive_at(false, 10);
    assert!(!fragment.alive);
    assert_eq!(fragment.timestamp, 10);
}

#[test]
fn upkeep_touches_one_field() {
    let mut fragment = DataFragment::from_data(s("data"), s("cid-1"), 5);
    fragment._build_cid(s("cid-9"));
    assert_eq!(fragment.cid, "cid-9");
    assert_eq!(fragment.timestamp, 5);
    fragment._update_timestamp();
    assert!(fragment.timestamp > 5);
    assert_eq!(fragment.cid, "cid-9");
    assert_eq!(fragment.get().data, "data");
}

#[test]
fn kinds_of_error_know_their_severity() {
    assert!(!FragmentErrors::Generic.is_fatal());
    assert!(FragmentErrors::Collision.is_fatal());
    assert_eq!(FragmentErrors::Generic.to_text(), "Generic");
    assert_eq!(FragmentErrors::Collision.to_text(), "Collision");
    let generic = FragmentErrors::Generic.get();
    assert_eq!(generic.e, Some(FragmentErrors::Generic));
    assert!(!generic.fatal);
    let collision = FragmentErrors::Collision.get();
    assert_eq!(collision.e, Some(FragmentErrors::Generic));
    assert!(collision.fatal);
}

#[test]
fn error_data_answers_for_itself() {
    let data = FragmentErrorData {
        e: Some(FragmentErrors::Collision),
        fatal: true,
    };
    assert!(data.is_fatal());
    let same = data.get();
    assert_eq!(same.e, Some(FragmentErrors::Collision));
    assert!(same.fatal);
    let from = FragmentErrorData::from(FragmentErrors::Collision);
    assert_eq!(from.e, Some(FragmentErrors::Collision));
    assert!(!from.fatal);
    let default = FragmentErrorData::default();
    assert_eq!(default.e, Some(FragmentErrors::Generic));
    assert!(!default.fatal);
}

#[test]
fn conflux_refuses_a_second_fragment_with_the_same_cid() {
    let mut conflux = Conflux::new();
    assert_eq!(conflux.len(), 0);
    assert!(conflux
        .add_fragment(DataFragment::from_data(s("one"), s("cid-1"), 1))
        .is_ok());
    assert!(conflux
        .add_fragment(DataFragment::from_data(s("two"), s("cid-2"), 2))
        .is_ok());
    assert_eq!(conflux.len(), 2);
    let collision = conflux
        .add_fragment(DataFragment::from_data(s("other"), s("cid-1"), 3))
        .err()
        .unwrap();
    assert_eq!(collision.e, Some(FragmentErrors::Collision));
    assert!(!collision.fatal);
    assert_eq!(conflux.len(), 2);
    assert!(conflux
        .check_collision(&DataFragment::from_data(s("x"), s("cid-2"), 4))
        .is_err());
    assert!(conflux
        .check_collision(&DataFragment::from_data(s("x"), s("cid-3"), 4))
        .is_ok());
}

#[test]
fn closing_a_stream_kills_it() {
    let mut fragment = DataFragment::from_data(s("data"), s("cid-1"), 5);
    fragment.wake();
    let mut closed = Conflux::close_stream(fragment);
    assert!(!closed.is_alive());
    assert_eq!(closed.data, "data");
}

#[test]
fn waking_and_killing_hand_the_fragment_on() {
    let mut fragment = DataFragment::from_data(s("data"), s("cid-1"), 5);
    assert!(fragment.wake().is_alive());
    assert!(!fragment.wake().kill().is_alive());
    assert!(fragment.kill().wake().alive);
    assert_eq!(fragment.wake().data, "data");
}

#[test]
fn timestamp_is_noted_at_the_given_time() {
    let mut fragment = DataFragment::from_data(s("data"), s("cid-1"), 5);
    fragment.wake();
    fragment.update_timestamp_at(77);
    assert_eq!(fragment.timestamp, 77);
    assert_eq!(fragment.v, 0);
    assert_eq!(fragment.cid, "cid-1");
    assert_eq!(fragment.data, "data");
    assert!(fragment.alive);
    fragment.update_timestamp_at(-3);
    assert_eq!(fragment.timestamp, -3);
}
