use blink::directory::PeerTopicDirectory;

fn s(text: &str) -> String {
    text.to_string()
}

#[test]
fn new_directory_is_empty() {
    let directory = PeerTopicDirectory::new();
    assert_eq!(directory.len(), 0);
    assert_eq!(directory.get(&s("did:key:a")), None);
    assert!(!directory.contains(&s("did:key:a")));
}

#[test]
fn entry_is_found_after_it_was_written() {
    let mut directory = PeerTopicDirectory::new();
    let kept = directory.insert(s("did:key:a"), s("topic-a"));
    assert_eq!(kept, "topic-a");
    assert_eq!(directory.get(&s("did:key:a")), Some(s("topic-a")));
    assert!(directory.contains(&s("did:key:a")));
    assert_eq!(directory.get(&s("did:key:b")), None);
    assert_eq!(directory.len(), 1);
}

#[test]
fn entry_is_written_once() {
    let mut directory = PeerTopicDirectory::new();
    directory.insert(s("did:key:a"), s("first"));
    let kept = directory.insert(s("did:key:a"), s("second"));
    assert_eq!(kept, "first");
    assert_eq!(directory.get(&s("did:key:a")), Some(s("first")));
    assert_eq!(directory.len(), 1);
}

#[test]
fn entries_of_other_peers_do_not_disturb() {
    let mut directory = PeerTopicDirectory::new();
    directory.insert(s("did:key:a"), s("topic-a"));
    directory.insert(s("did:key:b"), s("topic-b"));
    directory.insert(s("did:key:c"), s("topic-c"));
    assert_eq!(directory.get(&s("did:key:a")), Some(s("topic-a")));
    assert_eq!(directory.get(&s("did:key:b")), Some(s("topic-b")));
    assert_eq!(directory.get(&s("did:key:c")), Some(s("topic-c")));
    assert_eq!(directory.len(), 3);
}

#[test]
fn same_topic_may_serve_two_peers() {
    let mut directory = PeerTopicDirectory::new();
    directory.insert(s("did:key:a"), s("shared"));
    directory.insert(s("did:key:b"), s("shared"));
    assert_eq!(directory.len(), 2);
    assert_eq!(directory.get(&s("did:key:b")), Some(s("shared")));
}

#[test]
fn empty_did_is_a_key_like_any_other() {
    let mut directory = PeerTopicDirectory::new();
    assert_eq!(directory.get(&s("")), None);
    directory.insert(s(""), s("topic"));
    assert_eq!(directory.get(&s("")), Some(s("topic")));
}
