use blink::envelope::{Envelope, EnvelopeError};

#[test]
fn frame_without_timestamp() {
    let envelope = Envelope::new(vec![1, 2, 3], None);
    assert_eq!(
        envelope.encode().unwrap(),
        vec![3, 0, 0, 0, 0, 0, 0, 0, 1, 2, 3, 0]
    );
}

#[test]
fn frame_with_timestamp() {
    let envelope = Envelope::new(vec![0xaa, 0xbb], Some(0x0102_0304_0506_0708));
    assert_eq!(
        envelope.encode().unwrap(),
        vec![2, 0, 0, 0, 0, 0, 0, 0, 0xaa, 0xbb, 1, 8, 7, 6, 5, 4, 3, 2, 1]
    );
}

#[test]
fn frame_of_the_empty_payload() {
    assert_eq!(
        Envelope::new(Vec::new(), None).encode().unwrap(),
        vec![0, 0, 0, 0, 0, 0, 0, 0, 0]
    );
    assert_eq!(
        Envelope::new(Vec::new(), Some(u64::MAX)).encode().unwrap(),
        vec![0, 0, 0, 0, 0, 0, 0, 0, 1, 255, 255, 255, 255, 255, 255, 255, 255]
    );
}

#[test]
fn frame_of_a_long_payload_holds_its_length() {
    let payload = vec![7u8; 300];
    let bytes = Envelope::new(payload.clone(), None).encode().unwrap();
    assert_eq!(bytes.len(), 8 + 300 + 1);
    assert_eq!(&bytes[..8], &[44, 1, 0, 0, 0, 0, 0, 0]);
    assert_eq!(&bytes[8..308], payload.as_slice());
    assert_eq!(bytes[308], 0);
}

#[test]
fn frame_is_what_the_encoder_writes_for_the_pair() {
    let payload = b"Test".to_vec();
    let sent = Some(1_666_000_000_000u64);
    assert_eq!(
        Envelope::new(payload.clone(), sent).encode().unwrap(),
        bincode::serialize(&(payload, sent)).unwrap()
    );
}

#[test]
fn envelope_comes_back_from_its_frame() {
    for envelope in [
        Envelope::new(b"Test".to_vec(), Some(42)),
        Envelope::new(b"Test".to_vec(), None),
        Envelope::new(Vec::new(), Some(0)),
        Envelope::new(vec![0u8; 1000], None),
    ] {
        let bytes = envelope.encode().unwrap();
        assert_eq!(Envelope::decode(&bytes), Ok(envelope));
    }
}

#[test]
fn decode_reads_a_frame_written_by_hand() {
    let bytes = vec![1, 0, 0, 0, 0, 0, 0, 0, 9, 1, 5, 0, 0, 0, 0, 0, 0, 0];
    assert_eq!(
        Envelope::decode(&bytes),
        Ok(Envelope {
            payload: vec![9],
            timestamp: Some(5)
        })
    );
}

#[test]
fn decode_refuses_what_is_no_frame() {
    assert_eq!(Envelope::decode(&Vec::new()), Err(EnvelopeError::Deserialize));
    assert_eq!(
        Envelope::decode(&vec![1, 2, 3]),
        Err(EnvelopeError::Deserialize)
    );
    // The length says five bytes, two are there.
    assert_eq!(
        Envelope::decode(&vec![5, 0, 0, 0, 0, 0, 0, 0, 1, 2]),
        Err(EnvelopeError::Deserialize)
    );
    // The byte for the timestamp is neither 0 nor 1.
    assert_eq!(
        Envelope::decode(&vec![0, 0, 0, 0, 0, 0, 0, 0, 2]),
        Err(EnvelopeError::Deserialize)
    );
    // The timestamp is cut short.
    assert_eq!(
        Envelope::decode(&vec![0, 0, 0, 0, 0, 0, 0, 0, 1, 1, 2, 3]),
        Err(EnvelopeError::Deserialize)
    );
}

#[test]
fn decode_does_not_mind_what_follows_the_frame() {
    let mut bytes = Envelope::new(vec![1, 2], None).encode().unwrap();
    bytes.push(99);
    assert_eq!(Envelope::decode(&bytes), Ok(Envelope::new(vec![1, 2], None)));
}
