use blink::console::{interpret, read_line, split_words, ConsoleCommand, ConsoleError};
use blink::reactor::{VerificationInput, VerificationState, Waiting};

fn s(text: &str) -> String {
    text.to_string()
}

fn words(texts: &[&str]) -> Vec<String> {
    texts.iter().map(|text| text.to_string()).collect()
}

#[test]
fn line_is_parted_at_separators() {
    assert_eq!(split_words("pair /ip4/1.2.3.4/tcp/5\n"), words(&["pair", "/ip4/1.2.3.4/tcp/5"]));
    assert_eq!(split_words("  send   a  b\tc\r\n"), words(&["send", "a", "b", "c"]));
    assert_eq!(split_words("quit"), words(&["quit"]));
    assert_eq!(split_words("h\u{e9}llo w\u{f6}rld"), words(&["h\u{e9}llo", "w\u{f6}rld"]));
}

#[test]
fn line_without_words_is_empty() {
    assert_eq!(split_words(""), Vec::<String>::new());
    assert_eq!(split_words("\n"), Vec::<String>::new());
    assert_eq!(split_words("  \t \r\n"), Vec::<String>::new());
}

#[test]
fn pair_takes_one_address() {
    assert_eq!(
        interpret(&words(&["pair", "/ip4/127.0.0.1/tcp/4001"])),
        Ok(ConsoleCommand::Pair(s("/ip4/127.0.0.1/tcp/4001")))
    );
    assert_eq!(interpret(&words(&["pair"])), Err(ConsoleError::PairUsage));
    assert_eq!(
        interpret(&words(&["pair", "/ip4/127.0.0.1/tcp/4001", "more"])),
        Err(ConsoleError::PairUsage)
    );
    assert_eq!(
        interpret(&words(&["pair", "nowhere"])),
        Err(ConsoleError::AddressUnparsable)
    );
}

#[test]
fn send_takes_recipients_and_a_message() {
    assert_eq!(
        interpret(&words(&["send", "did:key:a", "Test"])),
        Ok(ConsoleCommand::Send {
            recipients: words(&["did:key:a"]),
            message: s("Test"),
        })
    );
    assert_eq!(
        interpret(&words(&["send", "did:key:a", "did:key:b", "did:key:c", "hello"])),
        Ok(ConsoleCommand::Send {
            recipients: words(&["did:key:a", "did:key:b", "did:key:c"]),
            message: s("hello"),
        })
    );
    assert_eq!(interpret(&words(&["send"])), Err(ConsoleError::SendUsage));
    assert_eq!(
        interpret(&words(&["send", "did:key:a"])),
        Err(ConsoleError::SendUsage)
    );
}

#[test]
fn quit_and_the_rest() {
    assert_eq!(interpret(&words(&["quit"])), Ok(ConsoleCommand::Quit));
    assert_eq!(interpret(&words(&["quit", "now"])), Ok(ConsoleCommand::Quit));
    assert_eq!(interpret(&Vec::new()), Err(ConsoleError::Empty));
    assert_eq!(
        interpret(&words(&["dance"])),
        Err(ConsoleError::InvalidCommand)
    );
    assert_eq!(
        interpret(&words(&["Pair", "/ip4/127.0.0.1/tcp/4001"])),
        Err(ConsoleError::InvalidCommand)
    );
}

#[test]
fn line_is_read_as_a_whole() {
    assert_eq!(
        read_line("send did:key:a did:key:b Test\n"),
        Ok(ConsoleCommand::Send {
            recipients: words(&["did:key:a", "did:key:b"]),
            message: s("Test"),
        })
    );
    assert_eq!(
        read_line("pair /ip4/127.0.0.1/tcp/4001\n"),
        Ok(ConsoleCommand::Pair(s("/ip4/127.0.0.1/tcp/4001")))
    );
    assert_eq!(read_line("quit\n"), Ok(ConsoleCommand::Quit));
    assert_eq!(read_line("\n"), Err(ConsoleError::Empty));
    assert_eq!(read_line("what\n"), Err(ConsoleError::InvalidCommand));
}

#[test]
fn verification_goes_from_connected_to_a_verdict() {
    let connected = VerificationState::Connected;
    let received = connected.advance(VerificationInput::IdentityReceived);
    assert_eq!(received, Some(VerificationState::IdentityReceived));
    assert_eq!(
        VerificationState::IdentityReceived.advance(VerificationInput::DirectoryConfirmed),
        Some(VerificationState::Validated)
    );
    assert_eq!(
        VerificationState::IdentityReceived.advance(VerificationInput::DirectoryRefused),
        Some(VerificationState::Rejected)
    );
    assert_eq!(connected.advance(VerificationInput::DirectoryConfirmed), None);
    assert_eq!(connected.advance(VerificationInput::DirectoryRefused), None);
    assert_eq!(
        VerificationState::Validated.advance(VerificationInput::IdentityReceived),
        None
    );
    assert_eq!(
        VerificationState::Rejected.advance(VerificationInput::DirectoryConfirmed),
        None
    );
}

#[test]
fn closed_connection_ends_the_verification() {
    for state in [
        VerificationState::Connected,
        VerificationState::IdentityReceived,
        VerificationState::Validated,
        VerificationState::Rejected,
    ] {
        assert_eq!(
            state.advance(VerificationInput::ConnectionClosed),
            Some(VerificationState::Disconnected)
        );
        assert!(!state.is_terminal());
    }
    assert!(VerificationState::Disconnected.is_terminal());
    for input in [
        VerificationInput::IdentityReceived,
        VerificationInput::DirectoryConfirmed,
        VerificationInput::DirectoryRefused,
        VerificationInput::ConnectionClosed,
    ] {
        assert_eq!(VerificationState::Disconnected.advance(input), None);
    }
}

#[test]
fn waiting_names_the_state_of_the_verification() {
    assert_eq!(
        Waiting::PairSubscribe {
            did: s("d"),
            topic: s("t")
        }
        .verification_state(),
        Some(VerificationState::Validated)
    );
    assert_eq!(
        Waiting::Disconnect.verification_state(),
        Some(VerificationState::Rejected)
    );
    assert_eq!(Waiting::Publish.verification_state(), None);
    assert_eq!(Waiting::Delivery.verification_state(), None);
}
