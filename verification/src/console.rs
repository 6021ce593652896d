//! The console of the sample program: what a line of words asks for.
//!
//! `pair` with one address dials it. `send` with one or more DIDs and, last,
//! a message sends the message to those DIDs. `quit` ends the program.

use crate::command::{is_multiaddr, parse_multiaddr, texts};
use vstd::prelude::*;

verus! {

/// What a line asks for.
#[derive(Debug, Clone, PartialEq, Eq)]
pub enum ConsoleCommand {
    /// Dial the peer at this transport address.
    Pair(String),
    /// Send the message to the recipients, given by the text forms of their
    /// DIDs.
    Send { recipients: Vec<String>, message: String },
    /// End the program.
    Quit,
}

/// What a line asks for, as a mathematical value.
pub enum ConsoleCommandView {
    Pair(Seq<char>),
    Send { recipients: Seq<Seq<char>>, message: Seq<char> },
    Quit,
}

impl View for ConsoleCommand {
    type V = ConsoleCommandView;

    open spec fn view(&self) -> ConsoleCommandView {
        match *self {
            ConsoleCommand::Pair(address) => ConsoleCommandView::Pair(address@),
            ConsoleCommand::Send { recipients, message } => ConsoleCommandView::Send {
                recipients: texts(recipients@),
                message: message@,
            },
            ConsoleCommand::Quit => ConsoleCommandView::Quit,
        }
    }
}

/// Why a line asks for nothing.
#[derive(Clone, Copy, Debug, PartialEq, Eq, Structural)]
pub enum ConsoleError {
    /// The line has no word.
    Empty,
    /// The first word is no command.
    InvalidCommand,
    /// `pair` takes one address.
    PairUsage,
    /// The word after `pair` is no transport address.
    AddressUnparsable,
    /// `send` takes at least one DID and a message.
    SendUsage,
}

/// What the words of a line ask for.
pub open spec fn interpretation(words: Seq<Seq<char>>) -> Result<
    ConsoleCommandView,
    ConsoleError,
> {
    if words.len() == 0 {
        Err(ConsoleError::Empty)
    } else if words[0] == "pair"@ {
        if words.len() != 2 {
            Err(ConsoleError::PairUsage)
        } else if !is_multiaddr(words[1]) {
            Err(ConsoleError::AddressUnparsable)
        } else {
            Ok(ConsoleCommandView::Pair(words[1]))
        }
    } else if words[0] == "send"@ {
        if words.len() < 3 {
            Err(ConsoleError::SendUsage)
        } else {
            Ok(
                ConsoleCommandView::Send {
                    recipients: words.subrange(1, words.len() - 1),
                    message: words.last(),
                },
            )
        }
    } else if words[0] == "quit"@ {
        Ok(ConsoleCommandView::Quit)
    } else {
        Err(ConsoleError::InvalidCommand)
    }
}

/// Reads what the words of a line ask for.
pub fn interpret(words: &Vec<String>) -> (r: Result<ConsoleCommand, ConsoleError>)
    ensures
        match (r, interpretation(texts(words@))) {
            (Ok(command), Ok(expected)) => command@ == expected,
            (Err(e), Err(expected)) => e == expected,
            _ => false,
        },
{
    if words.len() == 0 {
        return Err(ConsoleError::Empty);
    }
    if words[0] == String::from_str("pair") {
        if words.len() != 2 {
            Err(ConsoleError::PairUsage)
        } else if parse_multiaddr(words[1].as_str()).is_err() {
            Err(ConsoleError::AddressUnparsable)
        } else {
            Ok(ConsoleCommand::Pair(words[1].clone()))
        }
    } else if words[0] == String::from_str("send") {
        if words.len() < 3 {
            Err(ConsoleError::SendUsage)
        } else {
            let mut recipients: Vec<String> = Vec::new();
            let mut i: usize = 1;
            while i < words.len() - 1
                invariant
                    1 <= i <= words@.len() - 1,
                    recipients@.len() == i - 1,
                    forall|j: int|
                        0 <= j < i - 1 ==> (#[trigger] recipients@[j])@ == words@[j + 1]@,
                decreases words@.len() - i,
            {
                recipients.push(words[i].clone());
                i = i + 1;
            }
            assert(texts(recipients@) =~= texts(words@).subrange(1, words@.len() - 1));
            Ok(ConsoleCommand::Send { recipients, message: words[words.len() - 1].clone() })
        }
    } else if words[0] == String::from_str("quit") {
        Ok(ConsoleCommand::Quit)
    } else {
        Err(ConsoleError::InvalidCommand)
    }
}

/// Whether a character parts two words.
pub open spec fn is_separator(c: char) -> bool {
    c == ' ' || c == '\n' || c == '\r' || c == '\t'
}

/// What is read after the characters of `line`: the words that are complete,
/// and the characters of the word that is not.
pub open spec fn scanned(line: Seq<char>) -> (Seq<Seq<char>>, Seq<char>)
    decreases line.len(),
{
    if line.len() == 0 {
        (Seq::empty(), Seq::empty())
    } else {
        let before = scanned(line.drop_last());
        if is_separator(line.last()) {
            if before.1.len() > 0 {
                (before.0.push(before.1), Seq::empty())
            } else {
                before
            }
        } else {
            (before.0, before.1.push(line.last()))
        }
    }
}

/// The words of a line: its longest stretches of characters without a
/// separator, in their order.
pub open spec fn words_of(line: Seq<char>) -> Seq<Seq<char>> {
    let read = scanned(line);
    if read.1.len() > 0 {
        read.0.push(read.1)
    } else {
        read.0
    }
}

/// Whether a word is not empty and holds no separator.
pub open spec fn is_word(word: Seq<char>) -> bool {
    word.len() > 0 && forall|i: int| 0 <= i < word.len() ==> !is_separator(#[trigger] word[i])
}

/// What is read of a line is made of words: each complete one is not empty
/// and holds no separator, and the one being read holds none.
pub proof fn lemma_scanned_words(line: Seq<char>)
    ensures
        forall|k: int| 0 <= k < scanned(line).0.len() ==> is_word(#[trigger] scanned(line).0[k]),
        forall|i: int|
            0 <= i < scanned(line).1.len() ==> !is_separator(#[trigger] scanned(line).1[i]),
    decreases line.len(),
{
    if line.len() > 0 {
        lemma_scanned_words(line.drop_last());
        let before = scanned(line.drop_last());
        let after = scanned(line);
        if is_separator(line.last()) {
            if before.1.len() > 0 {
                assert(is_word(before.1));
                assert forall|k: int| 0 <= k < after.0.len() implies is_word(
                    #[trigger] after.0[k],
                ) by {
                    if k < before.0.len() {
                        assert(after.0[k] == before.0[k]);
                    } else {
                        assert(after.0[k] == before.1);
                    }
                }
            }
        } else {
            assert forall|i: int| 0 <= i < after.1.len() implies !is_separator(
                #[trigger] after.1[i],
            ) by {
                if i < before.1.len() {
                    assert(after.1[i] == before.1[i]);
                } else {
                    assert(after.1[i] == line.last());
                }
            }
        }
    }
}

/// Every word of a line is not empty and holds no separator.
pub proof fn lemma_words_are_words(line: Seq<char>)
    ensures
        forall|k: int| 0 <= k < words_of(line).len() ==> is_word(#[trigger] words_of(line)[k]),
{
    lemma_scanned_words(line);
    let read = scanned(line);
    assert forall|k: int| 0 <= k < words_of(line).len() implies is_word(
        #[trigger] words_of(line)[k],
    ) by {
        if k < read.0.len() {
            assert(words_of(line)[k] == read.0[k]);
        } else {
            assert(words_of(line)[k] == read.1);
        }
    }
}

/// Parts a line into its words.
pub fn split_words(line: &str) -> (words: Vec<String>)
    ensures
        texts(words@) == words_of(line@),
{
    let n = line.unicode_len();
    let mut words: Vec<String> = Vec::new();
    let mut start: usize = 0;
    let mut i: usize = 0;
    assert(texts(words@) =~= Seq::<Seq<char>>::empty());
    assert(line@.subrange(0, 0) =~= Seq::<char>::empty());
    while i < n
        invariant
            n == line@.len(),
            start <= i <= n,
            scanned(line@.subrange(0, i as int)) == (
                texts(words@),
                line@.subrange(start as int, i as int),
            ),
        decreases n - i,
    {
        let c = line.get_char(i);
        let ghost done = texts(words@);
        proof {
            let upto = line@.subrange(0, i + 1);
            assert(upto.drop_last() =~= line@.subrange(0, i as int));
            assert(upto.last() == c);
        }
        if c == ' ' || c == '\n' || c == '\r' || c == '\t' {
            if start < i {
                words.push(String::from_str(line.substring_char(start, i)));
                assert(texts(words@) =~= done.push(line@.subrange(start as int, i as int)));
            }
            start = i + 1;
            assert(line@.subrange(start as int, i + 1) =~= Seq::<char>::empty());
        } else {
            assert(line@.subrange(start as int, i + 1) =~= line@.subrange(
                start as int,
                i as int,
            ).push(c));
        }
        i = i + 1;
    }
    assert(line@.subrange(0, n as int) =~= line@);
    if start < n {
        let ghost done = texts(words@);
        words.push(String::from_str(line.substring_char(start, n)));
        assert(texts(words@) =~= done.push(line@.subrange(start as int, n as int)));
    }
    words
}

/// Reads what a line asks for.
pub fn read_line(line: &str) -> (r: Result<ConsoleCommand, ConsoleError>)
    ensures
        match (r, interpretation(words_of(line@))) {
            (Ok(command), Ok(expected)) => command@ == expected,
            (Err(e), Err(expected)) => e == expected,
            _ => false,
        },
{
    let words = split_words(line);
    interpret(&words)
}

} // verus!
