//! The peer-topic directory: for each validated peer, by the text form of its
//! DID, the pairwise topic derived for it.
//!
//! An entry is written once. A later write for the same DID leaves the first
//! topic in place, so a DID maps to one topic for as long as the directory
//! lives, and nothing ever removes an entry.

use vstd::prelude::*;

verus! {

/// One entry: the text form of a peer's DID and the topic derived for it.
pub struct DirectoryEntry {
    pub did: String,
    pub topic: String,
}

/// The map that a sequence of entries stands for: of two entries for one DID
/// the earlier one counts.
pub open spec fn entries_map(entries: Seq<DirectoryEntry>) -> Map<Seq<char>, Seq<char>>
    decreases entries.len(),
{
    if entries.len() == 0 {
        Map::empty()
    } else {
        let earlier = entries_map(entries.drop_last());
        let last = entries.last();
        if earlier.dom().contains(last.did@) {
            earlier
        } else {
            earlier.insert(last.did@, last.topic@)
        }
    }
}

/// No two entries are for the same DID.
pub open spec fn distinct_dids(entries: Seq<DirectoryEntry>) -> bool {
    forall|i: int, j: int|
        0 <= i < j < entries.len() ==> (#[trigger] entries[i]).did@ != (#[trigger] entries[j]).did@
}

/// A DID that no entry names is not in the map.
pub proof fn lemma_absent(entries: Seq<DirectoryEntry>, did: Seq<char>)
    requires
        forall|j: int| 0 <= j < entries.len() ==> (#[trigger] entries[j]).did@ != did,
    ensures
        !entries_map(entries).dom().contains(did),
    decreases entries.len(),
{
    if entries.len() > 0 {
        let earlier = entries.drop_last();
        assert forall|j: int| 0 <= j < earlier.len() implies (#[trigger] earlier[j]).did@ != did by {
            assert(earlier[j] == entries[j]);
        }
        lemma_absent(earlier, did);
        assert(entries.last() == entries[entries.len() - 1]);
    }
}

/// The first entry that names a DID gives its topic.
pub proof fn lemma_first_entry(entries: Seq<DirectoryEntry>, did: Seq<char>, i: int)
    requires
        0 <= i < entries.len(),
        entries[i].did@ == did,
        forall|j: int| 0 <= j < i ==> (#[trigger] entries[j]).did@ != did,
    ensures
        entries_map(entries).dom().contains(did),
        entries_map(entries)[did] == entries[i].topic@,
    decreases entries.len(),
{
    let earlier = entries.drop_last();
    if i == entries.len() - 1 {
        assert forall|j: int| 0 <= j < earlier.len() implies (#[trigger] earlier[j]).did@ != did by {
            assert(earlier[j] == entries[j]);
        }
        lemma_absent(earlier, did);
    } else {
        assert(earlier[i] == entries[i]);
        assert forall|j: int| 0 <= j < i implies (#[trigger] earlier[j]).did@ != did by {
            assert(earlier[j] == entries[j]);
        }
        lemma_first_entry(earlier, did, i);
    }
}

/// The directory.
pub struct PeerTopicDirectory {
    entries: Vec<DirectoryEntry>,
}

impl View for PeerTopicDirectory {
    type V = Map<Seq<char>, Seq<char>>;

    closed spec fn view(&self) -> Map<Seq<char>, Seq<char>> {
        entries_map(self.entries@)
    }
}

impl PeerTopicDirectory {
    /// No DID has two entries.
    pub closed spec fn well_formed(&self) -> bool {
        distinct_dids(self.entries@)
    }

    /// An empty directory.
    pub fn new() -> (directory: PeerTopicDirectory)
        ensures
            directory.well_formed(),
            directory@ == Map::<Seq<char>, Seq<char>>::empty(),
    {
        PeerTopicDirectory { entries: Vec::new() }
    }

    /// The place of the entry for `did`, if there is one.
    fn find(&self, did: &String) -> (place: Option<usize>)
        ensures
            match place {
                Some(i) => {
                    &&& i < self.entries@.len()
                    &&& self.entries@[i as int].did@ == did@
                    &&& forall|j: int| 0 <= j < i ==> (#[trigger] self.entries@[j]).did@ != did@
                },
                None => forall|j: int|
                    0 <= j < self.entries@.len() ==> (#[trigger] self.entries@[j]).did@ != did@,
            },
    {
        let mut i: usize = 0;
        while i < self.entries.len()
            invariant
                i <= self.entries@.len(),
                forall|j: int| 0 <= j < i ==> (#[trigger] self.entries@[j]).did@ != did@,
            decreases self.entries@.len() - i,
        {
            if self.entries[i].did == *did {
                return Some(i);
            }
            i = i + 1;
        }
        None
    }

    /// The topic of the peer with the given DID, or `None` where that peer was
    /// never validated.
    pub fn get(&self, did: &String) -> (topic: Option<String>)
        ensures
            match topic {
                Some(t) => self@.dom().contains(did@) && t@ == self@[did@],
                None => !self@.dom().contains(did@),
            },
    {
        match self.find(did) {
            Some(i) => {
                proof {
                    lemma_first_entry(self.entries@, did@, i as int);
                }
                Some(self.entries[i].topic.clone())
            },
            None => {
                proof {
                    lemma_absent(self.entries@, did@);
                }
                None
            },
        }
    }

    /// Whether the peer with the given DID has an entry.
    pub fn contains(&self, did: &String) -> (found: bool)
        ensures
            found == self@.dom().contains(did@),
    {
        self.get(did).is_some()
    }

    /// Writes the entry for a validated peer, unless that DID already has
    /// one: then the directory stays as it is. Returns the topic that the DID
    /// maps to from now on.
    pub fn insert(&mut self, did: String, topic: String) -> (kept: String)
        requires
            old(self).well_formed(),
        ensures
            final(self).well_formed(),
            final(self)@ == (if old(self)@.dom().contains(did@) {
                old(self)@
            } else {
                old(self)@.insert(did@, topic@)
            }),
            final(self)@.dom().contains(did@),
            kept@ == final(self)@[did@],
    {
        match self.get(&did) {
            Some(first) => first,
            None => {
                let kept = topic.clone();
                let ghost before = self.entries@;
                proof {
                    lemma_absent_converse(before, did@);
                }
                self.entries.push(DirectoryEntry { did, topic });
                proof {
                    assert(self.entries@.drop_last() == before);
                }
                kept
            },
        }
    }

    /// The number of validated peers.
    pub fn len(&self) -> (n: usize)
        requires
            self.well_formed(),
        ensures
            n == self@.dom().len(),
    {
        proof {
            lemma_distinct_len(self.entries@);
        }
        self.entries.len()
    }
}

/// A DID that is not in the map is named by no entry.
pub proof fn lemma_absent_converse(entries: Seq<DirectoryEntry>, did: Seq<char>)
    requires
        !entries_map(entries).dom().contains(did),
    ensures
        forall|j: int| 0 <= j < entries.len() ==> (#[trigger] entries[j]).did@ != did,
    decreases entries.len(),
{
    if entries.len() > 0 {
        let earlier = entries.drop_last();
        lemma_absent_converse(earlier, did);
        assert forall|j: int| 0 <= j < entries.len() implies (#[trigger] entries[j]).did@ != did by {
            if j < earlier.len() {
                assert(earlier[j] == entries[j]);
            }
        }
    }
}

/// Where no DID occurs twice, the map has as many keys as there are entries.
pub proof fn lemma_distinct_len(entries: Seq<DirectoryEntry>)
    requires
        distinct_dids(entries),
    ensures
        entries_map(entries).dom().finite(),
        entries_map(entries).dom().len() == entries.len(),
    decreases entries.len(),
{
    if entries.len() > 0 {
        let earlier = entries.drop_last();
        let last = entries.last();
        assert forall|i: int, j: int| 0 <= i < j < earlier.len() implies (#[trigger] earlier[i]).did@
            != (#[trigger] earlier[j]).did@ by {
            assert(earlier[i] == entries[i]);
            assert(earlier[j] == entries[j]);
        }
        lemma_distinct_len(earlier);
        assert forall|j: int| 0 <= j < earlier.len() implies (#[trigger] earlier[j]).did@
            != last.did@ by {
            assert(earlier[j] == entries[j]);
            assert(last == entries[entries.len() - 1]);
        }
        lemma_absent(earlier, last.did@);
    }
}

/// Write-once: an entry that is in the directory is still there, with the same
/// topic, after any later write.
pub proof fn lemma_write_once(
    before: Map<Seq<char>, Seq<char>>,
    did: Seq<char>,
    later_did: Seq<char>,
    later_topic: Seq<char>,
)
    requires
        before.dom().contains(did),
    ensures
        ({
            let after = if before.dom().contains(later_did) {
                before
            } else {
                before.insert(later_did, later_topic)
            };
            after.dom().contains(did) && after[did] == before[did]
        }),
{
}

} // verus!
