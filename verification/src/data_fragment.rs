//! Data fragments: partial or complete data known by a content identifier,
//! versioned at every mutation, that may point to a live stream.
//!
//! The content identifier is computed by whoever holds the hash; a fragment
//! keeps it as text and takes it when the first data is entered.

pub mod errors;
pub mod traits;

use self::traits::{Fragment, FragmentAccessor, LiveFragment};
use vstd::prelude::*;

verus! {

/// The version of a fragment that holds no data yet.
pub const UNINITIALIZED: i32 = -1;

/// Reads the system clock with `std::time::SystemTime::now` and
/// `duration_since` the Unix epoch, and gives the nanoseconds of
/// `Duration::as_nanos`. Nothing is known of the number.
#[verifier::external_body]
fn now_nanos() -> i64 {
    match std::time::SystemTime::now().duration_since(std::time::UNIX_EPOCH) {
        Ok(since) => since.as_nanos() as i64,
        Err(_) => 0,
    }
}

/// Partial or complete data known by a content identifier.
#[derive(Clone, Debug)]
pub struct DataFragment {
    /// The version: it grows by one at every mutation of the data.
    pub v: i32,
    /// The content identifier of the first data.
    pub cid: String,
    /// When the fragment was last mutated, in nanoseconds since the Unix
    /// epoch.
    pub timestamp: i64,
    /// The data, serialized.
    pub data: String,
    /// Whether a stream is there for this data.
    pub stream: bool,
    /// Whether that stream is still alive.
    pub alive: bool,
}

impl DataFragment {
    /// Whether the stream is alive.
    pub open spec fn is_live(&self) -> bool {
        self.alive
    }

    /// A fragment that holds no data yet, with the content identifier of the
    /// empty fragment.
    pub fn new(cid: String) -> (fragment: DataFragment)
        ensures
            fragment.v == UNINITIALIZED,
            fragment.cid@ == cid@,
            fragment.timestamp == 0,
            fragment.data@ == Seq::<char>::empty(),
            !fragment.stream,
            !fragment.is_live(),
    {
        DataFragment {
            v: UNINITIALIZED,
            cid,
            timestamp: 0,
            data: String::new(),
            stream: false,
            alive: false,
        }
    }

    /// A fragment with its first data, entered at the time `now`.
    pub fn from_data(data: String, cid: String, now: i64) -> (fragment: DataFragment)
        ensures
            fragment.v == 0,
            fragment.cid@ == cid@,
            fragment.timestamp == now,
            fragment.data@ == data@,
            !fragment.stream,
            !fragment.is_live(),
    {
        DataFragment { v: 0, cid, timestamp: now, data, stream: false, alive: false }
    }

    /// Replaces the data at the time `now`; no data stands for the empty
    /// text. The version grows by one. Where this is the first data of the
    /// fragment, `cid` becomes its content identifier; a fragment that had
    /// data keeps the one it has.
    pub fn set_at(&mut self, data: Option<String>, cid: String, now: i64)
        requires
            old(self).v < i32::MAX,
        ensures
            final(self).v == old(self).v + 1,
            final(self).data@ == (match data {
                Some(text) => text@,
                None => Seq::<char>::empty(),
            }),
            final(self).cid@ == (if old(self).v == UNINITIALIZED {
                cid@
            } else {
                old(self).cid@
            }),
            final(self).timestamp == now,
            final(self).stream == old(self).stream,
            final(self).is_live() == old(self).is_live(),
    {
        self.data = match data {
            Some(text) => text,
            None => String::new(),
        };
        self.v = self.v + 1;
        if self.v == 0 {
            self.cid = cid;
        }
        self.timestamp = now;
    }

    /// Marks the stream alive, or dead, at the time `now`.
    pub fn set_alive_at(&mut self, alive: bool, now: i64)
        ensures
            final(self).is_live() == alive,
            final(self).timestamp == now,
            final(self).v == old(self).v,
            final(self).cid@ == old(self).cid@,
            final(self).data@ == old(self).data@,
            final(self).stream == old(self).stream,
    {
        self.alive = alive;
        self.timestamp = now;
    }

}

impl FragmentAccessor for DataFragment {
    open spec fn version(&self) -> int {
        self.v as int
    }

    open spec fn text(&self) -> Seq<char> {
        self.data@
    }

    open spec fn identifier(&self) -> Seq<char> {
        self.cid@
    }

    fn get(&self) -> (fragment: &DataFragment) {
        self
    }

    /// Replaces the data now. See [`DataFragment::set_at`].
    fn set(&mut self, data: Option<String>, cid: String)
        ensures
            final(self).stream == old(self).stream,
            final(self).is_live() == old(self).is_live(),
    {
        let now = now_nanos();
        self.set_at(data, cid, now);
    }
}

impl Fragment for DataFragment {
    fn _update_timestamp(&mut self)
        ensures
            final(self).v == old(self).v,
            final(self).cid@ == old(self).cid@,
            final(self).data@ == old(self).data@,
            final(self).stream == old(self).stream,
            final(self).is_live() == old(self).is_live(),
    {
        let now = now_nanos();
        self.update_timestamp_at(now);
    }

    fn _build_cid(&mut self, cid: String)
        ensures
            final(self).cid@ == cid@,
            final(self).v == old(self).v,
            final(self).data@ == old(self).data@,
            final(self).timestamp == old(self).timestamp,
            final(self).stream == old(self).stream,
            final(self).is_live() == old(self).is_live(),
    {
        self.cid = cid;
    }
}

impl LiveFragment for DataFragment {
    open spec fn alive(&self) -> bool {
        self.is_live()
    }

    /// Marks the stream alive, now.
    fn wake(&mut self) -> (woken: &mut Self)
        ensures
            woken.v == old(self).v,
            woken.cid@ == old(self).cid@,
            woken.data@ == old(self).data@,
            woken.stream == old(self).stream,
    {
        let now = now_nanos();
        self.set_alive_at(true, now);
        self
    }

    /// Marks the stream dead, now.
    fn kill(&mut self) -> (killed: &mut Self)
        ensures
            killed.v == old(self).v,
            killed.cid@ == old(self).cid@,
            killed.data@ == old(self).data@,
            killed.stream == old(self).stream,
    {
        let now = now_nanos();
        self.set_alive_at(false, now);
        self
    }

    fn is_alive(&mut self) -> (b: bool)
        ensures
            final(self).v == old(self).v,
            final(self).cid@ == old(self).cid@,
            final(self).data@ == old(self).data@,
            final(self).timestamp == old(self).timestamp,
            final(self).stream == old(self).stream,
    {
        self.alive
    }
}

impl DataFragment {
    /// Notes that the fragment was mutated at the time `now`.
    pub fn update_timestamp_at(&mut self, now: i64)
        ensures
            final(self).timestamp == now,
            final(self).v == old(self).v,
            final(self).cid@ == old(self).cid@,
            final(self).data@ == old(self).data@,
            final(self).stream == old(self).stream,
            final(self).is_live() == old(self).is_live(),
    {
        self.timestamp = now;
    }
}

} // verus!
