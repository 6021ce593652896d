//! The capabilities of a fragment.

use super::errors::FragmentErrorData;
use super::{DataFragment, UNINITIALIZED};
use vstd::prelude::*;

verus! {

/// Reading a fragment and replacing its data.
pub trait FragmentAccessor {
    /// The version of the fragment.
    spec fn version(&self) -> int;

    /// The data of the fragment.
    spec fn text(&self) -> Seq<char>;

    /// The content identifier of the fragment.
    spec fn identifier(&self) -> Seq<char>;

    fn get(&self) -> (fragment: &DataFragment)
        ensures
            fragment.v == self.version(),
            fragment.data@ == self.text(),
            fragment.cid@ == self.identifier(),
    ;

    /// Replaces the data; no data stands for the empty text. The version
    /// grows by one. Where this is the first data of the fragment, `cid`
    /// becomes its content identifier; a fragment that had data keeps the one
    /// it has.
    fn set(&mut self, data: Option<String>, cid: String)
        requires
            old(self).version() < i32::MAX,
        ensures
            final(self).version() == old(self).version() + 1,
            final(self).text() == (match data {
                Some(text) => text@,
                None => Seq::<char>::empty(),
            }),
            final(self).identifier() == (if old(self).version() == UNINITIALIZED {
                cid@
            } else {
                old(self).identifier()
            }),
    ;
}

/// The upkeep that every mutation of a fragment does.
pub trait Fragment {
    /// Notes the time of a mutation.
    fn _update_timestamp(&mut self);

    /// Takes the content identifier of the data.
    fn _build_cid(&mut self, cid: String);
}

/// A fragment that may point to a live stream.
pub trait LiveFragment: Sized {
    /// Whether the stream is alive.
    spec fn alive(&self) -> bool;

    fn wake(&mut self) -> (woken: &mut Self)
        ensures
            woken.alive(),
            *final(self) == *final(woken),
    ;

    fn kill(&mut self) -> (killed: &mut Self)
        ensures
            !killed.alive(),
            *final(self) == *final(killed),
    ;

    fn is_alive(&mut self) -> (b: bool)
        ensures
            b == old(self).alive(),
            final(self).alive() == old(self).alive(),
    ;
}

/// An error that knows its severity.
pub trait FragmentError {
    /// Whether the error is fatal.
    spec fn fatal(&self) -> bool;

    /// The error with its severity.
    spec fn data(&self) -> FragmentErrorData;

    fn is_fatal(&self) -> (b: bool)
        ensures
            b == self.fatal(),
    ;

    fn get(&self) -> (d: FragmentErrorData)
        ensures
            d == self.data(),
    ;
}

} // verus!
