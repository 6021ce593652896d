//! The conflux: the fragments of a node, no two of them with the same content
//! identifier.

use crate::data_fragment::errors::{FragmentErrorData, FragmentErrors};
use crate::data_fragment::traits::LiveFragment;
use crate::data_fragment::DataFragment;
use vstd::prelude::*;

verus! {

/// Marker of the types that can stand for a conflux.
pub trait ConfluxTrait {

}

/// The fragments of a node.
pub struct Conflux {
    fragments: Vec<DataFragment>,
}

impl ConfluxTrait for Conflux {

}

/// Whether some fragment has the content identifier.
pub open spec fn holds_cid(fragments: Seq<DataFragment>, cid: Seq<char>) -> bool {
    exists|i: int| 0 <= i < fragments.len() && (#[trigger] fragments[i]).cid@ == cid
}

impl Conflux {
    /// The fragments, in the order in which they were added.
    pub closed spec fn fragments(&self) -> Seq<DataFragment> {
        self.fragments@
    }

    /// A conflux without fragments.
    pub fn new() -> (conflux: Conflux)
        ensures
            conflux.fragments() == Seq::<DataFragment>::empty(),
    {
        Conflux { fragments: Vec::new() }
    }

    /// Ends the stream of a fragment.
    pub fn close_stream<T: LiveFragment>(fragment: T) -> (closed: T)
        ensures
            !closed.alive(),
    {
        let mut fragment = fragment;
        fragment.kill();
        fragment
    }

    /// Tells whether a fragment could be added: it collides where a fragment
    /// of the conflux has its content identifier.
    pub fn check_collision(&self, fragment: &DataFragment) -> (r: Result<(), FragmentErrorData>)
        ensures
            r.is_err() == holds_cid(self.fragments(), fragment.cid@),
            r matches Err(e) ==> e == (FragmentErrorData {
                e: Some(FragmentErrors::Collision),
                fatal: false,
            }),
    {
        let mut i: usize = 0;
        while i < self.fragments.len()
            invariant
                i <= self.fragments@.len(),
                forall|j: int| 0 <= j < i ==> (#[trigger] self.fragments@[j]).cid@ != fragment.cid@,
            decreases self.fragments@.len() - i,
        {
            if self.fragments[i].cid == fragment.cid {
                return Err(FragmentErrorData::from(FragmentErrors::Collision));
            }
            i = i + 1;
        }
        Ok(())
    }

    /// Adds a fragment, unless it collides with one that is there: then the
    /// conflux stays as it is.
    pub fn add_fragment(&mut self, fragment: DataFragment) -> (r: Result<(), FragmentErrorData>)
        ensures
            r.is_err() == holds_cid(old(self).fragments(), fragment.cid@),
            r matches Err(e) ==> e == (FragmentErrorData {
                e: Some(FragmentErrors::Collision),
                fatal: false,
            }),
            final(self).fragments() == (if holds_cid(old(self).fragments(), fragment.cid@) {
                old(self).fragments()
            } else {
                old(self).fragments().push(fragment)
            }),
    {
        match self.check_collision(&fragment) {
            Ok(_) => {
                self.fragments.push(fragment);
                Ok(())
            },
            Err(e) => Err(e),
        }
    }

    /// The number of fragments.
    pub fn len(&self) -> (n: usize)
        ensures
            n == self.fragments().len(),
    {
        self.fragments.len()
    }
}

} // verus!
