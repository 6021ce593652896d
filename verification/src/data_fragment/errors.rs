//! What can go wrong with a fragment.

use super::traits::FragmentError;
use vstd::prelude::*;
use vstd::std_specs::convert::FromSpecImpl;

verus! {

/// The kinds of fragment error.
#[derive(Debug, Clone, Copy, PartialEq, Eq, Structural)]
pub enum FragmentErrors {
    Generic,
    Collision,
}

/// An error with its severity.
#[derive(Debug, Clone, Copy)]
pub struct FragmentErrorData {
    pub e: Option<FragmentErrors>,
    pub fatal: bool,
}

/// The name of a kind of error.
pub open spec fn error_text(kind: FragmentErrors) -> Seq<char> {
    match kind {
        FragmentErrors::Generic => "Generic"@,
        FragmentErrors::Collision => "Collision"@,
    }
}

/// Whether a kind of error is fatal: a collision is, a generic error is not.
pub open spec fn fatal_kind(kind: FragmentErrors) -> bool {
    kind == FragmentErrors::Collision
}

impl FragmentErrors {
    /// The name of this kind.
    pub fn to_text(&self) -> (text: String)
        ensures
            text@ == error_text(*self),
    {
        match self {
            FragmentErrors::Generic => String::from_str("Generic"),
            FragmentErrors::Collision => String::from_str("Collision"),
        }
    }
}

impl FragmentError for FragmentErrors {
    open spec fn fatal(&self) -> bool {
        fatal_kind(*self)
    }

    open spec fn data(&self) -> FragmentErrorData {
        FragmentErrorData { e: Some(FragmentErrors::Generic), fatal: fatal_kind(*self) }
    }

    fn is_fatal(&self) -> (b: bool) {
        match self {
            FragmentErrors::Generic => false,
            FragmentErrors::Collision => true,
        }
    }

    /// The data of either kind names the generic kind and carries the
    /// severity of this one.
    fn get(&self) -> (d: FragmentErrorData) {
        match self {
            FragmentErrors::Generic => FragmentErrorData {
                e: Some(FragmentErrors::Generic),
                fatal: self.is_fatal(),
            },
            FragmentErrors::Collision => FragmentErrorData {
                e: Some(FragmentErrors::Generic),
                fatal: self.is_fatal(),
            },
        }
    }
}

impl FragmentError for FragmentErrorData {
    open spec fn fatal(&self) -> bool {
        self.fatal
    }

    open spec fn data(&self) -> FragmentErrorData {
        *self
    }

    fn is_fatal(&self) -> (b: bool) {
        self.fatal
    }

    fn get(&self) -> (d: FragmentErrorData) {
        *self
    }
}

impl FromSpecImpl<FragmentErrors> for FragmentErrorData {
    open spec fn obeys_from_spec() -> bool {
        true
    }

    open spec fn from_spec(e: FragmentErrors) -> FragmentErrorData {
        FragmentErrorData { e: Some(e), fatal: false }
    }
}

impl From<FragmentErrors> for FragmentErrorData {
    /// An error of the given kind that is not fatal.
    fn from(e: FragmentErrors) -> (d: FragmentErrorData) {
        FragmentErrorData { e: Some(e), fatal: false }
    }
}

impl Default for FragmentErrorData {
    /// A generic error that is not fatal.
    fn default() -> (d: FragmentErrorData)
        ensures
            d == (FragmentErrorData { e: Some(FragmentErrors::Generic), fatal: false }),
    {
        FragmentErrorData { e: Some(FragmentErrors::Generic), fatal: false }
    }
}

} // verus!
