//! Lease properties of a container or blob, and the words the service uses
//! for them.

use vstd::prelude::*;
use crate::text::text_eq;

verus! {

#[derive(Clone, Copy, Debug, PartialEq, Eq, Structural)]
pub enum LeaseStatus {
    Locked,
    Unlocked,
}

#[derive(Clone, Copy, Debug, PartialEq, Eq, Structural)]
pub enum LeaseState {
    Available,
    Leased,
    Expired,
    Breaking,
    Broken,
}

#[derive(Clone, Copy, Debug, PartialEq, Eq, Structural)]
pub enum LeaseDuration {
    Infinite,
    Fixed,
}

/// The identifier of a lease, in the textual form that goes on the wire.
#[derive(Clone, Debug)]
pub struct LeaseId {
    pub text: String,
}

impl LeaseStatus {
    /// The status that a word names.
    pub open spec fn of_text(s: Seq<char>) -> Option<LeaseStatus> {
        if s == "locked"@ {
            Some(LeaseStatus::Locked)
        } else if s == "unlocked"@ {
            Some(LeaseStatus::Unlocked)
        } else {
            None
        }
    }

    pub fn from_str(s: &str) -> (r: Option<LeaseStatus>)
        ensures
            r == Self::of_text(s@),
    {
        if text_eq(s, "locked") {
            Some(LeaseStatus::Locked)
        } else if text_eq(s, "unlocked") {
            Some(LeaseStatus::Unlocked)
        } else {
            None
        }
    }

    pub fn as_str(&self) -> (r: &'static str)
        ensures
            r@ == match *self {
                LeaseStatus::Locked => "locked"@,
                LeaseStatus::Unlocked => "unlocked"@,
            },
    {
        match self {
            LeaseStatus::Locked => "locked",
            LeaseStatus::Unlocked => "unlocked",
        }
    }
}

impl LeaseState {
    /// The state that a word names.
    pub open spec fn of_text(s: Seq<char>) -> Option<LeaseState> {
        if s == "available"@ {
            Some(LeaseState::Available)
        } else if s == "leased"@ {
            Some(LeaseState::Leased)
        } else if s == "expired"@ {
            Some(LeaseState::Expired)
        } else if s == "breaking"@ {
            Some(LeaseState::Breaking)
        } else if s == "broken"@ {
            Some(LeaseState::Broken)
        } else {
            None
        }
    }

    pub fn from_str(s: &str) -> (r: Option<LeaseState>)
        ensures
            r == Self::of_text(s@),
    {
        if text_eq(s, "available") {
            Some(LeaseState::Available)
        } else if text_eq(s, "leased") {
            Some(LeaseState::Leased)
        } else if text_eq(s, "expired") {
            Some(LeaseState::Expired)
        } else if text_eq(s, "breaking") {
            Some(LeaseState::Breaking)
        } else if text_eq(s, "broken") {
            Some(LeaseState::Broken)
        } else {
            None
        }
    }

    pub fn as_str(&self) -> (r: &'static str)
        ensures
            r@ == match *self {
                LeaseState::Available => "available"@,
                LeaseState::Leased => "leased"@,
                LeaseState::Expired => "expired"@,
                LeaseState::Breaking => "breaking"@,
                LeaseState::Broken => "broken"@,
            },
    {
        match self {
            LeaseState::Available => "available",
            LeaseState::Leased => "leased",
            LeaseState::Expired => "expired",
            LeaseState::Breaking => "breaking",
            LeaseState::Broken => "broken",
        }
    }
}

impl LeaseDuration {
    /// The duration that a word names.
    pub open spec fn of_text(s: Seq<char>) -> Option<LeaseDuration> {
        if s == "infinite"@ {
            Some(LeaseDuration::Infinite)
        } else if s == "fixed"@ {
            Some(LeaseDuration::Fixed)
        } else {
            None
        }
    }

    pub fn from_str(s: &str) -> (r: Option<LeaseDuration>)
        ensures
            r == Self::of_text(s@),
    {
        if text_eq(s, "infinite") {
            Some(LeaseDuration::Infinite)
        } else if text_eq(s, "fixed") {
            Some(LeaseDuration::Fixed)
        } else {
            None
        }
    }

    pub fn as_str(&self) -> (r: &'static str)
        ensures
            r@ == match *self {
                LeaseDuration::Infinite => "infinite"@,
                LeaseDuration::Fixed => "fixed"@,
            },
    {
        match self {
            LeaseDuration::Infinite => "infinite",
            LeaseDuration::Fixed => "fixed",
        }
    }
}

/// The boolean that a word names: strictly `true` or `false`.
pub open spec fn bool_of_text(s: Seq<char>) -> Option<bool> {
    if s == "true"@ {
        Some(true)
    } else if s == "false"@ {
        Some(false)
    } else {
        None
    }
}

pub fn parse_bool(s: &str) -> (r: Option<bool>)
    ensures
        r == bool_of_text(s@),
{
    if text_eq(s, "true") {
        Some(true)
    } else if text_eq(s, "false") {
        Some(false)
    } else {
        None
    }
}

} // verus!
