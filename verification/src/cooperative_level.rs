//! The access that an application asks for when it binds a device to a window.

use vstd::prelude::*;

verus! {

/// Access in the background: the device can be acquired at any time, even
/// when the window is not the active one.
pub const DISCL_BACKGROUND: u32 = 8;

/// Exclusive access: no other application can have exclusive access to the
/// device while it is acquired.
pub const DISCL_EXCLUSIVE: u32 = 1;

/// Access in the foreground: the device is unacquired when the window moves
/// to the background.
pub const DISCL_FOREGROUND: u32 = 4;

/// Shared access: other applications that use the device are not disturbed.
pub const DISCL_NONEXCLUSIVE: u32 = 2;

/// The Windows logo key is switched off while the device is acquired.
pub const DISCL_NOWINKEY: u32 = 16;

/// Every flag at once.
pub const DISCL_ALL: u32 = 31;

/// A set of cooperative-level flags.
#[derive(Clone, Copy, Debug, PartialEq, Eq, Structural)]
pub struct CooperativeLevel {
    bits: u32,
}

impl View for CooperativeLevel {
    type V = u32;

    /// The flags as one number, a bit for each.
    closed spec fn view(&self) -> u32 {
        self.bits
    }
}

impl CooperativeLevel {
    /// No flag.
    pub fn empty() -> (level: CooperativeLevel)
        ensures
            level@ == 0,
    {
        CooperativeLevel { bits: 0 }
    }

    /// Every flag.
    pub fn all() -> (level: CooperativeLevel)
        ensures
            level@ == DISCL_ALL,
    {
        CooperativeLevel { bits: DISCL_ALL }
    }

    /// Background access.
    pub fn background() -> (level: CooperativeLevel)
        ensures
            level@ == DISCL_BACKGROUND,
    {
        CooperativeLevel { bits: DISCL_BACKGROUND }
    }

    /// Exclusive access.
    pub fn exclusive() -> (level: CooperativeLevel)
        ensures
            level@ == DISCL_EXCLUSIVE,
    {
        CooperativeLevel { bits: DISCL_EXCLUSIVE }
    }

    /// Foreground access.
    pub fn foreground() -> (level: CooperativeLevel)
        ensures
            level@ == DISCL_FOREGROUND,
    {
        CooperativeLevel { bits: DISCL_FOREGROUND }
    }

    /// Shared access.
    pub fn non_exclusive() -> (level: CooperativeLevel)
        ensures
            level@ == DISCL_NONEXCLUSIVE,
    {
        CooperativeLevel { bits: DISCL_NONEXCLUSIVE }
    }

    /// The Windows logo key switched off.
    pub fn no_win_key() -> (level: CooperativeLevel)
        ensures
            level@ == DISCL_NOWINKEY,
    {
        CooperativeLevel { bits: DISCL_NOWINKEY }
    }

    /// The flags as the number that the native call takes.
    pub fn bits(&self) -> (bits: u32)
        ensures
            bits == self@,
    {
        self.bits
    }

    /// The set that `bits` stands for, if every bit of it is a flag.
    pub fn from_bits(bits: u32) -> (level: Option<CooperativeLevel>)
        ensures
            level is Some <==> bits & !DISCL_ALL == 0,
            level matches Some(l) ==> l@ == bits,
    {
        if bits & !DISCL_ALL == 0 {
            Some(CooperativeLevel { bits })
        } else {
            None
        }
    }

    /// The flags of both sets.
    pub fn union(self, other: CooperativeLevel) -> (level: CooperativeLevel)
        ensures
            level@ == self@ | other@,
    {
        CooperativeLevel { bits: self.bits | other.bits }
    }

    /// Whether every flag of `other` is in this set.
    pub fn contains(&self, other: CooperativeLevel) -> (all: bool)
        ensures
            all == (self@ & other@ == other@),
    {
        self.bits & other.bits == other.bits
    }
}

} // verus!
