use vstd::prelude::*;

use crate::layout::{Symbol, POWER_CODE};

verus! {

/// Access policy for key presses.
#[derive(Clone, Copy, Debug, PartialEq, Eq, Structural)]
pub enum Lock {
    /// Every press is suppressed.
    Locked,
    /// Every press is reported.
    Unlocked,
    /// Only the power key's press is reported.
    UnlockedPowerOnly,
}

/// Whether `lock` keeps a press of `sym` from being reported.
pub open spec fn blocks(lock: Lock, sym: Symbol) -> bool {
    match lock {
        Lock::Locked => true,
        Lock::Unlocked => false,
        Lock::UnlockedPowerOnly => sym.0 != POWER_CODE,
    }
}

/// The number that stands for `lock` at the host boundary.
pub open spec fn lock_code(lock: Lock) -> u8 {
    match lock {
        Lock::Locked => 0,
        Lock::Unlocked => 1,
        Lock::UnlockedPowerOnly => 2,
    }
}

impl Lock {
    /// Whether this policy suppresses a press of `sym`.
    pub fn is_blocked(&self, sym: Symbol) -> (r: bool)
        ensures
            r == blocks(*self, sym),
    {
        match self {
            Lock::Locked => true,
            Lock::Unlocked => false,
            Lock::UnlockedPowerOnly => !sym.is_power(),
        }
    }

    /// The host-boundary code: 0 locked, 1 unlocked, 2 power key only.
    pub fn code(&self) -> (r: u8)
        ensures
            r == lock_code(*self),
    {
        match self {
            Lock::Locked => 0,
            Lock::Unlocked => 1,
            Lock::UnlockedPowerOnly => 2,
        }
    }

    /// The policy with host-boundary code `code`, if there is one.
    pub fn from_code(code: u8) -> (r: Option<Lock>)
        ensures
            r.is_some() <==> code <= 2,
            r.is_some() ==> lock_code(r.unwrap()) == code,
    {
        if code == 0 {
            Some(Lock::Locked)
        } else if code == 1 {
            Some(Lock::Unlocked)
        } else if code == 2 {
            Some(Lock::UnlockedPowerOnly)
        } else {
            None
        }
    }
}

/// The three policies: locked blocks every symbol, power-only blocks every symbol
/// but the power key, unlocked blocks none.
pub proof fn lemma_lock_policy(s: Symbol)
    ensures
        blocks(Lock::Locked, s),
        blocks(Lock::UnlockedPowerOnly, s) == (s.0 != POWER_CODE),
        !blocks(Lock::Unlocked, s),
{
}

} // verus!
