//! Mutual exclusion over the layout tree.
//!
//! The tree is held from the moment an event handler is granted it until that
//! handler is done. A handler that arrives in between (the engine may call
//! back while the tree is being changed) either gives up at once or is told to
//! wait, depending on how it asks.

use vstd::prelude::*;
use crate::fault::Fault;

verus! {

/// State of the lock.
#[derive(Clone, Copy, Debug, PartialEq, Eq, Structural, Hash)]
pub enum LockState {
    Free,
    Held,
    Poisoned,
}

/// Answer to a request that is prepared to wait.
#[derive(Clone, Copy, Debug, PartialEq, Eq, Structural, Hash)]
pub enum Acquire {
    /// The lock is now held by the caller.
    Locked,
    /// The lock is held elsewhere: ask again once it has been released.
    Busy,
    /// The lock is poisoned and will not be granted.
    Poisoned,
}

impl LockState {
    /// The state after any attempt to take the lock: a free lock becomes
    /// held, every other state stays.
    pub open spec fn after_acquire(self) -> LockState {
        if self == LockState::Free {
            LockState::Held
        } else {
            self
        }
    }

    /// The answer to an attempt that does not wait.
    pub open spec fn try_answer(self) -> Result<(), Fault> {
        match self {
            LockState::Free => Ok(()),
            LockState::Held => Err(Fault::LockUnavailable),
            LockState::Poisoned => Err(Fault::LockPoisoned),
        }
    }

    /// The answer to an attempt that is prepared to wait.
    pub open spec fn wait_answer(self) -> Acquire {
        match self {
            LockState::Free => Acquire::Locked,
            LockState::Held => Acquire::Busy,
            LockState::Poisoned => Acquire::Poisoned,
        }
    }

    /// The state after the holder lets go: a held lock becomes free, every
    /// other state stays.
    pub open spec fn after_release(self) -> LockState {
        if self == LockState::Held {
            LockState::Free
        } else {
            self
        }
    }
}

/// The lock over the layout tree.
#[derive(Debug)]
pub struct Guard {
    state: LockState,
}

impl View for Guard {
    type V = LockState;

    closed spec fn view(&self) -> LockState {
        self.state
    }
}

impl Guard {
    /// A free lock.
    pub fn new() -> (g: Guard)
        ensures
            g@ == LockState::Free,
    {
        Guard { state: LockState::Free }
    }

    /// The present state.
    pub fn state(&self) -> (s: LockState)
        ensures
            s == self@,
    {
        self.state
    }

    /// Takes the lock if it is free and answers at once otherwise: with
    /// `LockUnavailable` if it is held, with `LockPoisoned` if it is poisoned.
    /// The state changes only when the lock is granted.
    pub fn try_acquire(&mut self) -> (r: Result<(), Fault>)
        ensures
            r == old(self)@.try_answer(),
            final(self)@ == old(self)@.after_acquire(),
    {
        match self.state {
            LockState::Free => {
                self.state = LockState::Held;
                Ok(())
            },
            LockState::Held => Err(Fault::LockUnavailable),
            LockState::Poisoned => Err(Fault::LockPoisoned),
        }
    }

    /// Takes the lock if it is free. If it is held, the caller is told to
    /// come back when it has been released.
    pub fn acquire(&mut self) -> (r: Acquire)
        ensures
            r == old(self)@.wait_answer(),
            final(self)@ == old(self)@.after_acquire(),
    {
        match self.state {
            LockState::Free => {
                self.state = LockState::Held;
                Acquire::Locked
            },
            LockState::Held => Acquire::Busy,
            LockState::Poisoned => Acquire::Poisoned,
        }
    }

    /// Lets go of the lock. A poisoned lock stays poisoned.
    pub fn release(&mut self)
        ensures
            final(self)@ == old(self)@.after_release(),
    {
        match self.state {
            LockState::Held => {
                self.state = LockState::Free;
            },
            _ => {},
        }
    }

    /// Marks the lock as poisoned: its holder failed in the middle of a
    /// change.
    pub fn poison(&mut self)
        ensures
            final(self)@ == LockState::Poisoned,
    {
        self.state = LockState::Poisoned;
    }
}

/// An attempt that does not wait, made while the lock is held, fails with
/// `LockUnavailable` and leaves the lock as it was; a second attempt right
/// after it gets the same answer.
pub proof fn lemma_contended_attempt_fails(s: LockState)
    requires
        s == LockState::Held,
    ensures
        s.try_answer() == Err::<(), Fault>(Fault::LockUnavailable),
        s.after_acquire() == s,
        s.after_acquire().try_answer() == s.try_answer(),
{
}

/// Taking a free lock and letting go of it leaves it free, and while it is
/// taken no second attempt is granted.
pub proof fn lemma_acquire_then_release(s: LockState)
    requires
        s == LockState::Free,
    ensures
        s.after_acquire() == LockState::Held,
        s.after_acquire().try_answer() is Err,
        s.after_acquire().wait_answer() == Acquire::Busy,
        s.after_acquire().after_release() == LockState::Free,
{
}

} // verus!
