//! The cell that owns one native value and remembers which thread holds it.
//!
//! Blocking is not done here. An attempt that would have to wait says so, and
//! the caller tries again once the holder has dropped its reference.

use vstd::prelude::*;
use crate::error::Error;

verus! {

/// The outcome of an attempt that may have to wait for another thread.
#[derive(Debug)]
pub enum Turn<T> {
    /// The attempt went through.
    Ready(T),
    /// Another thread holds the lock: nothing was changed, try again later.
    Wait,
}

/// What a successful `lock` hands out.
#[derive(Clone, Copy, Debug, PartialEq, Eq, Structural)]
pub enum ReentrantReference {
    /// The thread took the lock; dropping this reference frees it.
    Locked(u64),
    /// The thread held the lock already; dropping this reference changes nothing.
    Recursive(u64),
}

impl ReentrantReference {
    /// The thread that the reference was handed to.
    pub open spec fn thread_spec(self) -> u64 {
        match self {
            ReentrantReference::Locked(t) => t,
            ReentrantReference::Recursive(t) => t,
        }
    }

    /// The thread that the reference was handed to.
    pub fn thread(&self) -> (t: u64)
        ensures
            t == self.thread_spec(),
    {
        match self {
            ReentrantReference::Locked(t) => *t,
            ReentrantReference::Recursive(t) => *t,
        }
    }
}

/// The state of a cell as contracts see it.
pub ghost struct CellState<T> {
    /// The value that the cell owns.
    pub value: T,
    /// The thread that holds the lock, if any does.
    pub owner: Option<u64>,
    /// Whether a holder failed while it held the lock.
    pub poisoned: bool,
}

impl<T> CellState<T> {
    /// What `lock` answers to `thread` in this state.
    pub open spec fn lock_result(self, thread: u64) -> Result<Turn<ReentrantReference>, Error> {
        if self.poisoned {
            Err(Error::LockPoisoned)
        } else {
            match self.owner {
                None => Ok(Turn::Ready(ReentrantReference::Locked(thread))),
                Some(holder) => if holder == thread {
                    Ok(Turn::Ready(ReentrantReference::Recursive(thread)))
                } else {
                    Ok(Turn::Wait)
                },
            }
        }
    }

    /// The state that `lock` by `thread` leaves behind.
    pub open spec fn after_lock(self, thread: u64) -> Self {
        if !self.poisoned && self.owner is None {
            CellState { owner: Some(thread), ..self }
        } else {
            self
        }
    }

    /// That `reference` is the one that took the lock now held.
    pub open spec fn held_through(self, reference: ReentrantReference) -> bool {
        reference matches ReentrantReference::Locked(t) && self.owner == Some(t)
    }

    /// The state after `reference` was dropped.
    pub open spec fn after_unlock(self, reference: ReentrantReference) -> Self {
        if self.held_through(reference) {
            CellState { owner: None, ..self }
        } else {
            self
        }
    }

    /// The state after the holder of `reference` failed and let go of it.
    pub open spec fn after_abandon(self, reference: ReentrantReference) -> Self {
        if self.held_through(reference) {
            CellState { owner: None, poisoned: true, ..self }
        } else {
            self
        }
    }

    /// That `thread` may use the value: it holds the lock.
    pub open spec fn held_by(self, thread: u64) -> bool {
        self.owner == Some(thread)
    }
}

/// A value together with a lock that its holder may take again.
pub struct ReentrantLock<T> {
    value: T,
    owner: Option<u64>,
    poisoned: bool,
}

impl<T> View for ReentrantLock<T> {
    type V = CellState<T>;

    closed spec fn view(&self) -> CellState<T> {
        CellState { value: self.value, owner: self.owner, poisoned: self.poisoned }
    }
}

impl<T> ReentrantLock<T> {
    /// Wraps `val` in a cell whose lock is free.
    pub fn new(val: T) -> (cell: Self)
        ensures
            cell@ == (CellState { value: val, owner: None, poisoned: false }),
    {
        ReentrantLock { value: val, owner: None, poisoned: false }
    }

    /// Takes the lock for `thread`, or tells it to wait.
    ///
    /// The holder gets a recursive reference at once, a free lock is taken,
    /// and a poisoned one is reported. The value is never touched.
    pub fn lock(&mut self, thread: u64) -> (outcome: Result<Turn<ReentrantReference>, Error>)
        ensures
            outcome == old(self)@.lock_result(thread),
            final(self)@ == old(self)@.after_lock(thread),
    {
        if self.poisoned {
            return Err(Error::LockPoisoned);
        }
        match self.owner {
            None => {
                self.owner = Some(thread);
                Ok(Turn::Ready(ReentrantReference::Locked(thread)))
            },
            Some(holder) => {
                if holder == thread {
                    Ok(Turn::Ready(ReentrantReference::Recursive(thread)))
                } else {
                    Ok(Turn::Wait)
                }
            },
        }
    }

    /// Drops `reference`: the one that took the lock frees it, any other
    /// leaves the cell as it is.
    pub fn unlock(&mut self, reference: ReentrantReference)
        ensures
            final(self)@ == old(self)@.after_unlock(reference),
    {
        match reference {
            ReentrantReference::Locked(t) => {
                if self.is_held_by(t) {
                    self.owner = None;
                }
            },
            ReentrantReference::Recursive(_) => {},
        }
    }

    /// Drops `reference` for a holder that failed: the lock is freed and the
    /// cell is poisoned for everyone who comes after.
    pub fn abandon(&mut self, reference: ReentrantReference)
        ensures
            final(self)@ == old(self)@.after_abandon(reference),
    {
        match reference {
            ReentrantReference::Locked(t) => {
                if self.is_held_by(t) {
                    self.owner = None;
                    self.poisoned = true;
                }
            },
            ReentrantReference::Recursive(_) => {},
        }
    }

    /// Whether `thread` holds the lock.
    pub fn is_held_by(&self, thread: u64) -> (held: bool)
        ensures
            held == self@.held_by(thread),
    {
        match self.owner {
            Some(holder) => holder == thread,
            None => false,
        }
    }

    /// The thread that holds the lock, if any does.
    pub fn holder(&self) -> (holder: Option<u64>)
        ensures
            holder == self@.owner,
    {
        self.owner
    }

    /// Whether a holder failed while it held the lock.
    pub fn is_poisoned(&self) -> (poisoned: bool)
        ensures
            poisoned == self@.poisoned,
    {
        self.poisoned
    }

    /// The value, for the thread that holds the lock and for no other.
    pub fn get(&self, thread: u64) -> (value: Option<&T>)
        ensures
            value == (if self@.held_by(thread) { Some(&self@.value) } else { None }),
    {
        if self.is_held_by(thread) {
            Some(&self.value)
        } else {
            None
        }
    }

    /// Puts `value` in place of the one held, for the thread that holds the
    /// lock; for any other thread nothing changes and the answer is `false`.
    pub fn put(&mut self, thread: u64, value: T) -> (stored: bool)
        ensures
            stored == old(self)@.held_by(thread),
            final(self)@ == (if stored { CellState { value: value, ..old(self)@ } } else { old(self)@ }),
    {
        if self.is_held_by(thread) {
            self.value = value;
            true
        } else {
            false
        }
    }

    /// Takes the cell apart and hands out the value, unless it is poisoned.
    pub fn into_inner(self) -> (value: Result<T, Error>)
        ensures
            value == (if self@.poisoned { Err::<T, Error>(Error::LockPoisoned) } else { Ok(self@.value) }),
    {
        if self.poisoned {
            Err(Error::LockPoisoned)
        } else {
            Ok(self.value)
        }
    }
}

} // verus!
