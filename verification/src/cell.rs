//! The executable cell.
//!
//! A [`Lazy`] is a publication flag, a storage slot and a lock, as in
//! [`crate::protocol`]. Readers load the flag with acquire ordering and only
//! then look at the slot; the one writer fills the slot and only then stores
//! the flag with release ordering. The lock is an asynchronous one, so a
//! task that has to wait for it yields instead of blocking its thread.
//!
//! The cell is shared, and other tasks change it between any two calls. To
//! the verifier a shared reference never changes, so no contract here can
//! say what the cell holds at the moment of a call: what a read of the flag
//! or of the slot returns is taken as it comes. What the contracts do say is
//! what the cell decides once it has read. Each decision is a public
//! function of what was read, with an exact contract:
//!
//! * [`Lazy::reader_sees`] for a read, which is `published` in the protocol;
//! * [`ValueOrSetter::on_first_check`], which is `first_check` there;
//! * [`ValueOrSetter::on_second_check`], which is `second_check` there.
//!
//! What follows from these decisions for every interleaving of tasks is
//! proved in [`crate::laws`], of what is read at any two moments of any
//! history.
//!
//! Each function is one or more steps of the protocol:
//!
//! | here                          | in the protocol                      |
//! |-------------------------------|--------------------------------------|
//! | [`Lazy::new`]                 | `System::fresh`                      |
//! | [`Lazy::get`]                 | `Get`                                |
//! | [`Lazy::get_or_set`], called  | `Enter`                              |
//! | its future, polled            | `Acquire`, then `Recheck`            |
//! | its future, dropped           | `Cancel`                             |
//! | [`Setter::set`]               | `Write`, `Publish`, then `Release`   |
//! | a [`Setter`], dropped         | `Abandon`                            |
use vstd::prelude::*;
use vstd::future::FutureAdditionalSpecFns;
use std::future::Future;
use std::sync::atomic::AtomicBool;
use std::sync::atomic::Ordering;
use std::sync::OnceLock;
use futures::lock::Mutex;
use futures::lock::MutexGuard;
use crate::primitives::acquire;
use crate::primitives::and_then;
use crate::primitives::lock_of;
use crate::primitives::new_lock;
use crate::primitives::new_slot;
use crate::primitives::or_left;
use crate::primitives::or_right;
use crate::primitives::read_slot;
use crate::primitives::write_slot;
use crate::protocol::first_check;
use crate::protocol::published;
use crate::protocol::second_check;
use crate::protocol::Outcome;

verus! {

/// A value that is computed lazily, at most once.
#[derive(Debug)]
#[verifier::reject_recursive_types(T)]
pub struct Lazy<T> {
    is_initialized: AtomicBool,
    lock: Mutex<()>,
    value: OnceLock<T>,
}

/// The right to initialise one cell. It keeps the cell's lock held for as
/// long as it lives, so no second one exists beside it.
#[derive(Debug)]
#[verifier::reject_recursive_types(T)]
pub struct Setter<'l, T> {
    parent: &'l Lazy<T>,
    guard: MutexGuard<'l, ()>,
}

/// What a caller gets from asking a cell: the value, or the right to set it.
#[derive(Debug)]
#[verifier::reject_recursive_types(T)]
pub enum ValueOrSetter<'l, T> {
    /// Initialization has been done and the value is returned.
    Value(&'l T),
    /// Initialization has not been done and the caller may do it.
    Setter(Setter<'l, T>),
}

/// What a read returned, without the reference.
pub open spec fn seen_value<T>(seen: Option<&T>) -> Option<T> {
    match seen {
        Some(value) => Some(*value),
        None => None,
    }
}

/// What the first check ended in, if it ended the call, as the protocol
/// names it.
pub open spec fn settled_outcome<T>(settled: Option<ValueOrSetter<'_, T>>) -> Option<Outcome<T>> {
    match settled {
        Some(outcome) => Some(outcome@),
        None => None,
    }
}

impl<'l, T> Setter<'l, T> {
    /// The cell that this setter initialises.
    pub closed spec fn cell(&self) -> &'l Lazy<T> {
        self.parent
    }

    /// Whether the guard in this setter is a guard of its own cell's lock:
    /// while the setter lives, it is this cell's lock that is held.
    pub closed spec fn keeps_the_lock(&self) -> bool {
        lock_of(self.guard) == self.parent.lock
    }

    /// Every setter keeps the lock of its own cell.
    #[verifier::type_invariant]
    spec fn well_formed(&self) -> bool {
        self.keeps_the_lock()
    }

    /// Stores the value in the cell and publishes it: the slot is written
    /// first, the flag is raised after it. Returns a reference to what the
    /// cell holds.
    ///
    /// The setter is used up, and the lock is free again on return.
    pub fn set(self, value: T) -> (stored: &'l T)
    {
        let stored = write_slot(&self.parent.value, value);
        self.parent.is_initialized.store(true, Ordering::Release);
        stored
    }
}

impl<'l, T> ValueOrSetter<'l, T> {
    /// The outcome as the protocol names it.
    pub open spec fn view(&self) -> Outcome<T> {
        match self {
            ValueOrSetter::Value(value) => Outcome::Value(**value),
            ValueOrSetter::Setter(_) => Outcome::Setter,
        }
    }

    /// The decision of the first check, which returned `seen`: a value that
    /// was seen ends the call and is its outcome; if none was seen, the call
    /// is not over and goes on to the lock.
    pub fn on_first_check(seen: Option<&'l T>) -> (settled: Option<Self>)
        ensures
            settled == (match seen {
                Some(value) => Some(ValueOrSetter::Value(value)),
                None => None,
            }),
            settled_outcome(settled) == first_check(seen_value(seen)),
    {
        match seen {
            Some(value) => Some(ValueOrSetter::Value(value)),
            None => None,
        }
    }

    /// The decision of the second check, which returned `seen` while
    /// `candidate` held the lock: a value that was seen is the outcome, and
    /// the candidate is dropped, which frees the lock; if none was seen, the
    /// candidate is the outcome, and the lock stays with it.
    pub fn on_second_check(seen: Option<&'l T>, candidate: Setter<'l, T>) -> (outcome: Self)
        ensures
            outcome == (match seen {
                Some(value) => ValueOrSetter::Value(value),
                None => ValueOrSetter::Setter(candidate),
            }),
            outcome@ == second_check(seen_value(seen)),
            outcome matches ValueOrSetter::Setter(setter) ==> setter.keeps_the_lock(),
    {
        proof {
            use_type_invariant(&candidate);
        }
        match seen {
            Some(value) => ValueOrSetter::Value(value),
            None => ValueOrSetter::Setter(candidate),
        }
    }
}

impl<T> Lazy<T> {
    /// Creates an empty cell: the flag is down, the slot is empty and
    /// nobody holds the lock.
    pub fn new() -> (cell: Self)
    {
        Lazy { is_initialized: AtomicBool::new(false), lock: new_lock(), value: new_slot() }
    }

    /// The value, if it has been published. Never takes the lock and never
    /// waits.
    ///
    /// The flag is loaded first, with acquire ordering, which pairs with the
    /// release store of [`Setter::set`]: a reader that finds the flag up
    /// finds the slot written. What is returned is what
    /// [`Lazy::reader_sees`] makes of the two reads.
    pub fn get(&self) -> (seen: Option<&T>)
    {
        let raised = self.is_initialized.load(Ordering::Acquire);
        let stored = read_slot(&self.value);
        Self::reader_sees(raised, stored)
    }

    /// What a reader returns who found the flag `raised` and, after that,
    /// the slot holding `stored`: under a raised flag what the slot holds,
    /// under a flag that is down nothing, whatever the slot holds by then.
    pub fn reader_sees<'a>(raised: bool, stored: Option<&'a T>) -> (seen: Option<&'a T>)
        ensures
            seen == (if raised {
                stored
            } else {
                None
            }),
            seen_value(seen) == published(raised, seen_value(stored)),
    {
        if raised {
            stored
        } else {
            None
        }
    }

    /// Asks for the value, or for the right to set it.
    ///
    /// A value that is already there is returned without touching the lock.
    /// Otherwise the returned future takes the lock, waiting its turn without
    /// blocking the thread, and looks again: a value that has arrived in the
    /// meantime is returned and the lock released, and if there is still
    /// none, the caller gets a [`Setter`], which goes on holding the lock.
    ///
    /// A setter that comes out is one for this cell, and it keeps this
    /// cell's lock.
    pub fn get_or_set<'l>(&'l self) -> (outcome: impl Future<Output = ValueOrSetter<'l, T>>)
        ensures
            outcome@ matches ValueOrSetter::Setter(setter) ==> setter.cell() == self
                && setter.keeps_the_lock(),
    {
        let seen = self.get();
        self.after_first_check(seen)
    }

    /// Goes on from the first check, which returned `seen`.
    ///
    /// A value that was seen is the outcome, at once. If none was seen, the
    /// outcome is what the second check decides once the lock is held.
    fn after_first_check<'l>(&'l self, seen: Option<&'l T>) -> (outcome: impl Future<
        Output = ValueOrSetter<'l, T>,
    >)
        ensures
            first_check(seen_value(seen)) matches Some(settled) ==> outcome@@ == settled,
            seen matches Some(value) ==> outcome@ == ValueOrSetter::Value(value),
            outcome@ matches ValueOrSetter::Setter(setter) ==> seen is None && setter.cell()
                == self && setter.keeps_the_lock(),
    {
        match ValueOrSetter::on_first_check(seen) {
            Some(settled) => or_left(std::future::ready(settled)),
            None => {
                let recheck = |guard: MutexGuard<'l, ()>| -> (outcome: ValueOrSetter<'l, T>)
                    requires
                        lock_of(guard) == self.lock,
                    ensures
                        outcome matches ValueOrSetter::Setter(setter) ==> setter.cell() == self
                            && setter.keeps_the_lock(),
                    { self.settle(guard) };
                or_right(and_then(acquire(&self.lock), recheck))
            },
        }
    }

    /// The second check, made with the lock held: the cell is read again,
    /// and a setter that comes out is this cell's and keeps `guard`.
    fn settle<'l>(&'l self, guard: MutexGuard<'l, ()>) -> (outcome: ValueOrSetter<'l, T>)
        requires
            lock_of(guard) == self.lock,
        ensures
            outcome matches ValueOrSetter::Setter(setter) ==> setter.cell() == self
                && setter.guard == guard && setter.keeps_the_lock(),
    {
        let seen = self.get();
        self.after_second_check(seen, guard)
    }

    /// Goes on from the second check, which returned `seen` while `guard`
    /// held the lock.
    ///
    /// The guard is put into a setter for this cell, and
    /// [`ValueOrSetter::on_second_check`] decides what becomes of it.
    fn after_second_check<'l>(&'l self, seen: Option<&'l T>, guard: MutexGuard<'l, ()>) -> (outcome:
        ValueOrSetter<'l, T>)
        requires
            lock_of(guard) == self.lock,
        ensures
            outcome@ == second_check(seen_value(seen)),
            seen matches Some(value) ==> outcome == ValueOrSetter::Value(value),
            outcome matches ValueOrSetter::Setter(setter) ==> setter.cell() == self
                && setter.guard == guard && setter.keeps_the_lock(),
    {
        ValueOrSetter::on_second_check(seen, Setter { parent: self, guard })
    }
}

impl<T> Default for Lazy<T> {
    fn default() -> (cell: Self)
    {
        Lazy::new()
    }
}

} // verus!
