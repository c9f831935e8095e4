//! The primitives the cell is built from.
//!
//! Nothing in this file is proved. Each item names the function it stands
//! for and says what is believed of it.
//!
//! The slot and the lock change under a shared reference while other tasks
//! run, so what a read of them returns is not a function of the arguments:
//! the items that read them promise nothing about the result. What is
//! believed of a future is said of the value it completes with, written `@`.
use vstd::prelude::*;
use vstd::future::FutureAdditionalSpecFns;
use std::future::Future;
use std::future::Ready;
use std::sync::OnceLock;
use futures::future::Either;
use futures::lock::Mutex;
use futures::lock::MutexGuard;

verus! {

/// `futures::lock::Mutex`, the lock whose acquisition suspends the task
/// instead of blocking the thread. Opaque.
#[verifier::external_type_specification]
#[verifier::external_body]
#[verifier::reject_recursive_types(T)]
pub struct ExMutex<T: ?Sized>(Mutex<T>);

/// `futures::lock::MutexGuard`, which keeps the lock held until it is
/// dropped. Opaque.
#[verifier::external_type_specification]
#[verifier::external_body]
#[verifier::reject_recursive_types(T)]
pub struct ExMutexGuard<'a, T: ?Sized>(MutexGuard<'a, T>);

/// `std::sync::OnceLock`, storage that is written through a shared
/// reference, once. Opaque.
#[verifier::external_type_specification]
#[verifier::external_body]
#[verifier::reject_recursive_types(T)]
pub struct ExOnceLock<T>(OnceLock<T>);

/// `std::future::Ready`, a future that is complete from the start. Opaque.
#[verifier::external_type_specification]
#[verifier::external_body]
#[verifier::reject_recursive_types(T)]
pub struct ExReady<T>(Ready<T>);

/// `futures::future::Either`, one of two futures with the same output.
/// Opaque.
#[verifier::external_type_specification]
#[verifier::external_body]
#[verifier::reject_recursive_types(A)]
#[verifier::reject_recursive_types(B)]
pub struct ExEither<A, B>(Either<A, B>);

/// The lock that a guard keeps held. A guard is made for one lock and stays
/// with it.
pub uninterp spec fn lock_of(guard: MutexGuard<'_, ()>) -> Mutex<()>;

/// `futures::lock::Mutex::new` on the unit value: a lock that nobody holds.
#[verifier::external_body]
pub(crate) fn new_lock() -> (lock: Mutex<()>)
{
    Mutex::new(())
}

/// `futures::lock::Mutex::lock`: a future that completes, once the lock is
/// free, with a guard of this very lock. Until then it yields to other
/// tasks; dropping it gives up the wait.
#[verifier::external_body]
pub(crate) fn acquire<'l>(lock: &'l Mutex<()>) -> (pending: impl Future<Output = MutexGuard<'l, ()>>)
    ensures
        lock_of(pending@) == *lock,
{
    lock.lock()
}

/// `std::sync::OnceLock::new`: storage with nothing in it.
#[verifier::external_body]
pub(crate) fn new_slot<T>() -> (slot: OnceLock<T>)
{
    OnceLock::new()
}

/// `std::sync::OnceLock::get`: the stored value, if one has been written.
/// What comes back depends on what other tasks have done, so nothing is
/// claimed of it.
#[verifier::external_body]
pub(crate) fn read_slot<'l, T>(slot: &'l OnceLock<T>) -> (stored: Option<&'l T>)
{
    slot.get()
}

/// `std::sync::OnceLock::get_or_init` with a closure that yields `value`:
/// writes `value` if nothing was stored, and returns what is stored
/// afterwards. Whether the write took place depends on what the slot held,
/// so nothing is claimed of the result.
#[verifier::external_body]
pub(crate) fn write_slot<'l, T>(slot: &'l OnceLock<T>, value: T) -> (stored: &'l T)
{
    slot.get_or_init(move || value)
}

/// `std::future::ready`: a future that completes with `t`.
pub assume_specification<T>[ std::future::ready::<T> ](t: T) -> (now: Ready<T>)
    ensures
        now@ == t,
;

/// `futures::FutureExt::map`: a future that completes with what `then`
/// returns for the value that `first` completes with. `then` is called
/// once, on that value.
#[verifier::external_body]
pub(crate) fn and_then<Fut: Future, U, F: FnOnce(Fut::Output) -> U>(first: Fut, then: F) -> (whole:
    impl Future<Output = U>)
    requires
        then.requires((first@,)),
    ensures
        then.ensures((first@,), whole@),
{
    futures::FutureExt::map(first, then)
}

/// `futures::FutureExt::left_future`: the future `first`, typed as the left
/// one of two. It completes with what `first` completes with.
#[verifier::external_body]
pub(crate) fn or_left<A: Future, B: Future<Output = A::Output>>(first: A) -> (either: Either<A, B>)
    ensures
        either@ == first@,
{
    futures::FutureExt::left_future(first)
}

/// `futures::FutureExt::right_future`: the future `second`, typed as the
/// right one of two. It completes with what `second` completes with.
#[verifier::external_body]
pub(crate) fn or_right<A: Future, B: Future<Output = A::Output>>(second: B) -> (either: Either<
    A,
    B,
>)
    ensures
        either@ == second@,
{
    futures::FutureExt::right_future(second)
}

} // verus!
