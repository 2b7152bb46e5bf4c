//! The one lock that every call into the backend passes through.
//!
//! The backend keeps hidden global state, so a process must share a
//! single [`BackendLock`] among all callers. The dispatcher hands every
//! entry point a [`BackendAccess`], and the only way to one is to ask a
//! lock for it. That two holders never have an access of one lock at
//! the same time is what the mutex inside provides; it is taken on
//! trust from std.
//!
//! Asking never waits. A caller that has to wait for the lock asks
//! again until it is answered; the waiting is the caller's, so that
//! nothing here can fail to return.

use once_cell::sync::OnceCell;
use std::sync::{Mutex, MutexGuard, TryLockError};
use vstd::prelude::*;

verus! {

/// `once_cell::sync::OnceCell`, carried as an opaque value.
#[verifier::external_type_specification]
#[verifier::external_body]
#[verifier::reject_recursive_types(T)]
pub struct ExOnceCell<T>(OnceCell<T>);

/// `std::sync::Mutex`, carried as an opaque value.
#[verifier::external_type_specification]
#[verifier::external_body]
#[verifier::reject_recursive_types(T)]
pub struct ExMutex<T: ?Sized>(Mutex<T>);

/// `std::sync::MutexGuard`, carried as an opaque value.
#[verifier::external_type_specification]
#[verifier::external_body]
#[verifier::reject_recursive_types(T)]
pub struct ExMutexGuard<'a, T: ?Sized + 'a>(MutexGuard<'a, T>);

/// `OnceCell::new` makes an empty cell. Nothing is claimed of it.
pub assume_specification<T>[ OnceCell::<T>::new ]() -> OnceCell<T>;

/// `OnceCell::get_or_init`, with [`unlocked`] as the initialiser: fills
/// an empty cell with a new mutex and hands out the mutex the cell
/// holds. The initialiser does not touch the cell, so the call comes
/// back. Nothing is claimed of the mutex handed out: the cell may have
/// been filled by an earlier call.
#[verifier::external_body]
fn mutex_in(cell: &OnceCell<Mutex<()>>) -> &Mutex<()> {
    cell.get_or_init(unlocked)
}

/// `Mutex::new` makes an unlocked mutex. Nothing is claimed of it.
pub assume_specification<T>[ Mutex::<T>::new ](t: T) -> Mutex<T>;

/// `Mutex::try_lock` does not block: it hands out the guard when the
/// mutex is free, and says why not when it is held, by this thread or
/// by another, or poisoned. The
/// two variants of std's error are passed on one for one. Which result
/// comes back depends on what other threads do, so nothing is claimed
/// of it.
#[verifier::external_body]
fn try_lock<'a>(mutex: &'a Mutex<()>) -> Result<MutexGuard<'a, ()>, Refusal> {
    match mutex.try_lock() {
        Ok(guard) => Ok(guard),
        Err(TryLockError::WouldBlock) => Err(Refusal::WouldBlock),
        Err(TryLockError::Poisoned(_)) => Err(Refusal::Poisoned),
    }
}

/// Why the lock could not be handed out.
#[derive(Debug, Clone, Copy, PartialEq, Eq)]
pub enum LockError {
    /// An earlier holder panicked while it held the lock, so the state
    /// of the backend is unknown.
    Poisoned,
}

/// Why a mutex did not hand out its guard at once.
enum Refusal {
    /// Another holder has it.
    WouldBlock,
    /// An earlier holder panicked.
    Poisoned,
}

/// The lock that serialises every call into the backend.
///
/// The mutex inside is made when the lock is first asked for and lives
/// as long as the value does.
pub struct BackendLock {
    cell: OnceCell<Mutex<()>>,
}

/// Proof of holding a lock: the guard of its mutex, and the lock it
/// was taken from. While a value of this type is alive, std's mutex
/// hands no other caller an access of the same [`BackendLock`].
pub struct BackendAccess<'a> {
    guard: MutexGuard<'a, ()>,
    from: &'a BackendLock,
}

/// What the cell is filled with on first use.
fn unlocked() -> Mutex<()> {
    Mutex::new(())
}

impl BackendLock {
    /// A lock that nobody holds. The mutex is not made yet.
    pub fn new() -> BackendLock {
        BackendLock { cell: OnceCell::new() }
    }

    /// Hands out an access of this lock if it is free right now, and
    /// `None` when it is held. It never waits: a caller that asks again
    /// while it still holds an access is told `None` like anyone else.
    ///
    /// Whether the lock is held or poisoned depends on what other
    /// callers did, so each of the three answers is possible on every
    /// call.
    pub fn try_acquire(&self) -> (r: Result<Option<BackendAccess<'_>>, LockError>)
        ensures
            r matches Ok(Some(access)) ==> access.lock() == self,
    {
        let mutex = mutex_in(&self.cell);
        match try_lock(mutex) {
            Ok(guard) => Ok(Some(BackendAccess { guard, from: self })),
            Err(Refusal::WouldBlock) => Ok(None),
            Err(Refusal::Poisoned) => Err(LockError::Poisoned),
        }
    }
}

impl<'a> BackendAccess<'a> {
    /// The lock this access was taken from.
    pub closed spec fn lock(&self) -> &BackendLock {
        self.from
    }

    /// The lock this access was taken from.
    pub fn held_lock(&self) -> (lock: &'a BackendLock)
        ensures
            lock == self.lock(),
    {
        self.from
    }

    /// Gives the lock back, so that the next caller can proceed. The
    /// guard ends here, and with it the hold on the mutex.
    pub fn release(self) {
    }
}

} // verus!
