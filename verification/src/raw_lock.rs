//! An adapter that turns a backing blocking lock which only exposes
//! scope-bound acquisition (acquire returns a releasing handle) into a raw
//! lock contract with independent acquire, release and query operations.
//!
//! The backing lock is pinned at a fixed address for the adapter's entire
//! lifetime, so the scope guard it hands out can be kept in an out-of-band
//! slot, surviving past the call that produced it; destroying the stored
//! guard in place is what releases the lock.

use vstd::prelude::*;

verus! {

/// A raw lock with independent `lock`, `try_lock`, `unlock` and `is_locked`
/// operations, built over a blocking lock that only offers scope-bound
/// locking: a call that blocks and returns a handle whose destruction
/// unlocks.
///
/// The backing lock lives at a fixed, leaked address; while the adapter is
/// locked, the scope guard produced by the backing lock sits in a slot of its
/// own, guarded by a second, only briefly held lock.
#[verifier::external_body]
pub struct RawStdMutex {
    backing: &'static parking_lot::Mutex<()>,
    slot: parking_lot::Mutex<Option<parking_lot::MutexGuard<'static, ()>>>,
}

impl RawStdMutex {
    /// Relies on `parking_lot::Mutex::new` and `Box::leak`: a fresh, unlocked
    /// backing lock, pinned at a fixed address for the adapter's entire
    /// lifetime, and an empty guard slot.
    #[verifier::external_body]
    pub fn new() -> RawStdMutex {
        RawStdMutex {
            backing: Box::leak(Box::new(parking_lot::Mutex::new(()))),
            slot: parking_lot::Mutex::new(None),
        }
    }

    /// Acquires the lock, blocking the calling thread until it is able to do
    /// so.
    ///
    /// Relies on `parking_lot::Mutex::lock`: it blocks until the backing lock
    /// is available and returns its scope guard, which is stored in the slot
    /// until [`unlock`](RawStdMutex::unlock). The backing lock is not
    /// re-entrant: a thread that already holds it deadlocks here.
    #[verifier::external_body]
    pub fn lock(&self) {
        let g = self.backing.lock();
        *self.slot.lock() = Some(g);
    }

    /// Attempts to acquire the lock without blocking; `true` means acquired.
    ///
    /// Relies on `parking_lot::Mutex::try_lock`: it returns the scope guard
    /// only if the backing lock could be acquired at this time, and does not
    /// block. On success the guard is stored as in
    /// [`lock`](RawStdMutex::lock).
    #[verifier::external_body]
    pub fn try_lock(&self) -> bool {
        match self.backing.try_lock() {
            Some(g) => {
                *self.slot.lock() = Some(g);
                true
            },
            None => false,
        }
    }

    /// Releases the lock: destroys the stored scope guard in place, which
    /// unlocks the backing lock.
    ///
    /// The caller is expected to have matched this with a prior
    /// [`lock`](RawStdMutex::lock) or successful
    /// [`try_lock`](RawStdMutex::try_lock) on this instance; unmatched, the
    /// slot is already empty and nothing happens.
    ///
    /// Relies on `parking_lot::MutexGuard`'s destructor, run by overwriting
    /// the slot.
    #[verifier::external_body]
    pub fn unlock(&self) {
        *self.slot.lock() = None;
    }

    /// Whether the lock is currently held, by anyone. Best-effort and racy:
    /// the answer can be stale the instant it returns.
    ///
    /// Relies on `parking_lot::Mutex::is_locked` on the backing lock.
    #[verifier::external_body]
    pub fn is_locked(&self) -> bool {
        self.backing.is_locked()
    }
}

} // verus!
