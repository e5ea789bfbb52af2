//! Poisoning for a held lock: a flag recording that some holder of the
//! protected resource unwound while holding it, and the token protocol that
//! maintains the flag.
//!
//! The flag is advisory, not access-denying: an access while the flag is set
//! still succeeds, wrapped in an error that carries the usable guard.

use vstd::prelude::*;

verus! {

/// An error returned when a lock is acquired while its poison flag is set.
///
/// The error still carries the guard, so the caller may opt in to proceeding
/// despite the poisoning.
pub struct PoisonError<T> {
    guard: T,
}

impl<T> PoisonError<T> {
    /// Wraps a guard in a poison error.
    pub fn new(guard: T) -> (r: PoisonError<T>)
        ensures
            r.spec_guard() == guard,
    {
        PoisonError { guard }
    }

    /// Consumes this error, returning the underlying guard to allow access
    /// regardless of the poisoning.
    pub fn into_inner(self) -> (r: T)
        ensures
            r == self.spec_guard(),
    {
        self.guard
    }

    /// The guard carried by this error.
    pub closed spec fn spec_guard(self) -> T {
        self.guard
    }
}

/// The result of acquiring a poisonable lock: the guard, or the guard wrapped
/// in a [`PoisonError`] when the flag was set at acquisition time.
pub type PoisonLockResult<G> = Result<G, PoisonError<G>>;

/// The guard carried by a [`PoisonLockResult`], in either outcome.
pub open spec fn result_guard<T>(r: PoisonLockResult<T>) -> T {
    match r {
        Ok(t) => t,
        Err(e) => e.spec_guard(),
    }
}

/// Applies `f` to the guard carried by `result`, preserving the poisoned /
/// clean outcome.
pub fn map_result<T, U, F>(result: PoisonLockResult<T>, f: F) -> (r: PoisonLockResult<U>) where
    F: FnOnce(T) -> U,

    requires
        call_requires(f, (result_guard(result),)),
    ensures
        r is Ok <==> result is Ok,
        call_ensures(f, (result_guard(result),), result_guard(r)),
{
    match result {
        Ok(x) => Ok(f(x)),
        Err(err) => Err(PoisonError::new(f(err.into_inner()))),
    }
}

/// What the flag reads after a token is returned: set if it was set before,
/// or if the holder was not unwinding when the token was taken but is
/// unwinding now.
pub open spec fn done_next(failed: bool, taken_unwinding: bool, now_unwinding: bool) -> bool {
    failed || (!taken_unwinding && now_unwinding)
}

/// The poison flag of one protected resource.
///
/// It is set when a holder that was *not* already unwinding when it took its
/// token *is* unwinding when the token is returned. It can be cleared
/// explicitly, and it never changes otherwise.
pub struct Flag {
    failed: bool,
}

/// A token handed to each holder of the protected resource, recording whether
/// the holding thread was already unwinding at acquisition time.
#[derive(Clone, Copy)]
pub struct Guard {
    panicking: bool,
}

impl Guard {
    /// Whether the holding thread was already unwinding when this token was
    /// taken.
    pub closed spec fn spec_panicking(self) -> bool {
        self.panicking
    }
}

impl Flag {
    /// Whether the flag is set.
    pub closed spec fn spec_failed(self) -> bool {
        self.failed
    }

    /// A fresh, unset flag.
    pub fn new() -> (r: Flag)
        ensures
            !r.spec_failed(),
    {
        Flag { failed: false }
    }

    /// A flag reading as some external account reported it — for running the
    /// token protocol against a flag kept elsewhere (here: by the backing
    /// lock).
    pub fn observed(failed: bool) -> (r: Flag)
        ensures
            r.spec_failed() == failed,
    {
        Flag { failed }
    }

    /// Takes a token at acquisition time.
    ///
    /// `panicking` says whether the calling thread is currently unwinding; on
    /// a host without stack-unwinding support it is always `false`. The token
    /// records it. If the flag is already set the token comes wrapped in a
    /// [`PoisonError`], but it is usable either way: poisoning is advisory.
    pub fn guard(&self, panicking: bool) -> (r: PoisonLockResult<Guard>)
        ensures
            r is Ok <==> !self.spec_failed(),
            result_guard(r).spec_panicking() == panicking,
    {
        let ret = Guard { panicking };
        if self.get() {
            Err(PoisonError::new(ret))
        } else {
            Ok(ret)
        }
    }

    /// Returns a token at release time, exactly once per token.
    ///
    /// `panicking` says whether the calling thread is unwinding now. The flag
    /// becomes set permanently if the holder was not unwinding when the token
    /// was taken but is unwinding now; it is never cleared here.
    pub fn done(&mut self, guard: Guard, panicking: bool)
        ensures
            final(self).spec_failed() == done_next(
                old(self).spec_failed(),
                guard.spec_panicking(),
                panicking,
            ),
    {
        if !guard.panicking && panicking {
            self.failed = true;
        }
    }

    /// Observes the flag.
    pub fn get(&self) -> (r: bool)
        ensures
            r == self.spec_failed(),
    {
        self.failed
    }

    /// Resets the flag.
    pub fn clear(&mut self)
        ensures
            !final(self).spec_failed(),
    {
        self.failed = false;
    }
}

/// An access whose holder was not unwinding at acquisition and is unwinding
/// at release leaves the flag set, whatever it read before — and the next
/// acquisition then observes the poisoning, until the flag is cleared.
pub proof fn lemma_unwind_poisons(failed: bool)
    ensures
        done_next(failed, false, true),
{
}

/// The flag is monotone under the token protocol: returning a token never
/// clears it; only an explicit clear does.
pub proof fn lemma_done_monotone(failed: bool, taken_unwinding: bool, now_unwinding: bool)
    ensures
        failed ==> done_next(failed, taken_unwinding, now_unwinding),
{
}

/// A holder that was already unwinding when it took its token never sets the
/// flag, and neither does one that releases without unwinding: a clean flag
/// stays clean across such accesses.
pub proof fn lemma_clean_access_keeps_clean(taken_unwinding: bool, now_unwinding: bool)
    requires
        taken_unwinding || !now_unwinding,
    ensures
        done_next(false, taken_unwinding, now_unwinding) == false,
{
}

} // verus!
