//! A lazily-initialized, mutex-protected value.
//!
//! The protected value is produced on first access by a one-shot initializer,
//! guarded thereafter by mutual exclusion, with poisoning semantics: an
//! initializer that fails mid-run leaves the cell permanently poisoned, while
//! a holder that unwinds during a later access sets a recoverable, clearable
//! poison flag.
//!
//! The one-shot state machine ([`InitState`]) and everything decided about its
//! transitions is verified; the blocking lock that arbitrates access to it is
//! a standard mutex behind a handful of trusted wrappers.

use vstd::prelude::*;

pub mod poison;
pub mod raw_lock;

use crate::poison::PoisonError;

verus! {

/// The tagged state of the one-shot initialization machine.
///
/// Transitions are one-way: `Uninit` may become `Init` (the initializer
/// returned a value) or `Poisoned` (the initializer was removed and never
/// replaced by a value: it failed mid-run); once `Init` or `Poisoned` the
/// state never changes again.
pub enum InitState<T, F> {
    /// The initializer has not run yet; it is stored here.
    Uninit(F),
    /// The initializer ran to completion and produced this value.
    Init(T),
    /// Terminal: initialization failed.
    Poisoned,
}

/// The invariant on every state stored in a cell: a stored initializer may be
/// called. Constructors demand it, so the forcing step may rely on it.
pub open spec fn callable<T, F: FnOnce() -> T>(s: InitState<T, F>) -> bool {
    s matches InitState::Uninit(f) ==> call_requires(f, ())
}

/// Initialization has failed before: the state is `Poisoned`, no value can
/// ever be produced, and no initializer is left to return.
pub struct InitPoisonedError;

/// The transition relation of one forced-access step on the state machine:
/// `Init` is stable, `Uninit` runs its initializer and commits the produced
/// value, `Poisoned` is terminal and yields nothing.
pub open spec fn force_step<T, F: FnOnce() -> T>(
    pre: InitState<T, F>,
    post: Result<InitState<T, F>, InitPoisonedError>,
) -> bool {
    &&& (post is Err <==> pre is Poisoned)
    &&& (pre is Init ==> post == Ok::<InitState<T, F>, InitPoisonedError>(pre))
    &&& (pre matches InitState::Uninit(f) ==> post matches Ok(s) && s matches InitState::Init(v)
        && call_ensures(f, (), v))
}

impl<T, F: FnOnce() -> T> InitState<T, F> {
    /// One forced-access step: runs the initializer if it has not run yet.
    ///
    /// The caller is expected to hold the state under mutual exclusion, to
    /// have left `Poisoned` in its place before calling, and to commit the
    /// returned state afterwards: should the initializer fail mid-run, the
    /// stored state then durably reads `Poisoned` rather than re-entrant or
    /// torn.
    pub fn force(self) -> (r: Result<InitState<T, F>, InitPoisonedError>)
        requires
            callable(self),
        ensures
            force_step(self, r),
    {
        match self {
            InitState::Init(v) => Ok(InitState::Init(v)),
            InitState::Uninit(f) => Ok(InitState::Init(f())),
            InitState::Poisoned => Err(InitPoisonedError),
        }
    }

    /// Whether this is the terminal state left by a failed initializer.
    pub fn is_poisoned(&self) -> (r: bool)
        ensures
            r == (self is Poisoned),
    {
        match self {
            InitState::Poisoned => true,
            _ => false,
        }
    }
}

/// The advisory poison answer: a cell counts as poisoned exactly when
/// initialization failed (the state is terminal) or the flag recording an
/// unwound holder is set.
pub fn poison_status(init_failed: bool, flag_set: bool) -> (r: bool)
    ensures
        r == (init_failed || flag_set),
{
    init_failed || flag_set
}

/// What consuming a cell extracts from it.
pub enum IntoInner<T, F> {
    /// The cell had been initialized; this is the protected value.
    Value(T),
    /// The cell had never been forced; this is the original initializer.
    Initializer(F),
    /// Initialization had failed; there is nothing to return.
    Poisoned,
}

/// Maps a final state to what consuming the cell returns: the value if
/// `Init`, the initializer if `Uninit`, nothing if `Poisoned`.
pub fn state_into_inner<T, F>(state: InitState<T, F>) -> (r: IntoInner<T, F>)
    ensures
        state matches InitState::Init(v) ==> r == IntoInner::<T, F>::Value(v),
        state matches InitState::Uninit(f) ==> r == IntoInner::<T, F>::Initializer(f),
        state is Poisoned ==> r is Poisoned,
{
    match state {
        InitState::Init(v) => IntoInner::Value(v),
        InitState::Uninit(f) => IntoInner::Initializer(f),
        InitState::Poisoned => IntoInner::Poisoned,
    }
}

/// The shared Init-to-value dispatch: the protected value, exactly when the
/// state is `Init`, and exactly that value.
pub fn state_value<'b, T, F: FnOnce() -> T>(s: &'b InitState<T, F>) -> (r: Option<&'b T>)
    ensures
        r is Some <==> s is Init,
        s matches InitState::Init(v) ==> r matches Some(u) && u == v,
{
    match s {
        InitState::Init(v) => Some(v),
        _ => None,
    }
}

/// The exclusive Init-to-value dispatch: a mutable borrow of the protected
/// value, exactly when the state is `Init`; whatever is written through it is
/// the `Init` state's value afterwards, and a state that is not `Init` is
/// left untouched.
pub fn state_value_mut<'b, T, F: FnOnce() -> T>(s: &'b mut InitState<T, F>) -> (r: Option<
    &'b mut T,
>)
    ensures
        r is Some <==> *old(s) is Init,
        (*old(s)) matches InitState::Init(v) ==> r matches Some(u) && *u == v,
        r matches Some(u) ==> *final(s) == InitState::<T, F>::Init(*final(u)),
        r is None ==> *final(s) == *old(s),
{
    match s {
        InitState::Init(v) => Some(v),
        _ => None,
    }
}

/// `Init` is stable: a forced-access step returns an `Init` state unchanged.
pub proof fn lemma_force_preserves_init<T, F: FnOnce() -> T>(
    pre: InitState<T, F>,
    post: Result<InitState<T, F>, InitPoisonedError>,
)
    requires
        pre is Init,
        force_step(pre, post),
    ensures
        post == Ok::<InitState<T, F>, InitPoisonedError>(pre),
{
}

/// `Poisoned` is terminal: a forced-access step from it fails, and never
/// yields a state to commit.
pub proof fn lemma_force_poisoned_terminal<T, F: FnOnce() -> T>(
    pre: InitState<T, F>,
    post: Result<InitState<T, F>, InitPoisonedError>,
)
    requires
        pre is Poisoned,
        force_step(pre, post),
    ensures
        post is Err,
{
}

/// Transitions are one-way: whatever a successful forced-access step commits
/// is `Init`, so no step ever leads back to `Uninit`, and a later step
/// returns the same state unchanged.
pub proof fn lemma_force_settles<T, F: FnOnce() -> T>(
    pre: InitState<T, F>,
    post: Result<InitState<T, F>, InitPoisonedError>,
)
    requires
        force_step(pre, post),
    ensures
        post matches Ok(s) ==> s is Init,
        post matches Ok(s) ==> forall|later: Result<InitState<T, F>, InitPoisonedError>|
            force_step(s, later) ==> later == Ok::<InitState<T, F>, InitPoisonedError>(s),
{
}

#[verifier::external_type_specification]
#[verifier::external_body]
#[verifier::reject_recursive_types(T)]
pub struct ExStdMutex<T: ?Sized>(std::sync::Mutex<T>);

#[verifier::external_type_specification]
#[verifier::external_body]
#[verifier::reject_recursive_types(T)]
pub struct ExStdMutexGuard<'a, T: ?Sized + 'a>(std::sync::MutexGuard<'a, T>);

/// Relies on `std::sync::Mutex::new`: wraps the given state in a fresh,
/// unlocked, unpoisoned mutex.
#[verifier::external_body]
fn state_mutex_new<T, F: FnOnce() -> T>(s: InitState<T, F>) -> (r: std::sync::Mutex<
    InitState<T, F>,
>)
    requires
        callable(s),
{
    std::sync::Mutex::new(s)
}

/// Relies on `std::sync::Mutex::lock`: blocks until the calling thread has
/// exclusive access, then returns the guard. A poisoned lock (some holder
/// unwound while holding the guard) still hands the guard out, through
/// `std::sync::PoisonError::into_inner`; the flag is reported in the second
/// component.
#[verifier::external_body]
fn state_mutex_lock<'a, T, F: FnOnce() -> T>(m: &'a std::sync::Mutex<InitState<T, F>>) -> (r: (
    std::sync::MutexGuard<'a, InitState<T, F>>,
    bool,
))
{
    match m.lock() {
        Ok(g) => (g, false),
        Err(e) => (e.into_inner(), true),
    }
}

/// Relies on `std::sync::MutexGuard`'s `DerefMut`: exclusive access to the
/// stored state, for as long as the guard is held. The stored state satisfies
/// [`callable`]: the only functions that store one are `state_mutex_new` and
/// the verified code writing through this borrow, and every stored
/// initializer came in through a constructor that demands it.
#[verifier::external_body]
fn guard_state_mut<'a, 'b, T, F: FnOnce() -> T>(
    g: &'b mut std::sync::MutexGuard<'a, InitState<T, F>>,
) -> (r: &'b mut InitState<T, F>)
    ensures
        callable(*r),
{
    &mut **g
}

/// Relies on `std::sync::MutexGuard`'s `Deref`: shared access to the stored
/// state, for as long as the guard is held.
#[verifier::external_body]
fn guard_state_ref<'a, 'b, T, F: FnOnce() -> T>(
    g: &'b std::sync::MutexGuard<'a, InitState<T, F>>,
) -> (r: &'b InitState<T, F>)
    ensures
        callable(*r),
{
    &**g
}

/// Relies on `std::sync::Mutex::into_inner`: consumes the mutex and returns
/// the stored state; ownership implies no locking is needed. A poison flag is
/// ignored here, as consuming the cell bypasses the flag.
#[verifier::external_body]
fn state_mutex_into_inner<T, F: FnOnce() -> T>(m: std::sync::Mutex<InitState<T, F>>) -> (r:
    InitState<T, F>)
    ensures
        callable(r),
{
    match m.into_inner() {
        Ok(s) => s,
        Err(e) => e.into_inner(),
    }
}

/// Relies on `std::sync::Mutex::clear_poison`: resets the flag recording that
/// a holder unwound while holding the guard.
#[verifier::external_body]
fn state_mutex_clear_poison<T, F: FnOnce() -> T>(m: &std::sync::Mutex<InitState<T, F>>) {
    m.clear_poison()
}

/// Alternative to a lazy-lock around a mutex, with only a single
/// synchronization step: one blocking lock guards both the one-shot
/// initialization and every later access to the value.
#[verifier::reject_recursive_types(T)]
#[verifier::reject_recursive_types(F)]
pub struct LazyMut<T, F: FnOnce() -> T> {
    state: std::sync::Mutex<InitState<T, F>>,
}

/// An RAII guard of exclusive access to the protected value of a [`LazyMut`].
/// When it is dropped (falls out of scope), the lock is unlocked; if the
/// holding thread is unwinding at that point, the cell's poison flag becomes
/// set.
///
/// The protected value is reached through [`value`](LazyMutGuard::value) and
/// [`value_mut`](LazyMutGuard::value_mut).
#[must_use]
#[verifier::reject_recursive_types(T)]
#[verifier::reject_recursive_types(F)]
pub struct LazyMutGuard<'a, T, F: FnOnce() -> T> {
    raw: std::sync::MutexGuard<'a, InitState<T, F>>,
    poison_guard: poison::Guard,
}

/// Why a fallible access did not return a clean guard.
pub enum TryGetError<G> {
    /// A previous holder unwound while holding the guard. Advisory: the
    /// access itself succeeded, and the error carries the usable guard.
    Poisoned(PoisonError<G>),
    /// The initializer failed mid-run. Terminal: no access can ever succeed,
    /// and [`LazyMut::clear_mutex_poison`] does not change this.
    PoisonedInit,
}

impl<'a, T, F: FnOnce() -> T> LazyMutGuard<'a, T, F> {
    /// The poison token captured at construction. This layer performs no
    /// unwind detection, so every acquisition is recorded as not-unwinding
    /// (the token reads false); the release-side unwind accounting lives with
    /// the backing lock's own guard.
    pub closed spec fn spec_poison_guard(self) -> poison::Guard {
        self.poison_guard
    }

    /// Shared access to the protected value, through the contracted
    /// [`state_value`] dispatch on the stored state.
    ///
    /// A guard is only handed out once the state was read as `Init`, and the
    /// state does not change while the guard holds the lock — so in practice
    /// `None` does not come out. That rests on the trusted lock: the stored
    /// state cannot be named in a contract here, only the dispatch on it.
    pub fn value<'b>(&'b self) -> Option<&'b T> {
        state_value(guard_state_ref(&self.raw))
    }

    /// Exclusive access to the protected value, through the contracted
    /// [`state_value_mut`] dispatch on the stored state.
    ///
    /// As for [`value`](LazyMutGuard::value), `None` does not come out in
    /// practice, on the strength of the trusted lock. Writes through the
    /// returned borrow stay inside the `Init` state, as the dispatch's
    /// contract states.
    pub fn value_mut<'b>(&'b mut self) -> Option<&'b mut T> {
        state_value_mut(guard_state_mut(&mut self.raw))
    }
}

/// Finishes a fallible access on a confirmed-initialized state: takes the
/// access's poison token against the flag the lock reported, and dispatches —
/// the clean guard exactly when the flag was unset, else the poisoned error,
/// carrying the same, still-usable guard (poisoning is advisory, not
/// access-denying). The terminal error never comes out of here. The token
/// records the acquisition as not-unwinding — the model's choice, this layer
/// having no unwind detection; the release-side accounting is the backing
/// lock's.
fn finish_access<'a, T, F: FnOnce() -> T>(
    raw: std::sync::MutexGuard<'a, InitState<T, F>>,
    was_poisoned: bool,
) -> (r: Result<LazyMutGuard<'a, T, F>, TryGetError<LazyMutGuard<'a, T, F>>>)
    ensures
        r is Ok <==> !was_poisoned,
        was_poisoned <==> r matches Err(TryGetError::Poisoned(_)),
        r matches Ok(g) ==> !g.spec_poison_guard().spec_panicking(),
        r matches Err(TryGetError::Poisoned(e)) ==> !e.spec_guard().spec_poison_guard().spec_panicking(),
{
    let flag = poison::Flag::observed(was_poisoned);
    match flag.guard(false) {
        Ok(tok) => Ok(LazyMutGuard { raw, poison_guard: tok }),
        Err(e) => {
            let tok = e.into_inner();
            Err(TryGetError::Poisoned(PoisonError::new(LazyMutGuard { raw, poison_guard: tok })))
        },
    }
}

impl<T, F: FnOnce() -> T> LazyMut<T, F> {
    /// Creates a new cell with the provided initialization function. The
    /// initializer does not run here; nothing is allocated for the lock
    /// beyond the mutex itself.
    pub fn new(f: F) -> LazyMut<T, F>
        requires
            call_requires(f, ()),
    {
        LazyMut { state: state_mutex_new(InitState::Uninit(f)) }
    }

    /// Forces initialization if it has not happened yet and returns a guard
    /// of exclusive, mutable access to the protected value.
    ///
    /// Blocks until the lock is acquired. If the state is `Uninit`, the
    /// initializer runs here, under the lock, exactly once across all
    /// threads: the state is first overwritten with `Poisoned` (so that an
    /// initializer failing mid-run leaves the cell durably poisoned, and the
    /// failure propagates to this caller), and the produced value is
    /// committed only on successful return, as [`force_step`] states.
    ///
    /// # Errors
    /// [`TryGetError::PoisonedInit`] if a previous initializer failed;
    /// [`TryGetError::Poisoned`] — still carrying the usable guard — if a
    /// previous holder unwound while holding the guard.
    pub fn try_get_mut<'a>(&'a self) -> (r: Result<
        LazyMutGuard<'a, T, F>,
        TryGetError<LazyMutGuard<'a, T, F>>,
    >)
        ensures
            r matches Ok(g) ==> !g.spec_poison_guard().spec_panicking(),
            r matches Err(TryGetError::Poisoned(e)) ==> !e.spec_guard().spec_poison_guard().spec_panicking(),
    {
        let (mut raw, was_poisoned) = state_mutex_lock(&self.state);
        let needs_init = match guard_state_ref(&raw) {
            InitState::Uninit(_) => true,
            InitState::Init(_) => false,
            InitState::Poisoned => {
                return Err(TryGetError::PoisonedInit);
            },
        };
        if needs_init {
            let slot = guard_state_mut(&mut raw);
            let mut taken = InitState::Poisoned;
            core::mem::swap(slot, &mut taken);
            match taken.force() {
                Ok(next) => {
                    let slot = guard_state_mut(&mut raw);
                    let mut back = next;
                    core::mem::swap(slot, &mut back);
                },
                Err(_) => {
                    return Err(TryGetError::PoisonedInit);
                },
            }
        }
        finish_access(raw, was_poisoned)
    }

    /// Consumes the cell and extracts what it holds: the value if
    /// initialized, the original initializer if never forced, nothing if
    /// initialization failed. Ownership implies exclusivity, so no locking
    /// happens, and a set poison flag is bypassed.
    pub fn into_inner(self) -> (r: IntoInner<T, F>)
        ensures
            r matches IntoInner::Initializer(f) ==> call_requires(f, ()),
    {
        let state = state_mutex_into_inner(self.state);
        state_into_inner(state)
    }

    /// Whether the cell is poisoned: either initialization failed, or some
    /// holder unwound while holding the guard. If another thread is active
    /// the cell can still become poisoned at any time; a `false` answer is
    /// advisory and must not be trusted for correctness without additional
    /// synchronization.
    pub fn is_poisoned(&self) -> bool {
        let (raw, was_poisoned) = state_mutex_lock(&self.state);
        let init_failed = guard_state_ref(&raw).is_poisoned();
        poison_status(init_failed, was_poisoned)
    }

    /// Clears the flag recording that a holder unwound while holding the
    /// guard, marking the cell as recovered. The terminal state left by a
    /// failed initializer is never cleared.
    pub fn clear_mutex_poison(&self) {
        state_mutex_clear_poison(&self.state)
    }
}

} // verus!


