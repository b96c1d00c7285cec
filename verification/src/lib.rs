//! Ergonomic, contract-checked accessors for state that is shared between
//! several owners and guarded by a mutual-exclusion lock.
//!
//! The library attaches two capabilities to reference-counted lock handles:
//! uniform blocking and non-blocking access through a caller-supplied closure
//! (`WithLock`), and clone-on-read convenience access for duplicable values
//! (`ArcMutexClone`). Each handle carries a static invariant, chosen when the
//! protected value is first stored: every closure run under the lock may
//! assume it of the value it finds and must leave a value that satisfies it
//! again, and that is exactly what a caller learns about a completed call —
//! which value the lock hands over is decided at run time by the other
//! holders of the same cell.
//!
//! Before sharing begins there are no other holders: a fresh cell's one
//! handle (`ExclusiveHandle`) tracks the protected value exactly, its
//! accessors carry exact contracts, and `into_shared` hands the cell over
//! to the invariant-governed shared handles when sharing starts.

use vstd::prelude::*;

use core::marker::PhantomData;

pub mod handle;
pub mod laws;

pub use handle::ExclusiveHandle;
pub use handle::Handle;
pub use handle::WeakHandle;

verus! {

/// An invariant over the protected value. It is fixed by the type `P` when a
/// lock cell is created: the initial value must satisfy it, every closure run
/// under the lock must preserve it, and every accessor may in turn assume it
/// of the value the lock hands over.
pub trait LockInvariant<T> {
    spec fn inv(v: T) -> bool;
}

/// The trivial invariant: any value of the protected type may be stored.
pub struct Unrestricted;

impl<T> LockInvariant<T> for Unrestricted {
    open spec fn inv(v: T) -> bool {
        true
    }
}

/// The update `g` — a value in, then the value to store back and a result —
/// can start from whatever the protected value turns out to be: its
/// precondition holds on every value satisfying the invariant `P`.
pub open spec fn accepts_protected<T, R, G: FnOnce(T) -> (T, R), P: LockInvariant<T>>(
    p: PhantomData<P>,
    g: G,
) -> bool {
    forall|v: T| P::inv(v) ==> #[trigger] call_requires(g, (v,))
}

/// Whatever value satisfying the invariant `P` the update `g` starts from,
/// the value it gives back to store satisfies the invariant again.
pub open spec fn preserves_invariant<T, R, G: FnOnce(T) -> (T, R), P: LockInvariant<T>>(
    p: PhantomData<P>,
    g: G,
) -> bool {
    forall|v: T, out: (T, R)| P::inv(v) && #[trigger] call_ensures(g, (v,), out) ==> P::inv(out.0)
}

/// `r` is a result the update `g` can produce starting from some value that
/// satisfies the invariant `P`, storing back a value that satisfies it as
/// well.
pub open spec fn locked_update<T, R, G: FnOnce(T) -> (T, R), P: LockInvariant<T>>(
    p: PhantomData<P>,
    g: G,
    r: R,
) -> bool {
    exists|v: T, v1: T| P::inv(v) && P::inv(v1) && #[trigger] call_ensures(g, (v,), (v1, r))
}

/// `c` is a clone of some protected value that satisfies the handle's
/// invariant.
pub open spec fn cloned_result<T: Clone, H: WithLock<T>>(h: H, c: T) -> bool {
    exists|v: T| #[trigger] h.inv(v) && vstd::pervasive::cloned::<T>(v, c)
}

/// Blocking and non-blocking access to a lock-protected value through a
/// caller-supplied closure. The lock is acquired before the closure runs and
/// released when it returns, on every path; no reference to the protected
/// value outlives the locked scope.
pub trait WithLock<T>: Sized {
    /// The invariant this handle maintains for its protected value.
    spec fn inv(&self, v: T) -> bool;

    /// Acquires the lock, blocking until it is free, runs `f` with exclusive
    /// mutable access to the protected value, releases the lock, and returns
    /// `f`'s result.
    ///
    /// Fails loudly — the calling thread panics, nothing is returned — when
    /// the lock is poisoned (a previous holder terminated abnormally) or, on
    /// a weak handle, when no owning handle keeps the cell alive any more:
    /// both signal a programming error, not a condition to recover from.
    fn with_lock<R, F: FnOnce(&mut T) -> R>(&self, f: F) -> (r: R)
        requires
            forall|m: &mut T|
                self.inv(mut_ref_current(m)) ==> #[trigger] call_requires(f, (m,)),
            forall|m: &mut T, y: R|
                self.inv(mut_ref_current(m)) && #[trigger] call_ensures(f, (m,), y)
                    ==> self.inv(mut_ref_future(m)),
        ensures
            exists|m: &mut T|
                self.inv(mut_ref_current(m)) && self.inv(mut_ref_future(m))
                    && #[trigger] call_ensures(f, (m,), r),
    ;

    /// Attempts to acquire the lock without blocking. On success runs `f` as
    /// `with_lock` does and returns its result as present; when the lock
    /// cannot be acquired at once — held elsewhere, poisoned, or, on a weak
    /// handle, no live owning handle remains — returns `None` immediately,
    /// without running `f`. Never blocks.
    fn with_lock_try<R, F: FnOnce(&mut T) -> R>(&self, f: F) -> (r: Option<R>)
        requires
            forall|m: &mut T|
                self.inv(mut_ref_current(m)) ==> #[trigger] call_requires(f, (m,)),
            forall|m: &mut T, y: R|
                self.inv(mut_ref_current(m)) && #[trigger] call_ensures(f, (m,), y)
                    ==> self.inv(mut_ref_future(m)),
        ensures
            r matches Some(y) ==> exists|m: &mut T|
                self.inv(mut_ref_current(m)) && self.inv(mut_ref_future(m))
                    && #[trigger] call_ensures(f, (m,), y),
    ;
}

/// Clone-on-read access to a lock-protected value that supports duplication:
/// a thin specialization of `WithLock` that spares read-only callers the
/// closure, returning an independent copy of the protected value instead.
pub trait ArcMutexClone<T: Clone>: WithLock<T> {
    /// Acquires the lock, blocking until it is free, and returns a clone of
    /// the protected value taken at the moment the lock was held. Panics when
    /// the lock is poisoned, as `with_lock` does.
    ///
    /// The second clause says that the read is pure: the transition the call
    /// performs under the lock is the identity, so the protected value is
    /// never changed — only the explicit copy is produced.
    fn get_clone(&self) -> (c: T)
        ensures
            cloned_result(*self, c),
            exists|m: &mut T|
                self.inv(mut_ref_current(m)) && mut_ref_future(m) == mut_ref_current(m)
                    && vstd::pervasive::cloned::<T>(mut_ref_current(m), c),
    ;

    /// Attempts to acquire the lock without blocking; on success returns a
    /// clone of the protected value as present, on contention returns `None`
    /// without copying anything. Never blocks, and — as the second clause
    /// under the `Some` guard states — never changes the protected value.
    fn try_get_clone(&self) -> (c: Option<T>)
        ensures
            c matches Some(v) ==> cloned_result(*self, v),
            c matches Some(v) ==> exists|m: &mut T|
                self.inv(mut_ref_current(m)) && mut_ref_future(m) == mut_ref_current(m)
                    && vstd::pervasive::cloned::<T>(mut_ref_current(m), v),
    ;
}

} // verus!
