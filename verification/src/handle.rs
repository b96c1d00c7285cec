//! The handle shapes over one kind of lock cell: an owning, reference-counted
//! handle that keeps the cell alive, a weak handle that does not and may find
//! the cell gone — the two shapes the access traits are implemented for — and
//! the exclusive handle of a cell that is not shared yet.
//!
//! Both wrap `std::sync::Arc` / `std::sync::Weak` around a `std::sync::Mutex`.
//! Verus has no specification for `Mutex`, so the few operations that touch
//! it stand behind trusted wrappers. Their contracts state the lock cell's
//! discipline: every value ever stored in a cell of invariant `P` satisfies
//! `P::inv` — the constructor demands it of the initial value, and every
//! update run under the lock is required to preserve it — so whatever value
//! the lock hands over satisfies the invariant.
//!
//! The trusted wrappers run a value-level update: the protected value is
//! moved out of the cell, handed to the update, and the value the update
//! returns is stored back, all while the lock is held. For that the cell
//! rests as an `Option` that is vacant only while the holder of the lock is
//! inside such an update; a panicking update poisons the mutex, so no later
//! acquisition can observe the vacancy. The public accessors keep the
//! mutate-in-place closure shape and bridge to the value level with a small
//! verified adapter.

use vstd::prelude::*;

use crate::ArcMutexClone;
use crate::LockInvariant;
use crate::WithLock;
use crate::accepts_protected;
use crate::locked_update;
use crate::preserves_invariant;
use core::marker::PhantomData;
use std::sync::Arc;
use std::sync::Mutex;
use std::sync::Weak;

verus! {

#[verifier::external_type_specification]
#[verifier::external_body]
#[verifier::reject_recursive_types(T)]
pub struct ExMutex<T: ?Sized>(Mutex<T>);

/// A non-owning reference to a lock cell. `std::sync::Weak` itself cannot be
/// declared to Verus (its allocator type parameter is unstable), so the value
/// is held in an opaque struct instead.
#[verifier::external_body]
#[verifier::reject_recursive_types(T)]
pub struct WeakCell<T> {
    weak: Weak<Mutex<Option<T>>>,
}

/// An owning, reference-counted handle to a mutex-protected value whose every
/// stored state satisfies `P::inv`. Clones of the handle share the same cell;
/// the protected value itself is never duplicated implicitly. The cell lives
/// as long as at least one owning handle does.
#[verifier::reject_recursive_types(T)]
pub struct Handle<T, P: LockInvariant<T>> {
    cell: Arc<Mutex<Option<T>>>,
    invariant: PhantomData<P>,
}

/// A non-owning handle to the same kind of cell. It does not keep the cell
/// alive: resolving it succeeds only while some owning handle still exists.
/// The ghost field records which cell the weak reference was derived from,
/// so that resolution can be tied to the very cell of origin.
#[verifier::reject_recursive_types(T)]
pub struct WeakHandle<T, P: LockInvariant<T>> {
    cell: WeakCell<T>,
    referent: Ghost<Arc<Mutex<Option<T>>>>,
    invariant: PhantomData<P>,
}

/// Relies on `std::sync::Mutex::new`: the fresh mutex stores exactly the
/// value given, so a cell whose initial value satisfies the invariant starts
/// in a state satisfying it. (The `Arc` around it is built by verified code:
/// vstd specifies `Arc::new`.)
#[verifier::external_body]
fn new_mutex_cell<T>(t: T) -> (m: Mutex<Option<T>>) {
    Mutex::new(Some(t))
}

/// Relies on `std::sync::Arc::clone`: the result is the very same shared
/// cell, not a copy of it — only the reference count changes.
#[verifier::external_body]
fn clone_cell<T>(c: &Arc<Mutex<Option<T>>>) -> (r: Arc<Mutex<Option<T>>>)
    ensures
        r == *c,
{
    Arc::clone(c)
}

/// Relies on `std::sync::Arc::downgrade`: the result is a non-owning
/// reference to the same cell and keeps nothing alive.
#[verifier::external_body]
fn downgrade_cell<T>(c: &Arc<Mutex<Option<T>>>) -> (w: WeakCell<T>) {
    WeakCell { weak: Arc::downgrade(c) }
}

impl<T, P: LockInvariant<T>> Handle<T, P> {
    /// Creates a fresh lock cell protecting `t` and returns the first owning
    /// handle to it. The initial value must satisfy the invariant; every
    /// accessor then maintains it.
    pub fn new(t: T) -> (h: Self)
        requires
            P::inv(t),
        ensures
            forall|v: T| #[trigger] h.inv(v) <==> P::inv(v),
    {
        Handle { cell: Arc::new(new_mutex_cell(t)), invariant: PhantomData }
    }

    /// The cell this handle owns, as an abstract identity: two handles whose
    /// identities are equal reach the very same protected value. Fresh cells
    /// carry unrelated identities, so nothing relates handles of separate
    /// cells.
    pub closed spec fn id(&self) -> Arc<Mutex<Option<T>>> {
        self.cell
    }

    /// Another owning handle to the same cell: both reach — and both keep
    /// alive — the one protected value, under the one invariant. The lock is
    /// never duplicated: only the reference count changes.
    pub fn clone_handle(&self) -> (h: Self)
        ensures
            h.id() == self.id(),
            forall|v: T| #[trigger] h.inv(v) <==> self.inv(v),
    {
        Handle { cell: clone_cell(&self.cell), invariant: PhantomData }
    }

    /// Derives a non-owning handle to the same cell — not to a copy of it.
    /// The weak handle maintains the very invariant of this handle.
    pub fn downgrade(&self) -> (w: WeakHandle<T, P>)
        ensures
            w.id() == self.id(),
            forall|v: T| #[trigger] w.inv(v) <==> self.inv(v),
    {
        WeakHandle {
            cell: downgrade_cell(&self.cell),
            referent: Ghost(self.cell),
            invariant: PhantomData,
        }
    }

    /// Relies on `std::sync::Mutex::lock`: blocks until the lock is free,
    /// moves the protected value out of the cell, runs `g` on it, stores the
    /// value `g` returns, releases the lock, and hands `g`'s result through.
    /// Panics when the lock is poisoned — a previous holder terminated
    /// abnormally while holding it — rather than touch a value whose
    /// invariants cannot be trusted.
    #[verifier::external_body]
    fn lock_apply<R, G: FnOnce(T) -> (T, R)>(&self, g: G) -> (r: R)
        requires
            accepts_protected(self.invariant, g),
            preserves_invariant(self.invariant, g),
        ensures
            locked_update(self.invariant, g, r),
    {
        let mut guard = self.cell.lock().expect("Could not lock mutex");
        let (t, r) = g(guard.take().expect("protected value held elsewhere"));
        *guard = Some(t);
        r
    }

    /// Relies on `std::sync::Mutex::try_lock`: never blocks; on success runs
    /// `g` as `lock_apply` does, on any failure to acquire — contention or
    /// poisoning — returns `None` without running `g`.
    #[verifier::external_body]
    fn try_lock_apply<R, G: FnOnce(T) -> (T, R)>(&self, g: G) -> (r: Option<R>)
        requires
            accepts_protected(self.invariant, g),
            preserves_invariant(self.invariant, g),
        ensures
            r matches Some(y) ==> locked_update(self.invariant, g, y),
    {
        match self.cell.try_lock() {
            Ok(mut guard) => {
                let (t, r) = g(guard.take().expect("protected value held elsewhere"));
                *guard = Some(t);
                Some(r)
            },
            Err(_) => None,
        }
    }
}

impl<T, P: LockInvariant<T>> WithLock<T> for Handle<T, P> {
    open spec fn inv(&self, v: T) -> bool {
        P::inv(v)
    }

    fn with_lock<R, F: FnOnce(&mut T) -> R>(&self, f: F) -> (r: R) {
        let g = move |v: T| -> (out: (T, R))
            requires
                forall|m: &mut T| mut_ref_current(m) == v ==> #[trigger] call_requires(f, (m,)),
            ensures
                exists|m: &mut T|
                    mut_ref_current(m) == v && mut_ref_future(m) == out.0
                        && #[trigger] call_ensures(f, (m,), out.1),
            {
                let ghost v0: T = v;
                let mut inner = v;
                assert(inner == v0);
                let y = f(&mut inner);
                assert(exists|m: &mut T|
                    mut_ref_current(m) == v0 && mut_ref_future(m) == inner
                        && #[trigger] call_ensures(f, (m,), y));
                let out = (inner, y);
                assert(out.0 == inner && out.1 == y);
                out
            };
        proof {
            assert forall|v: T| self.inv(v) implies #[trigger] call_requires(g, (v,)) by {
                assert forall|m: &mut T| mut_ref_current(m) == v implies #[trigger] call_requires(
                    f,
                    (m,),
                ) by {
                    assert(self.inv(mut_ref_current(m)));
                };
            };
            assert forall|v: T, out: (T, R)|
                self.inv(v) && #[trigger] call_ensures(g, (v,), out) implies self.inv(out.0) by {
                let m = choose|m: &mut T|
                    mut_ref_current(m) == v && mut_ref_future(m) == out.0
                        && #[trigger] call_ensures(f, (m,), out.1);
                assert(self.inv(mut_ref_future(m)));
            };
        }
        let r = self.lock_apply(g);
        proof {
            let (v, v1) = choose|v: T, v1: T|
                self.inv(v) && self.inv(v1) && #[trigger] call_ensures(g, (v,), (v1, r));
            let m = choose|m: &mut T|
                mut_ref_current(m) == v && mut_ref_future(m) == v1 && #[trigger] call_ensures(
                    f,
                    (m,),
                    r,
                );
            assert(self.inv(mut_ref_current(m)) && self.inv(mut_ref_future(m)) && call_ensures(
                f,
                (m,),
                r,
            ));
        }
        r
    }

    fn with_lock_try<R, F: FnOnce(&mut T) -> R>(&self, f: F) -> (r: Option<R>) {
        let g = move |v: T| -> (out: (T, R))
            requires
                forall|m: &mut T| mut_ref_current(m) == v ==> #[trigger] call_requires(f, (m,)),
            ensures
                exists|m: &mut T|
                    mut_ref_current(m) == v && mut_ref_future(m) == out.0
                        && #[trigger] call_ensures(f, (m,), out.1),
            {
                let ghost v0: T = v;
                let mut inner = v;
                assert(inner == v0);
                let y = f(&mut inner);
                assert(exists|m: &mut T|
                    mut_ref_current(m) == v0 && mut_ref_future(m) == inner
                        && #[trigger] call_ensures(f, (m,), y));
                let out = (inner, y);
                assert(out.0 == inner && out.1 == y);
                out
            };
        proof {
            assert forall|v: T| self.inv(v) implies #[trigger] call_requires(g, (v,)) by {
                assert forall|m: &mut T| mut_ref_current(m) == v implies #[trigger] call_requires(
                    f,
                    (m,),
                ) by {
                    assert(self.inv(mut_ref_current(m)));
                };
            };
            assert forall|v: T, out: (T, R)|
                self.inv(v) && #[trigger] call_ensures(g, (v,), out) implies self.inv(out.0) by {
                let m = choose|m: &mut T|
                    mut_ref_current(m) == v && mut_ref_future(m) == out.0
                        && #[trigger] call_ensures(f, (m,), out.1);
                assert(self.inv(mut_ref_future(m)));
            };
        }
        let r = self.try_lock_apply(g);
        proof {
            match &r {
                Some(y) => {
                    let (v, v1) = choose|v: T, v1: T|
                        self.inv(v) && self.inv(v1) && #[trigger] call_ensures(g, (v,), (v1, *y));
                    let m = choose|m: &mut T|
                        mut_ref_current(m) == v && mut_ref_future(m) == v1
                            && #[trigger] call_ensures(f, (m,), *y);
                    assert(self.inv(mut_ref_current(m)) && self.inv(mut_ref_future(m))
                        && call_ensures(f, (m,), *y));
                },
                None => {},
            }
        }
        r
    }
}

impl<T, P: LockInvariant<T>> WithLock<T> for WeakHandle<T, P> {
    open spec fn inv(&self, v: T) -> bool {
        P::inv(v)
    }

    fn with_lock<R, F: FnOnce(&mut T) -> R>(&self, f: F) -> (r: R) {
        let strong = Handle::<T, P> {
            cell: self.upgrade_cell_or_panic(),
            invariant: PhantomData,
        };
        strong.with_lock(f)
    }

    fn with_lock_try<R, F: FnOnce(&mut T) -> R>(&self, f: F) -> (r: Option<R>) {
        match self.upgrade() {
            Some(strong) => strong.with_lock_try(f),
            None => None,
        }
    }
}

impl<T, P: LockInvariant<T>> WeakHandle<T, P> {
    /// The cell this weak handle refers to, as the same abstract identity
    /// `Handle::id` gives: it is the identity of the owning handle the weak
    /// handle was derived from.
    pub closed spec fn id(&self) -> Arc<Mutex<Option<T>>> {
        self.referent@
    }

    /// Relies on `std::sync::Weak::upgrade`: the result is present exactly
    /// when at least one owning reference to the cell was still alive at the
    /// moment of the call, and then owns the cell until dropped — resolution
    /// fully succeeds or fully fails. Whether it succeeds is decided at run
    /// time by the other holders; what can be promised is that whatever comes
    /// back is the very cell this weak reference was derived from.
    #[verifier::external_body]
    fn upgrade_cell(&self) -> (c: Option<Arc<Mutex<Option<T>>>>)
        ensures
            c matches Some(a) ==> a == self.referent@,
    {
        self.cell.weak.upgrade()
    }

    /// Relies on `std::sync::Weak::upgrade`; panics when no owning reference
    /// to the cell remains, else returns the cell this weak reference was
    /// derived from. The fail-loud path of the blocking accessor on a weak
    /// handle: a caller that blocks has established by its own logic that the
    /// target is alive, so a dead target is surfaced as a panic, never as a
    /// value.
    #[verifier::external_body]
    fn upgrade_cell_or_panic(&self) -> (c: Arc<Mutex<Option<T>>>)
        ensures
            c == self.referent@,
    {
        self.cell.weak.upgrade().expect("Could not upgrade weak reference")
    }

    /// Resolves this weak handle to a temporary owning handle of the very
    /// cell it was derived from, or `None` when every owning handle has been
    /// dropped. Resolution either fully succeeds — the result keeps the cell
    /// alive while it is held — or fully fails; there is no partial outcome.
    pub fn upgrade(&self) -> (h: Option<Handle<T, P>>)
        ensures
            h matches Some(strong) ==> strong.id() == self.id() && forall|v: T|
                #[trigger] strong.inv(v) <==> self.inv(v),
    {
        match self.upgrade_cell() {
            Some(cell) => Some(Handle { cell, invariant: PhantomData }),
            None => None,
        }
    }
}

impl<T: Clone, P: LockInvariant<T>> ArcMutexClone<T> for Handle<T, P> {
    fn get_clone(&self) -> (c: T) {
        let cl = |v: &mut T| -> (c: T)
            ensures
                *final(v) == *old(v),
                vstd::pervasive::cloned::<T>(*old(v), c),
            {
                let c = (*v).clone();
                c
            };
        let copy = self.with_lock(cl);
        proof {
            let m = choose|m: &mut T|
                self.inv(mut_ref_current(m)) && self.inv(mut_ref_future(m))
                    && #[trigger] call_ensures(cl, (m,), copy);
            assert(self.inv(mut_ref_current(m)) && mut_ref_future(m) == mut_ref_current(m)
                && vstd::pervasive::cloned::<T>(mut_ref_current(m), copy));
        }
        copy
    }

    fn try_get_clone(&self) -> (c: Option<T>) {
        let cl = |v: &mut T| -> (c: T)
            ensures
                *final(v) == *old(v),
                vstd::pervasive::cloned::<T>(*old(v), c),
            {
                let c = (*v).clone();
                c
            };
        let copy = self.with_lock_try(cl);
        proof {
            match &copy {
                Some(y) => {
                    let m = choose|m: &mut T|
                        self.inv(mut_ref_current(m)) && self.inv(mut_ref_future(m))
                            && #[trigger] call_ensures(cl, (m,), *y);
                    assert(self.inv(mut_ref_current(m)) && mut_ref_future(m) == mut_ref_current(m)
                        && vstd::pervasive::cloned::<T>(mut_ref_current(m), *y));
                },
                None => {},
            }
        }
        copy
    }
}

/// An exclusively owned lock cell: the stage before sharing begins.
///
/// A fresh cell has exactly one reference, and as long as that stays so, the
/// protected value can only change through this handle. `ExclusiveHandle`
/// captures that stage: it cannot be cloned or downgraded, its cell never
/// escapes, and so it tracks the protected value exactly, as its view
/// `self@`. Its contracts are exact where the shared handles' can only be
/// invariant-bound: `with_lock` runs the closure on precisely `old(self)@`
/// and afterwards tracks precisely the value the closure left behind, and
/// `get_clone` returns a clone of precisely the tracked value. When sharing
/// is wanted, `into_shared` consumes the handle — ending the exclusive
/// stage — and hands the cell over to an invariant-governed `Handle`.
#[verifier::reject_recursive_types(T)]
pub struct ExclusiveHandle<T> {
    cell: Arc<Mutex<Option<T>>>,
    value: Ghost<T>,
}

impl<T> View for ExclusiveHandle<T> {
    type V = T;

    closed spec fn view(&self) -> T {
        self.value@
    }
}

impl<T> ExclusiveHandle<T> {
    /// Creates a fresh cell protecting `t`, with this handle as its one
    /// reference.
    pub fn new(t: T) -> (h: Self)
        ensures
            h@ == t,
    {
        let ghost v0: T = t;
        ExclusiveHandle { cell: Arc::new(new_mutex_cell(t)), value: Ghost(v0) }
    }

    /// The cell this handle owns, as the abstract identity `Handle::id`
    /// gives.
    pub closed spec fn id(&self) -> Arc<Mutex<Option<T>>> {
        self.cell
    }

    /// Relies on `std::sync::Mutex::lock`. This handle is its cell's only
    /// reference, so the value the lock hands over is exactly the tracked
    /// one: the update `g` runs on `old(self)@`, the value it returns is
    /// stored — and tracked — and its result is handed through. Panics only
    /// on poisoning, which callers checked by the verifier cannot cause
    /// (their closures do not panic).
    #[verifier::external_body]
    fn lock_apply_exclusive<R, G: FnOnce(T) -> (T, R)>(&mut self, g: G) -> (r: R)
        requires
            call_requires(g, (old(self).value@,)),
        ensures
            exists|out: (T, R)|
                #[trigger] call_ensures(g, (old(self).value@,), out) && final(self).value@
                    == out.0 && r == out.1,
    {
        let mut guard = self.cell.lock().expect("Could not lock mutex");
        let (t, r) = g(guard.take().expect("protected value held elsewhere"));
        *guard = Some(t);
        r
    }

    /// Relies on `std::sync::Mutex::try_lock`: never blocks. With this
    /// handle the cell's only reference there is no contention; the call can
    /// still come back empty on poisoning, and then the value is untouched.
    #[verifier::external_body]
    fn try_lock_apply_exclusive<R, G: FnOnce(T) -> (T, R)>(&mut self, g: G) -> (r: Option<R>)
        requires
            call_requires(g, (old(self).value@,)),
        ensures
            r matches Some(y) ==> exists|out: (T, R)|
                #[trigger] call_ensures(g, (old(self).value@,), out) && final(self).value@
                    == out.0 && y == out.1,
            r is None ==> final(self).value@ == old(self).value@,
    {
        match self.cell.try_lock() {
            Ok(mut guard) => {
                let (t, r) = g(guard.take().expect("protected value held elsewhere"));
                *guard = Some(t);
                Some(r)
            },
            Err(_) => None,
        }
    }

    /// Acquires the lock — free at once, nothing else holds it — runs `f`
    /// with exclusive mutable access to the protected value, and returns
    /// `f`'s result. The contract is exact: `f` starts from `old(self)@`,
    /// and the handle afterwards tracks precisely the value `f` left.
    pub fn with_lock<R, F: FnOnce(&mut T) -> R>(&mut self, f: F) -> (r: R)
        requires
            forall|m: &mut T|
                mut_ref_current(m) == old(self)@ ==> #[trigger] call_requires(f, (m,)),
        ensures
            exists|m: &mut T|
                mut_ref_current(m) == old(self)@ && mut_ref_future(m) == final(self)@
                    && #[trigger] call_ensures(f, (m,), r),
    {
        let g = move |v: T| -> (out: (T, R))
            requires
                forall|m: &mut T| mut_ref_current(m) == v ==> #[trigger] call_requires(f, (m,)),
            ensures
                exists|m: &mut T|
                    mut_ref_current(m) == v && mut_ref_future(m) == out.0
                        && #[trigger] call_ensures(f, (m,), out.1),
            {
                let ghost v0: T = v;
                let mut inner = v;
                assert(inner == v0);
                let y = f(&mut inner);
                assert(exists|m: &mut T|
                    mut_ref_current(m) == v0 && mut_ref_future(m) == inner
                        && #[trigger] call_ensures(f, (m,), y));
                let out = (inner, y);
                assert(out.0 == inner && out.1 == y);
                out
            };
        let r = self.lock_apply_exclusive(g);
        proof {
            let out = choose|out: (T, R)|
                #[trigger] call_ensures(g, (old(self).value@,), out) && self.value@ == out.0
                    && r == out.1;
            let m = choose|m: &mut T|
                mut_ref_current(m) == old(self).value@ && mut_ref_future(m) == out.0
                    && #[trigger] call_ensures(f, (m,), out.1);
            assert(mut_ref_current(m) == old(self)@ && mut_ref_future(m) == self@
                && call_ensures(f, (m,), r));
        }
        r
    }

    /// Attempts the same without blocking. With this handle the cell's only
    /// reference there is no contention to fail on; an absent result — only
    /// poisoning, for callers outside the verifier — leaves the tracked
    /// value untouched.
    pub fn with_lock_try<R, F: FnOnce(&mut T) -> R>(&mut self, f: F) -> (r: Option<R>)
        requires
            forall|m: &mut T|
                mut_ref_current(m) == old(self)@ ==> #[trigger] call_requires(f, (m,)),
        ensures
            r matches Some(y) ==> exists|m: &mut T|
                mut_ref_current(m) == old(self)@ && mut_ref_future(m) == final(self)@
                    && #[trigger] call_ensures(f, (m,), y),
            r is None ==> final(self)@ == old(self)@,
    {
        let g = move |v: T| -> (out: (T, R))
            requires
                forall|m: &mut T| mut_ref_current(m) == v ==> #[trigger] call_requires(f, (m,)),
            ensures
                exists|m: &mut T|
                    mut_ref_current(m) == v && mut_ref_future(m) == out.0
                        && #[trigger] call_ensures(f, (m,), out.1),
            {
                let ghost v0: T = v;
                let mut inner = v;
                assert(inner == v0);
                let y = f(&mut inner);
                assert(exists|m: &mut T|
                    mut_ref_current(m) == v0 && mut_ref_future(m) == inner
                        && #[trigger] call_ensures(f, (m,), y));
                let out = (inner, y);
                assert(out.0 == inner && out.1 == y);
                out
            };
        let r = self.try_lock_apply_exclusive(g);
        proof {
            match &r {
                Some(y) => {
                    let out = choose|out: (T, R)|
                        #[trigger] call_ensures(g, (old(self).value@,), out) && self.value@
                            == out.0 && *y == out.1;
                    let m = choose|m: &mut T|
                        mut_ref_current(m) == old(self).value@ && mut_ref_future(m) == out.0
                            && #[trigger] call_ensures(f, (m,), out.1);
                    assert(mut_ref_current(m) == old(self)@ && mut_ref_future(m) == self@
                        && call_ensures(f, (m,), *y));
                },
                None => {},
            }
        }
        r
    }

    /// Hands the cell over to the shared world: consumes this handle — the
    /// cell's only reference — and returns an owning `Handle` that maintains
    /// the invariant `P`, which the current value must satisfy. From here on
    /// the cell may be shared, and contracts speak through `P`.
    pub fn into_shared<P: LockInvariant<T>>(self) -> (h: Handle<T, P>)
        requires
            P::inv(self@),
        ensures
            h.id() == self.id(),
            forall|v: T| #[trigger] h.inv(v) <==> P::inv(v),
    {
        Handle { cell: self.cell, invariant: PhantomData }
    }
}

impl<T: Clone> ExclusiveHandle<T> {
    /// Relies on `std::sync::Mutex::lock`: clones the protected value under
    /// the lock without changing it. Under a shared borrow of the cell's
    /// only handle the value cannot change, so the clone is of exactly the
    /// tracked value.
    #[verifier::external_body]
    fn lock_clone(&self) -> (c: T)
        ensures
            vstd::pervasive::cloned::<T>(self.value@, c),
    {
        let guard = self.cell.lock().expect("Could not lock mutex");
        guard.as_ref().expect("protected value held elsewhere").clone()
    }

    /// Relies on `std::sync::Mutex::try_lock`: as `lock_clone`, but absent
    /// instead of blocking when the lock cannot be acquired at once.
    #[verifier::external_body]
    fn try_lock_clone(&self) -> (c: Option<T>)
        ensures
            c matches Some(y) ==> vstd::pervasive::cloned::<T>(self.value@, y),
    {
        match self.cell.try_lock() {
            Ok(guard) => match guard.as_ref() {
                Some(v) => Some(v.clone()),
                None => None,
            },
            Err(_) => None,
        }
    }

    /// Returns a clone of the protected value — of exactly `self@`, the
    /// value this handle tracks — and never changes the value itself.
    pub fn get_clone(&self) -> (c: T)
        ensures
            vstd::pervasive::cloned::<T>(self@, c),
    {
        self.lock_clone()
    }

    /// The non-blocking clone: when present, a clone of exactly the tracked
    /// value; the protected value itself is never changed.
    pub fn try_get_clone(&self) -> (c: Option<T>)
        ensures
            c matches Some(y) ==> vstd::pervasive::cloned::<T>(self@, y),
    {
        self.try_lock_clone()
    }
}

} // verus!
