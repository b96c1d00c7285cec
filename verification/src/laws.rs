//! What the access contracts add up to, stated and proved once: how the
//! accessors' outcomes relate to the closure's own contract, to each other,
//! and across the two handle shapes.

use vstd::prelude::*;

use crate::WithLock;
use crate::cloned_result;

verus! {

/// When the invariant pins the protected value down to exactly `x`, and `f`
/// run on `x` can only return `z`, a completed blocking call returns exactly
/// `z`: `with_lock` hands back precisely `f`'s result. The same hypothesis
/// fits the present case of `with_lock_try`, so the non-blocking accessor,
/// whenever it does run `f`, returns what `f` returns as well.
pub proof fn lemma_locked_result_exact<T, R, F: FnOnce(&mut T) -> R, H: WithLock<T>>(
    h: H,
    f: F,
    r: R,
    x: T,
    z: R,
)
    requires
        forall|v: T| #[trigger] h.inv(v) <==> v == x,
        forall|m: &mut T, y: R|
            mut_ref_current(m) == x && #[trigger] call_ensures(f, (m,), y) ==> y == z,
        exists|m: &mut T|
            h.inv(mut_ref_current(m)) && h.inv(mut_ref_future(m)) && #[trigger] call_ensures(
                f,
                (m,),
                r,
            ),
    ensures
        r == z,
{
    let m = choose|m: &mut T|
        h.inv(mut_ref_current(m)) && h.inv(mut_ref_future(m)) && #[trigger] call_ensures(
            f,
            (m,),
            r,
        );
    assert(mut_ref_current(m) == x);
}

/// Under a pinning invariant and a deterministic closure, the blocking and
/// the non-blocking accessor cannot disagree: any completed `with_lock` call
/// and any present `with_lock_try` outcome for the same starting state carry
/// the same value.
pub proof fn lemma_try_agrees_with_blocking<T, R, F: FnOnce(&mut T) -> R, H: WithLock<T>>(
    h: H,
    f: F,
    a: R,
    b: R,
    x: T,
    z: R,
)
    requires
        forall|v: T| #[trigger] h.inv(v) <==> v == x,
        forall|m: &mut T, y: R|
            mut_ref_current(m) == x && #[trigger] call_ensures(f, (m,), y) ==> y == z,
        exists|m: &mut T|
            h.inv(mut_ref_current(m)) && h.inv(mut_ref_future(m)) && #[trigger] call_ensures(
                f,
                (m,),
                a,
            ),
        exists|m: &mut T|
            h.inv(mut_ref_current(m)) && h.inv(mut_ref_future(m)) && #[trigger] call_ensures(
                f,
                (m,),
                b,
            ),
    ensures
        a == b,
{
    lemma_locked_result_exact(h, f, a, x, z);
    lemma_locked_result_exact(h, f, b, x, z);
}

/// Two handles that maintain the same invariant — an owning handle and a
/// weak handle derived from it, in particular — promise exactly the same of
/// a completed locked call: anything `with_lock` or a present
/// `with_lock_try` may return through one of them, it may return through
/// the other.
pub proof fn lemma_weak_matches_owning<
    T,
    R,
    F: FnOnce(&mut T) -> R,
    H1: WithLock<T>,
    H2: WithLock<T>,
>(a: H1, b: H2, f: F, r: R)
    requires
        forall|v: T| #[trigger] a.inv(v) <==> b.inv(v),
    ensures
        (exists|m: &mut T|
            a.inv(mut_ref_current(m)) && a.inv(mut_ref_future(m)) && #[trigger] call_ensures(
                f,
                (m,),
                r,
            )) <==> (exists|m: &mut T|
            b.inv(mut_ref_current(m)) && b.inv(mut_ref_future(m)) && #[trigger] call_ensures(
                f,
                (m,),
                r,
            )),
{
    if exists|m: &mut T|
        a.inv(mut_ref_current(m)) && a.inv(mut_ref_future(m)) && #[trigger] call_ensures(
            f,
            (m,),
            r,
        ) {
        let m = choose|m: &mut T|
            a.inv(mut_ref_current(m)) && a.inv(mut_ref_future(m)) && #[trigger] call_ensures(
                f,
                (m,),
                r,
            );
        assert(b.inv(mut_ref_current(m)) && b.inv(mut_ref_future(m)) && call_ensures(f, (m,), r));
    }
    if exists|m: &mut T|
        b.inv(mut_ref_current(m)) && b.inv(mut_ref_future(m)) && #[trigger] call_ensures(
            f,
            (m,),
            r,
        ) {
        let m = choose|m: &mut T|
            b.inv(mut_ref_current(m)) && b.inv(mut_ref_future(m)) && #[trigger] call_ensures(
                f,
                (m,),
                r,
            );
        assert(a.inv(mut_ref_current(m)) && a.inv(mut_ref_future(m)) && call_ensures(f, (m,), r));
    }
}

/// When the invariant pins the protected value down to exactly `x` and `x`'s
/// clones can only equal `x`, a clone handed out by `get_clone` — or by a
/// present `try_get_clone` — is exactly `x`.
pub proof fn lemma_clone_result_exact<T: Clone, H: WithLock<T>>(h: H, c: T, x: T)
    requires
        forall|v: T| #[trigger] h.inv(v) <==> v == x,
        forall|y: T| #[trigger] call_ensures(T::clone, (&x,), y) ==> y == x,
        cloned_result(h, c),
    ensures
        c == x,
{
    let v = choose|v: T| #[trigger] h.inv(v) && vstd::pervasive::cloned::<T>(v, c);
    assert(v == x);
}

/// The mutation `f` performs does reach the cell: whatever `f`'s contract
/// promises of the value it leaves behind holds of a value — satisfying the
/// handle's invariant — that the completed call stored back under the lock.
pub proof fn lemma_mutation_reaches_cell<T, R, F: FnOnce(&mut T) -> R, H: WithLock<T>>(
    h: H,
    f: F,
    r: R,
    q: spec_fn(T) -> bool,
)
    requires
        forall|m: &mut T, y: R| #[trigger] call_ensures(f, (m,), y) ==> q(mut_ref_future(m)),
        exists|m: &mut T|
            h.inv(mut_ref_current(m)) && h.inv(mut_ref_future(m)) && #[trigger] call_ensures(
                f,
                (m,),
                r,
            ),
    ensures
        exists|v1: T| #[trigger] h.inv(v1) && q(v1),
{
    let m = choose|m: &mut T|
        h.inv(mut_ref_current(m)) && h.inv(mut_ref_future(m)) && #[trigger] call_ensures(
            f,
            (m,),
            r,
        );
    assert(h.inv(mut_ref_future(m)) && q(mut_ref_future(m)));
}

} // verus!
