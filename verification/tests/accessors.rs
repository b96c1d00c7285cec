use with_lock::ArcMutexClone;
use with_lock::Handle;
use with_lock::Unrestricted;
use with_lock::WithLock;

#[test]
fn with_lock_returns_closure_result_and_mutation_sticks() {
    let h = Handle::<i32, Unrestricted>::new(0);
    let r = h.with_lock(|v| {
        *v += 1;
        *v
    });
    assert_eq!(r, 1);
    assert_eq!(h.get_clone(), 1);
}

#[test]
fn with_lock_try_contended_returns_none_and_never_runs_closure() {
    let h = Handle::<i32, Unrestricted>::new(0);
    let other = h.clone_handle();
    let mut calls = 0;
    let outer = h.with_lock(|_v| {
        let inner = other.with_lock_try(|v| {
            calls += 1;
            *v
        });
        assert!(inner.is_none());
        42
    });
    assert_eq!(outer, 42);
    assert_eq!(calls, 0);
    assert_eq!(h.get_clone(), 0);
}

#[test]
fn with_lock_try_uncontended_matches_with_lock() {
    let a = Handle::<i32, Unrestricted>::new(10);
    let blocking = a.with_lock(|v| {
        *v *= 2;
        *v
    });
    let b = Handle::<i32, Unrestricted>::new(10);
    let non_blocking = b.with_lock_try(|v| {
        *v *= 2;
        *v
    });
    assert_eq!(blocking, 20);
    assert_eq!(non_blocking, Some(blocking));
    assert_eq!(a.get_clone(), b.get_clone());
}

#[test]
fn weak_handle_alive_behaves_like_owning_handle() {
    let h = Handle::<i32, Unrestricted>::new(5);
    let w = h.downgrade();
    let r = w.with_lock(|v| {
        *v += 2;
        *v
    });
    assert_eq!(r, 7);
    let t = w.with_lock_try(|v| {
        *v += 3;
        *v
    });
    assert_eq!(t, Some(10));
    assert_eq!(h.get_clone(), 10);
}

#[test]
fn weak_handle_dead_stays_absent() {
    let h = Handle::<i32, Unrestricted>::new(1);
    let w = h.downgrade();
    drop(h);
    let first = w.with_lock_try(|v| *v);
    let second = w.with_lock_try(|v| *v);
    let third = w.with_lock_try(|v| *v);
    assert_eq!(first, None);
    assert_eq!(second, None);
    assert_eq!(third, None);
}

#[test]
fn upgrade_follows_owning_handle_lifetime() {
    let h = Handle::<i32, Unrestricted>::new(3);
    let w = h.downgrade();
    let resolved = w.upgrade();
    assert!(resolved.is_some());
    let r = resolved.unwrap().with_lock(|v| *v);
    assert_eq!(r, 3);
    drop(h);
    assert!(w.upgrade().is_none());
}

#[test]
fn get_clone_copies_are_independent() {
    let h = Handle::<Vec<i32>, Unrestricted>::new(vec![1, 2, 3]);
    let mut copy = h.get_clone();
    assert_eq!(copy, vec![1, 2, 3]);
    copy.push(4);
    assert_eq!(copy, vec![1, 2, 3, 4]);
    assert_eq!(h.get_clone(), vec![1, 2, 3]);
}

#[test]
fn try_get_clone_contended_and_uncontended() {
    let h = Handle::<i32, Unrestricted>::new(9);
    let other = h.clone_handle();
    h.with_lock(|_v| {
        assert!(other.try_get_clone().is_none());
    });
    assert_eq!(h.try_get_clone(), Some(9));
}

#[test]
fn increment_then_read_through_every_accessor() {
    let h = Handle::<i32, Unrestricted>::new(0);
    let r = h.with_lock(|v| {
        *v += 1;
        *v
    });
    assert_eq!(r, 1);
    assert_eq!(h.clone_handle().get_clone(), 1);
    assert_eq!(h.try_get_clone(), Some(1));
}

#[test]
fn dropped_owner_leaves_weak_accessors_absent() {
    let h = Handle::<i32, Unrestricted>::new(0);
    let w = h.downgrade();
    drop(h);
    assert_eq!(w.with_lock_try(|v| *v), None);
    assert!(w.upgrade().is_none());
}

#[test]
fn shared_cell_is_one_value_not_a_copy() {
    let a = Handle::<i32, Unrestricted>::new(100);
    let b = a.clone_handle();
    a.with_lock(|v| *v -= 40);
    b.with_lock(|v| *v -= 40);
    assert_eq!(a.get_clone(), 20);
    assert_eq!(b.get_clone(), 20);
}

#[test]
fn exclusive_handle_runs_the_increment_scenario() {
    let mut h = with_lock::ExclusiveHandle::<i32>::new(0);
    let r = h.with_lock(|v| {
        *v += 1;
        *v
    });
    assert_eq!(r, 1);
    assert_eq!(h.get_clone(), 1);
    assert_eq!(h.try_get_clone(), Some(1));
    let t = h.with_lock_try(|v| {
        *v += 1;
        *v
    });
    assert_eq!(t, Some(2));
}

#[test]
fn exclusive_handle_hands_its_cell_to_the_shared_world() {
    let mut h = with_lock::ExclusiveHandle::<i32>::new(5);
    h.with_lock(|v| *v += 5);
    let shared: Handle<i32, Unrestricted> = h.into_shared();
    assert_eq!(shared.get_clone(), 10);
    let w = shared.clone_handle().downgrade();
    assert_eq!(w.with_lock_try(|v| *v), Some(10));
}
