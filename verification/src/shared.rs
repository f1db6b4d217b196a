//! Shared mutable cells.
//!
//! Every node of the dependency graph is reached from several handles at
//! once: the user's handle and the callbacks of the nodes it depends on.
//! `Shared` is a reference-counted cell guarded by a verified reader-writer
//! lock that may hold any value; `Slot` is the same with a predicate fixed at
//! creation, which every value ever stored in it satisfies.

use vstd::prelude::*;
use vstd::rwlock::{RwLock, RwLockPredicate, WriteHandle};
use std::sync::Arc;

verus! {

/// The predicate of a lock that may hold any value.
pub struct Free;

impl<T> RwLockPredicate<T> for Free {
    open spec fn inv(self, v: T) -> bool {
        true
    }
}

/// A reference-counted, lock-guarded cell that may hold any value.
pub struct Shared<T> {
    lock: Arc<RwLock<T, Free>>,
}

impl<T> Shared<T> {
    /// The lock behind this handle.
    pub closed spec fn guarded(&self) -> RwLock<T, Free> {
        *self.lock
    }

    /// Create a new cell holding `v`.
    pub fn new(v: T) -> (s: Shared<T>) {
        Shared { lock: Arc::new(RwLock::new(v, Ghost(Free))) }
    }

    /// Take the value out for exclusive access. The returned handle must be
    /// given back to `release` with the new value.
    pub fn acquire(&self) -> (r: (T, WriteHandle<'_, T, Free>))
        ensures
            r.1.rwlock() == self.guarded(),
    {
        self.lock.acquire_write()
    }

    /// Put a value back after `acquire`.
    pub fn release(&self, handle: WriteHandle<'_, T, Free>, v: T)
        requires
            handle.rwlock() == self.guarded(),
    {
        handle.release_write(v);
    }

    /// Replace the stored value.
    pub fn set(&self, v: T) {
        let (_old, handle) = self.lock.acquire_write();
        handle.release_write(v);
    }

    /// Apply `f` to the stored value in place and return its result.
    pub fn with<R, F: FnOnce(&mut T) -> R>(&self, f: F) -> (r: R)
        requires
            forall|t: &mut T| f.requires((t,)),
        ensures
            yields(f, r),
    {
        let (mut v, handle) = self.lock.acquire_write();
        let r = f(&mut v);
        handle.release_write(v);
        r
    }

    /// A weak reference to this cell, which does not keep it alive.
    pub fn downgrade(&self) -> WeakShared<T> {
        downgrade_lock(&self.lock)
    }
}

/// `r` is a result `f` may give for some value it was applied to.
pub closed spec fn yields<T, R, F: FnOnce(&mut T) -> R>(f: F, r: R) -> bool {
    exists|t: &mut T| f.ensures((t,), r)
}

impl<T: Clone> Shared<T> {
    /// A copy of the stored value.
    pub fn get(&self) -> T {
        let handle = self.lock.acquire_read();
        let v = handle.borrow().clone();
        handle.release_read();
        v
    }
}

impl<T> Clone for Shared<T> {
    /// Another handle to the same cell.
    fn clone(&self) -> (s: Shared<T>)
        ensures
            s == *self,
    {
        Shared { lock: Arc::clone(&self.lock) }
    }
}

/// A weak reference to a `Shared` cell.
#[verifier::external_body]
#[verifier::reject_recursive_types(T)]
pub struct WeakShared<T> {
    weak: std::sync::Weak<RwLock<T, Free>>,
}

/// `std::sync::Arc::downgrade`: a weak reference to the lock behind `lock`.
#[verifier::external_body]
fn downgrade_lock<T>(lock: &Arc<RwLock<T, Free>>) -> WeakShared<T> {
    WeakShared { weak: Arc::downgrade(lock) }
}

/// `std::sync::Weak::upgrade`: a strong handle to the cell if it is still
/// alive. Whether it is depends on the other handles held anywhere in the
/// program, so nothing is stated of the outcome.
#[verifier::external_body]
fn upgrade_lock<T>(weak: &WeakShared<T>) -> Option<Arc<RwLock<T, Free>>> {
    weak.weak.upgrade()
}

/// `std::sync::Weak::clone`: another weak reference to the same cell.
#[verifier::external_body]
fn clone_weak<T>(weak: &WeakShared<T>) -> WeakShared<T> {
    WeakShared { weak: weak.weak.clone() }
}

impl<T> WeakShared<T> {
    /// A strong handle to the cell, or `None` if every strong handle to it
    /// has been dropped.
    pub fn upgrade(&self) -> Option<Shared<T>> {
        match upgrade_lock(self) {
            Some(lock) => Some(Shared { lock }),
            None => None,
        }
    }
}

impl<T> Clone for WeakShared<T> {
    fn clone(&self) -> WeakShared<T> {
        clone_weak(self)
    }
}

/// A reference-counted, lock-guarded cell whose every value satisfies the
/// predicate it was created with.
#[verifier::reject_recursive_types(T)]
pub struct Slot<T> {
    lock: Arc<RwLock<T, spec_fn(T) -> bool>>,
}

impl<T> Slot<T> {
    /// The lock behind this handle.
    pub closed spec fn guarded(&self) -> RwLock<T, spec_fn(T) -> bool> {
        *self.lock
    }

    /// Whether `v` may be stored in this slot.
    pub closed spec fn inv(&self, v: T) -> bool {
        self.lock.inv(v)
    }

    /// Whether any value may be stored in this slot.
    pub open spec fn is_free(&self) -> bool {
        forall|v: T| self.inv(v)
    }

    /// Whether this slot holds `v` now and forever.
    pub open spec fn is_fixed(&self, v: T) -> bool {
        forall|x: T| self.inv(x) <==> x == v
    }

    /// Create a slot that may hold any value, holding `v` now.
    pub fn new(v: T) -> (s: Slot<T>)
        ensures
            s.is_free(),
    {
        let ghost pred = |x: T| true;
        Slot { lock: Arc::new(RwLock::new(v, Ghost(pred))) }
    }

    /// Create a slot that holds `v` and nothing else, ever.
    pub fn fixed(v: T) -> (s: Slot<T>)
        ensures
            s.is_fixed(v),
    {
        let ghost pred = |x: T| x == v;
        Slot { lock: Arc::new(RwLock::new(v, Ghost(pred))) }
    }

    /// Create a slot whose values are exactly those satisfying `pred`,
    /// holding `v` now.
    pub fn with_inv(v: T, Ghost(pred): Ghost<spec_fn(T) -> bool>) -> (s: Slot<T>)
        requires
            pred(v),
        ensures
            forall|x: T| s.inv(x) == pred(x),
    {
        Slot { lock: Arc::new(RwLock::new(v, Ghost(pred))) }
    }

    /// Take the value out for exclusive access. The returned handle must be
    /// given back to `release` with the new value.
    pub fn acquire(&self) -> (r: (T, WriteHandle<'_, T, spec_fn(T) -> bool>))
        ensures
            r.1.rwlock() == self.guarded(),
            self.inv(r.0),
    {
        self.lock.acquire_write()
    }

    /// Put a value back after `acquire`.
    pub fn release(&self, handle: WriteHandle<'_, T, spec_fn(T) -> bool>, v: T)
        requires
            handle.rwlock() == self.guarded(),
            self.inv(v),
    {
        handle.release_write(v);
    }
}

impl<T> Clone for Slot<T> {
    /// Another handle to the same slot.
    fn clone(&self) -> (s: Slot<T>)
        ensures
            s == *self,
    {
        Slot { lock: Arc::clone(&self.lock) }
    }
}

} // verus!
