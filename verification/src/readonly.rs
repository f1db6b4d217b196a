//! Thread-safe read-only handles.

use vstd::prelude::*;
use crate::shared::Shared;

verus! {

/// Read access to a value taken from a read-only handle.
pub struct ReadOnlyGuard<T> {
    value: T,
}

impl<T> ReadOnlyGuard<T> {
    /// The value read.
    pub closed spec fn value(&self) -> T {
        self.value
    }
}

impl<T> std::ops::Deref for ReadOnlyGuard<T> {
    type Target = T;

    fn deref(&self) -> (r: &T)
        ensures
            *r == self.value(),
    {
        &self.value
    }
}

/// A thread-safe read-only handle to a shared cell.
pub struct ReadOnly<T> {
    ptr: Shared<T>,
}

impl<T> ReadOnly<T> {
    /// The cell this handle reads.
    pub closed spec fn cell(&self) -> Shared<T> {
        self.ptr
    }
}

impl<T> Clone for ReadOnly<T> {
    /// Another read-only handle to the same cell.
    fn clone(&self) -> ReadOnly<T> {
        ReadOnly { ptr: self.ptr.clone() }
    }
}

/// Create a read-only handle to a shared cell.
pub fn create<T>(ptr: Shared<T>) -> (r: ReadOnly<T>)
    ensures
        r.cell() == ptr,
{
    ReadOnly { ptr }
}

impl<T: Clone> ReadOnly<T> {
    /// Gain read access to the stored value. The cell's lock cannot be
    /// poisoned, so access is always granted.
    pub fn read(&self) -> (r: Option<ReadOnlyGuard<T>>)
        ensures
            r is Some,
    {
        Some(ReadOnlyGuard { value: self.ptr.get() })
    }
}

} // verus!
