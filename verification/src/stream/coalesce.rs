//! Coalescing the events of a stream that fire in the same transaction.

use vstd::prelude::*;
use crate::shared::Shared;
use crate::source::{Source, Subscriber, Callback, CallbackResult};
use crate::stream::{Stream, send_into, source};
use crate::transaction::{Transaction, FnBox, Finalizer};

verus! {

/// The buffer's new content when `a` arrives: `a` itself if the buffer was
/// empty, else `f(a, b)` with the buffered `b`.
pub fn combine<T, F: Fn(T, T) -> T>(buffered: Option<T>, a: T, f: &F) -> (r: T)
    requires
        forall|x: T, y: T| f.requires((x, y)),
    ensures
        buffered is None ==> r == a,
        buffered matches Some(b) ==> f.ensures((a, b), r),
{
    match buffered {
        Some(b) => f(a, b),
        None => a,
    }
}

/// Add `a` to the buffer, combining it with what is buffered already.
pub fn update_value<T, F: Fn(T, T) -> T>(buffer: &Shared<Option<T>>, a: T, f: &F)
    requires
        forall|x: T, y: T| f.requires((x, y)),
{
    let (buffered, handle) = buffer.acquire();
    let r = combine(buffered, a, f);
    buffer.release(handle, Some(r));
}

/// Empty the buffer, firing what it held, if anything, into `target`.
pub fn send_from_mutex<T: Clone + 'static>(
    buffer: &Shared<Option<T>>,
    target: &Shared<Source<T>>,
    trans: &mut Transaction,
) -> (r: CallbackResult)
    ensures
        r is Ok,
{
    let (buffered, handle) = buffer.acquire();
    buffer.release(handle, None);
    match buffered {
        Some(value) => {
            send_into(target, value, trans);
            Ok(())
        },
        None => Ok(()),
    }
}

/// The finalizer that fires the coalesced value of a transaction, in a
/// transaction of its own.
#[verifier::reject_recursive_types(T)]
pub struct Flush<T> {
    buffer: Shared<Option<T>>,
    target: Shared<Source<T>>,
    ran: Ghost<bool>,
}

impl<T: Clone + 'static> FnBox for Flush<T> {
    /// Whether the finalizer has run.
    closed spec fn has_run(&self) -> bool {
        self.ran@
    }

    fn call_box(&mut self) {
        let mut trans = Transaction::new();
        let _ = send_from_mutex(&self.buffer, &self.target, &mut trans);
        trans.run_finalizers();
        self.ran = Ghost(true);
    }
}

/// Register the flush of the buffer into `target` with the transaction.
pub fn send_later_from_mutex<T: Clone + 'static>(
    buffer: Shared<Option<T>>,
    target: Shared<Source<T>>,
    trans: &mut Transaction,
)
    ensures
        final(trans).pending().len() == old(trans).pending().len() + 1,
{
    trans.later(Finalizer::new(Flush { buffer, target, ran: Ghost(false) }));
}

/// The callback of a coalesced stream: buffer every event and flush once
/// the transaction commits.
#[verifier::reject_recursive_types(T)]
pub struct CoalesceCallback<T, F: Fn(T, T) -> T> {
    buffer: Shared<Option<T>>,
    reducer: F,
    target: Shared<Source<T>>,
}

impl<T, F: Fn(T, T) -> T> CoalesceCallback<T, F> {
    #[verifier::type_invariant]
    spec fn callable(self) -> bool {
        forall|x: T, y: T| self.reducer.requires((x, y))
    }
}

impl<T: Clone + 'static, F: Fn(T, T) -> T> Callback<T> for CoalesceCallback<T, F> {
    /// Every answer is `Ok`.
    open spec fn may_answer(&self, a: T, r: CallbackResult) -> bool {
        r is Ok
    }

    fn call(&mut self, a: T, trans: &mut Transaction) -> (r: CallbackResult)
        ensures
            *final(self) == *old(self),
            r is Ok,
    {
        proof {
            use_type_invariant(&*self);
        }
        update_value(&self.buffer, a, &self.reducer);
        send_later_from_mutex(self.buffer.clone(), self.target.clone(), trans);
        Ok(())
    }
}

/// Coalesce the events that `stream` fires within one transaction into a
/// single event, combining them with `reducer`.
pub fn stream<T: Clone + 'static, F: Fn(T, T) -> T + 'static>(stream: &Stream<T>, reducer: F) -> Stream<T>
    requires
        forall|x: T, y: T| reducer.requires((x, y)),
{
    let target = Shared::new(Source::new());
    let callback = CoalesceCallback { buffer: Shared::new(None), reducer, target: target.clone() };
    let parent = source(stream);
    let (mut src, handle) = parent.acquire();
    src.register(Subscriber::new(callback));
    parent.release(handle, src);
    Stream::from_source(target)
}

} // verus!
