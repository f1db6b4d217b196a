//! Streams of discrete events.
//!
//! A `Sink` is where events enter the dependency graph; every stream is
//! derived from sinks by the combinators below. Sending a value into a sink
//! opens a transaction, pushes the event through every dependent stream and
//! signal, and commits.

pub mod coalesce;

use vstd::prelude::*;
use std::collections::VecDeque;
use crate::shared::{Shared, WeakShared};
use crate::signal::{Signal, sample_raw};
use crate::source::{Source, Subscriber, Callback, CallbackResult, CallbackError};
use crate::transaction::Transaction;

verus! {

/// Hand `a` to every callback of the source behind `target`.
pub fn send_into<A: Clone + 'static>(target: &Shared<Source<A>>, a: A, trans: &mut Transaction) {
    let (mut src, handle) = target.acquire();
    src.send(a, trans);
    target.release(handle, src);
}

/// Forwards every event unchanged.
#[verifier::reject_recursive_types(A)]
pub struct Forward<A> {
    target: Shared<Source<A>>,
}

impl<A: Clone + 'static> Callback<A> for Forward<A> {
    /// Every answer is `Ok`.
    open spec fn may_answer(&self, a: A, r: CallbackResult) -> bool {
        r is Ok
    }

    fn call(&mut self, a: A, trans: &mut Transaction) -> (r: CallbackResult)
        ensures
            *final(self) == *old(self),
            r is Ok,
    {
        send_into(&self.target, a, trans);
        Ok(())
    }
}

/// Forwards the image of every event under a function.
#[verifier::reject_recursive_types(A)]
#[verifier::reject_recursive_types(B)]
pub struct MapCallback<A, B, F: Fn(A) -> B> {
    f: F,
    target: Shared<Source<B>>,
    _event: std::marker::PhantomData<A>,
}

impl<A, B, F: Fn(A) -> B> MapCallback<A, B, F> {
    #[verifier::type_invariant]
    spec fn callable(self) -> bool {
        forall|a: A| self.f.requires((a,))
    }
}

impl<A, B: Clone + 'static, F: Fn(A) -> B> Callback<A> for MapCallback<A, B, F> {
    /// Every answer is `Ok`.
    open spec fn may_answer(&self, a: A, r: CallbackResult) -> bool {
        r is Ok
    }

    fn call(&mut self, a: A, trans: &mut Transaction) -> (r: CallbackResult)
        ensures
            *final(self) == *old(self),
            r is Ok,
    {
        proof {
            use_type_invariant(&*self);
        }
        let b = (self.f)(a);
        send_into(&self.target, b, trans);
        Ok(())
    }
}

/// Forwards the events that satisfy a predicate.
#[verifier::reject_recursive_types(A)]
pub struct FilterCallback<A, F: Fn(&A) -> bool> {
    f: F,
    target: Shared<Source<A>>,
}

impl<A, F: Fn(&A) -> bool> FilterCallback<A, F> {
    #[verifier::type_invariant]
    spec fn callable(self) -> bool {
        forall|a: &A| self.f.requires((a,))
    }
}

impl<A: Clone + 'static, F: Fn(&A) -> bool> Callback<A> for FilterCallback<A, F> {
    /// Every answer is `Ok`.
    open spec fn may_answer(&self, a: A, r: CallbackResult) -> bool {
        r is Ok
    }

    fn call(&mut self, a: A, trans: &mut Transaction) -> (r: CallbackResult)
        ensures
            *final(self) == *old(self),
            r is Ok,
    {
        proof {
            use_type_invariant(&*self);
        }
        if (self.f)(&a) {
            send_into(&self.target, a, trans);
        }
        Ok(())
    }
}

/// Forwards the values a function finds in the events.
#[verifier::reject_recursive_types(A)]
#[verifier::reject_recursive_types(B)]
pub struct FilterMapCallback<A, B, F: Fn(A) -> Option<B>> {
    f: F,
    target: Shared<Source<B>>,
    _event: std::marker::PhantomData<A>,
}

impl<A, B, F: Fn(A) -> Option<B>> FilterMapCallback<A, B, F> {
    #[verifier::type_invariant]
    spec fn callable(self) -> bool {
        forall|a: A| self.f.requires((a,))
    }
}

impl<A, B: Clone + 'static, F: Fn(A) -> Option<B>> Callback<A> for FilterMapCallback<A, B, F> {
    /// Every answer is `Ok`.
    open spec fn may_answer(&self, a: A, r: CallbackResult) -> bool {
        r is Ok
    }

    fn call(&mut self, a: A, trans: &mut Transaction) -> (r: CallbackResult)
        ensures
            *final(self) == *old(self),
            r is Ok,
    {
        proof {
            use_type_invariant(&*self);
        }
        if let Some(b) = (self.f)(a) {
            send_into(&self.target, b, trans);
        }
        Ok(())
    }
}

/// Forwards every event together with the value of a signal just before
/// the current transaction.
#[verifier::reject_recursive_types(A)]
#[verifier::reject_recursive_types(B)]
#[verifier::reject_recursive_types(C)]
pub struct SnapshotCallback<A, B, C, F: Fn(A, B) -> C> {
    signal: Signal<A>,
    f: F,
    target: Shared<Source<C>>,
    _event: std::marker::PhantomData<B>,
}

impl<A, B, C, F: Fn(A, B) -> C> SnapshotCallback<A, B, C, F> {
    #[verifier::type_invariant]
    spec fn callable(self) -> bool {
        forall|a: A, b: B| self.f.requires((a, b))
    }
}

impl<A: Clone + 'static, B, C: Clone + 'static, F: Fn(A, B) -> C> Callback<B> for SnapshotCallback<
    A,
    B,
    C,
    F,
> {
    /// Every answer is `Ok`.
    open spec fn may_answer(&self, b: B, r: CallbackResult) -> bool {
        r is Ok
    }

    fn call(&mut self, b: B, trans: &mut Transaction) -> (r: CallbackResult)
        ensures
            *final(self) == *old(self),
            r is Ok,
    {
        proof {
            use_type_invariant(&*self);
        }
        let a = sample_raw(&self.signal, trans);
        let c = (self.f)(a, b);
        send_into(&self.target, c, trans);
        Ok(())
    }
}

/// Appends every event to a queue, for as long as somebody reads it.
#[verifier::reject_recursive_types(A)]
pub struct EventsCallback<A> {
    queue: WeakShared<VecDeque<A>>,
}

impl<A> Callback<A> for EventsCallback<A> {
    /// `Ok`, or `Disappeared` once nobody reads the events any more.
    open spec fn may_answer(&self, a: A, r: CallbackResult) -> bool {
        r is Ok || r == Err::<(), CallbackError>(CallbackError::Disappeared)
    }

    fn call(&mut self, a: A, trans: &mut Transaction) -> (r: CallbackResult)
        ensures
            *final(self) == *old(self),
            *final(trans) == *old(trans),
            r is Err ==> r == Err::<(), CallbackError>(CallbackError::Disappeared),
    {
        match self.queue.upgrade() {
            Some(queue) => {
                let (mut q, handle) = queue.acquire();
                q.push_back(a);
                queue.release(handle, q);
                Ok(())
            },
            None => Err(CallbackError::Disappeared),
        }
    }
}

/// The events of a stream received so far and not yet taken.
#[verifier::reject_recursive_types(A)]
pub struct Events<A> {
    queue: Shared<VecDeque<A>>,
    fed: Ghost<Set<Shared<Source<A>>>>,
}

/// The answer of `Events::recv` when no event is waiting.
#[derive(PartialEq, Eq, Clone, Copy, Debug, Structural)]
pub struct RecvError;

impl<A> Events<A> {
    /// The queue this receiver takes its events from.
    pub closed spec fn queue_cell(&self) -> Shared<VecDeque<A>> {
        self.queue
    }

    /// The sources whose every value, fired after the receiver was made, it
    /// receives.
    pub closed spec fn fed_by(&self) -> Set<Shared<Source<A>>> {
        self.fed@
    }

    /// The receiver of the values appended to `queue`.
    pub fn from_queue(queue: Shared<VecDeque<A>>) -> (r: Events<A>)
        ensures
            r.queue_cell() == queue,
            r.fed_by() == Set::<Shared<Source<A>>>::empty(),
    {
        Events { queue, fed: Ghost(Set::empty()) }
    }

    /// Take the oldest event received and not yet taken, if there is one.
    pub fn next(&mut self) -> Option<A> {
        let (mut q, handle) = self.queue.acquire();
        let r = q.pop_front();
        self.queue.release(handle, q);
        r
    }

    /// Take the oldest event received and not yet taken, or answer
    /// `RecvError` if none is waiting.
    pub fn recv(&mut self) -> (r: Result<A, RecvError>) {
        match self.next() {
            Some(a) => Ok(a),
            None => Err(RecvError),
        }
    }
}

/// An event sink: the canonical way of generating a stream of events.
/// Every value sent into it fires as an event of its stream.
#[verifier::reject_recursive_types(A)]
pub struct Sink<A> {
    source: Shared<Source<A>>,
}

impl<A> Sink<A> {
    /// The source that fires the values sent into the sink.
    pub closed spec fn cell(&self) -> Shared<Source<A>> {
        self.source
    }
}

impl<A> Clone for Sink<A> {
    /// Another handle to the same sink.
    fn clone(&self) -> Sink<A> {
        Sink { source: self.source.clone() }
    }
}

impl<A: Clone + 'static> Sink<A> {
    /// Create a new sink.
    pub fn new() -> Sink<A> {
        Sink { source: Shared::new(Source::new()) }
    }

    /// Send a value into the sink: within one transaction, fire it as an
    /// event in every dependent stream, then commit.
    pub fn send(&self, a: A) {
        let mut trans = Transaction::new();
        send_into(&self.source, a, &mut trans);
        trans.run_finalizers();
    }

    /// Send each of the values in turn, each in a transaction of its own.
    pub fn feed(&self, values: Vec<A>) {
        let n = values.len();
        let mut i: usize = 0;
        while i < n
            invariant
                n == values.len(),
                i <= n,
            decreases n - i,
        {
            self.send(values[i].clone());
            i = i + 1;
        }
    }

    /// The stream that fires every value sent into the sink.
    pub fn stream(&self) -> (r: Stream<A>)
        ensures
            r.cell() == self.cell(),
            r.inputs() == Set::<Shared<Source<A>>>::empty().insert(self.cell()),
    {
        let source = self.source.clone();
        let ghost s = source;
        Stream { source, fed: Ghost(Set::empty().insert(s)) }
    }
}

/// A stream of discrete events of type `A`.
#[verifier::reject_recursive_types(A)]
pub struct Stream<A> {
    source: Shared<Source<A>>,
    fed: Ghost<Set<Shared<Source<A>>>>,
}

impl<A> Stream<A> {
    #[verifier::type_invariant]
    spec fn fires_own_source(self) -> bool {
        self.fed@.contains(self.source)
    }

    /// The sources whose every value this stream fires, as the combinators
    /// that built it connected them: its own source, and for a merge also
    /// those of both operands.
    pub closed spec fn inputs(&self) -> Set<Shared<Source<A>>> {
        self.fed@
    }
}

impl<A> Clone for Stream<A> {
    /// Another handle to the same stream.
    fn clone(&self) -> (r: Stream<A>)
        ensures
            r.cell() == self.cell(),
            r.inputs() == self.inputs(),
    {
        proof {
            use_type_invariant(self);
        }
        Stream { source: self.source.clone(), fed: Ghost(self.fed@) }
    }
}

/// The source of a stream's events.
pub fn source<A>(stream: &Stream<A>) -> (r: &Shared<Source<A>>)
    ensures
        *r == stream.cell(),
{
    &stream.source
}

/// Register `callback` with the source of `parent`.
fn subscribe<A: 'static, C: Callback<A> + 'static>(parent: &Stream<A>, callback: C) {
    let (mut src, handle) = parent.source.acquire();
    src.register(Subscriber::new(callback));
    parent.source.release(handle, src);
}

impl<A> Stream<A> {
    /// The source that fires the stream's events.
    pub closed spec fn cell(&self) -> Shared<Source<A>> {
        self.source
    }

    /// The stream of the events fired by `source`.
    pub fn from_source(source: Shared<Source<A>>) -> (r: Stream<A>)
        ensures
            r.cell() == source,
            r.inputs() == Set::<Shared<Source<A>>>::empty().insert(source),
    {
        let ghost s = source;
        Stream { source, fed: Ghost(Set::empty().insert(s)) }
    }
}

impl<A: Clone + 'static> Stream<A> {
    /// Coalesce the events fired within one transaction into one event,
    /// combining them with `reducer`.
    pub fn coalesce<F: Fn(A, A) -> A + 'static>(&self, reducer: F) -> Stream<A>
        requires
            forall|x: A, y: A| reducer.requires((x, y)),
    {
        coalesce::stream(self, reducer)
    }

    /// A stream that never fires.
    pub fn never() -> (r: Stream<A>)
        ensures
            r.inputs() == Set::<Shared<Source<A>>>::empty().insert(r.cell()),
    {
        Stream::from_source(Shared::new(Source::new()))
    }

    /// Map the stream to another stream: every event `a` fires `f(a)`.
    pub fn map<B: Clone + 'static, F: Fn(A) -> B + 'static>(&self, f: F) -> Stream<B>
        requires
            forall|a: A| f.requires((a,)),
    {
        let target = Shared::new(Source::new());
        subscribe(self, MapCallback { f, target: target.clone(), _event: std::marker::PhantomData });
        Stream::from_source(target)
    }

    /// Filter the stream: only the events that satisfy the predicate fire.
    pub fn filter<F: Fn(&A) -> bool + 'static>(&self, f: F) -> Stream<A>
        requires
            forall|a: &A| f.requires((a,)),
    {
        let target = Shared::new(Source::new());
        subscribe(self, FilterCallback { f, target: target.clone() });
        Stream::from_source(target)
    }

    /// Filter and map at once: every event `a` for which `f(a)` is
    /// `Some(b)` fires `b`.
    pub fn filter_map<B: Clone + 'static, F: Fn(A) -> Option<B> + 'static>(&self, f: F) -> Stream<B>
        requires
            forall|a: A| f.requires((a,)),
    {
        let target = Shared::new(Source::new());
        subscribe(self, FilterMapCallback { f, target: target.clone(), _event: std::marker::PhantomData });
        Stream::from_source(target)
    }

    /// Merge with another stream: the result fires the events of both.
    pub fn merge(&self, other: &Stream<A>) -> (r: Stream<A>)
        ensures
            r.inputs() == self.inputs().union(other.inputs()).insert(r.cell()),
    {
        let target = Shared::new(Source::new());
        subscribe(self, Forward { target: target.clone() });
        subscribe(other, Forward { target: target.clone() });
        let ghost t = target;
        Stream { source: target, fed: Ghost(self.fed@.union(other.fed@).insert(t)) }
    }

    /// Collect the events fired from now on, to be taken one by one.
    pub fn events(&self) -> (r: Events<A>)
        ensures
            r.fed_by() == self.inputs(),
    {
        let queue = Shared::new(VecDeque::new());
        subscribe(self, EventsCallback { queue: queue.downgrade() });
        Events { queue, fed: Ghost(self.fed@) }
    }
}

/// Combine a signal with a stream: whenever the stream fires `b`, the
/// result fires `f(a, b)`, where `a` is the signal's value from before the
/// transaction.
pub fn snapshot<A, B, C, F>(signal: &Signal<A>, stream: &Stream<B>, f: F) -> Stream<C>
    where
        A: Clone + 'static,
        B: Clone + 'static,
        C: Clone + 'static,
        F: Fn(A, B) -> C + 'static,
    requires
        forall|a: A, b: B| f.requires((a, b)),
{
    let target = Shared::new(Source::new());
    subscribe(
        stream,
        SnapshotCallback { signal: signal.clone(), f, target: target.clone(), _event: std::marker::PhantomData },
    );
    Stream::from_source(target)
}

} // verus!
