//! Event sources and callbacks.
//!
//! A light-weight implementation of the observer pattern: a `Source` keeps
//! an ordered list of callbacks and hands every event to each of them. A
//! callback that answers with an error is unsubscribed.

use vstd::prelude::*;
use crate::shared::{Shared, WeakShared, yields};
use crate::transaction::Transaction;

verus! {

/// An error that can occur with a weakly referenced callback.
#[derive(PartialEq, Eq, Clone, Copy, Debug, Structural)]
pub enum CallbackError {
    /// The receiving end has been dropped.
    Disappeared,
    /// The receiving end has been poisoned.
    Poisoned,
}

/// What a callback answers: `Ok` to stay subscribed, an error to leave.
pub type CallbackResult<T = ()> = Result<T, CallbackError>;

/// An observer of the events of a `Source`.
pub trait Callback<A> {
    /// Whether `r` is an answer the callback may give to the event `a`.
    spec fn may_answer(&self, a: A, r: CallbackResult) -> bool;

    /// React to one event within the given transaction.
    fn call(&mut self, a: A, trans: &mut Transaction) -> (r: CallbackResult)
        ensures
            old(self).may_answer(a, r),
    ;
}

/// A callback registered with a source.
#[verifier::reject_recursive_types(A)]
pub struct Subscriber<A> {
    callback: Box<dyn Callback<A>>,
    number: Ghost<u64>,
}

impl<A> Subscriber<A> {
    /// Whether `r` is an answer the wrapped callback may give to `a`.
    pub closed spec fn may_answer(&self, a: A, r: CallbackResult) -> bool {
        self.callback.may_answer(a, r)
    }

    /// The number the callback is registered under.
    pub closed spec fn number(&self) -> u64 {
        self.number@
    }

    /// Wrap a callback.
    pub fn new<C: Callback<A> + 'static>(c: C) -> Subscriber<A> {
        Subscriber { callback: Box::new(c), number: Ghost(0) }
    }

    /// Hand one event to the wrapped callback.
    fn call(&mut self, a: A, trans: &mut Transaction) -> (r: CallbackResult)
        ensures
            old(self).may_answer(a, r),
            final(self).number() == old(self).number(),
    {
        self.callback.call(a, trans)
    }
}

/// A callback made from a plain function of the event.
pub struct FnCallback<A, F: Fn(A) -> CallbackResult> {
    f: F,
    _event: std::marker::PhantomData<A>,
}

impl<A, F: Fn(A) -> CallbackResult> FnCallback<A, F> {
    #[verifier::type_invariant]
    spec fn callable(self) -> bool {
        forall|a: A| self.f.requires((a,))
    }

    /// The wrapped function.
    pub closed spec fn function(&self) -> F {
        self.f
    }

    /// Wrap `f`, which must accept every event.
    pub fn new(f: F) -> (r: FnCallback<A, F>)
        requires
            forall|a: A| f.requires((a,)),
        ensures
            r.function() == f,
    {
        FnCallback { f, _event: std::marker::PhantomData }
    }
}

impl<A, F: Fn(A) -> CallbackResult> Callback<A> for FnCallback<A, F> {
    /// What the wrapped function may return for the event.
    open spec fn may_answer(&self, a: A, r: CallbackResult) -> bool {
        self.function().ensures((a,), r)
    }

    fn call(&mut self, a: A, trans: &mut Transaction) -> (r: CallbackResult)
        ensures
            final(self).function() == old(self).function(),
            old(self).function().ensures((a,), r),
            *final(trans) == *old(trans),
    {
        proof {
            use_type_invariant(&*self);
        }
        (self.f)(a)
    }
}

/// Perform `f` on the value behind a weak reference. If every strong handle
/// to it is gone, answer `Disappeared` without calling `f`.
pub fn with_weak<T, U, F: FnOnce(&mut T) -> U>(weak: &WeakShared<T>, f: F) -> (r: CallbackResult<U>)
    requires
        forall|t: &mut T| f.requires((t,)),
    ensures
        r is Err ==> r == Err::<U, CallbackError>(CallbackError::Disappeared),
        r matches Ok(u) ==> yields(f, u),
{
    with_upgraded(weak.upgrade(), f)
}

/// What `with_weak` answers once the weak reference has been upgraded to
/// `cell`: `Disappeared` if it could not be, else `f`'s result on the value.
pub fn with_upgraded<T, U, F: FnOnce(&mut T) -> U>(cell: Option<Shared<T>>, f: F) -> (r: CallbackResult<U>)
    requires
        forall|t: &mut T| f.requires((t,)),
    ensures
        cell is None ==> r == Err::<U, CallbackError>(CallbackError::Disappeared),
        cell is Some ==> (r is Ok && yields(f, r->Ok_0)),
{
    match cell {
        Some(cell) => {
            let u = cell.with(f);
            Ok(u)
        },
        None => Err(CallbackError::Disappeared),
    }
}

/// An event source: an ordered list of callbacks, each known by the number
/// it was registered under.
#[verifier::reject_recursive_types(A)]
pub struct Source<A> {
    callbacks: Vec<Subscriber<A>>,
    ids: Vec<u64>,
    next_id: u64,
    sent: Ghost<Seq<A>>,
    answers: Ghost<Seq<CallbackResult>>,
}

/// `sub` may have answered `r` to a copy of `a`.
pub open spec fn answered<A: Clone>(sub: Subscriber<A>, a: A, r: CallbackResult) -> bool {
    exists|c: A| cloned(a, c) && sub.may_answer(c, r)
}

/// The first `n` of `ids`, keeping those whose answer was `Ok`, in order.
pub open spec fn kept<T, E>(ids: Seq<T>, answers: Seq<Result<(), E>>, n: nat) -> Seq<T>
    decreases n,
{
    if n == 0 {
        Seq::empty()
    } else {
        let before = kept(ids, answers, (n - 1) as nat);
        if answers[n - 1] is Ok {
            before.push(ids[n - 1])
        } else {
            before
        }
    }
}

/// Which ids are kept depends only on the first `n` answers.
pub proof fn lemma_kept_prefix<T, E>(ids: Seq<T>, a1: Seq<Result<(), E>>, a2: Seq<Result<(), E>>, n: nat)
    requires
        n <= a1.len(),
        n <= a2.len(),
        forall|k: int| 0 <= k < n ==> a1[k] == a2[k],
    ensures
        kept(ids, a1, n) == kept(ids, a2, n),
    decreases n,
{
    if n > 0 {
        lemma_kept_prefix(ids, a1, a2, (n - 1) as nat);
    }
}

/// `sub` is `full` with some elements left out, the rest in order.
pub open spec fn is_subsequence<T>(sub: Seq<T>, full: Seq<T>) -> bool {
    exists|m: Seq<int>| is_embedding(m, sub, full)
}

/// `m` maps each position of `sub` to a position of `full` holding the same
/// element, strictly increasing.
pub open spec fn is_embedding<T>(m: Seq<int>, sub: Seq<T>, full: Seq<T>) -> bool {
    &&& m.len() == sub.len()
    &&& forall|k: int| 0 <= k < m.len() ==> 0 <= #[trigger] m[k] < full.len() && sub[k] == full[m[k]]
    &&& forall|j: int, k: int| 0 <= j < k < m.len() ==> m[j] < m[k]
}

impl<A: 'static> Source<A> {
    #[verifier::type_invariant]
    spec fn wf(self) -> bool {
        &&& self.ids@.len() == self.callbacks@.len()
        &&& forall|k: int| 0 <= k < self.ids@.len() ==> (#[trigger] self.callbacks@[k]).number() == self.ids@[k]
    }

    /// Each registered callback carries the number it is registered under.
    pub open spec fn numbered(&self) -> bool {
        &&& self.subscribers().len() == self.registered().len()
        &&& forall|k: int|
            0 <= k < self.registered().len() ==> (#[trigger] self.subscribers()[k]).number() == self.registered()[k]
    }

    /// The numbers of the registered callbacks, in registration order.
    pub closed spec fn registered(&self) -> Seq<u64> {
        self.ids@
    }

    /// The number the next callback will be registered under.
    pub closed spec fn next_number(&self) -> u64 {
        self.next_id
    }

    /// Every event sent so far, oldest first.
    pub closed spec fn sent(&self) -> Seq<A> {
        self.sent@
    }

    /// The registered callbacks, in registration order.
    pub closed spec fn subscribers(&self) -> Seq<Subscriber<A>> {
        self.callbacks@
    }

    /// The answers of the callbacks to the last event sent, in the order
    /// they were registered in then.
    pub closed spec fn last_answers(&self) -> Seq<CallbackResult> {
        self.answers@
    }

    /// Create a new source with no callbacks.
    pub fn new() -> (s: Source<A>)
        ensures
            s.registered() == Seq::<u64>::empty(),
            s.subscribers() == Seq::<Subscriber<A>>::empty(),
            s.next_number() == 0,
            s.sent() == Seq::<A>::empty(),
    {
        Source {
            callbacks: Vec::new(),
            ids: Vec::new(),
            next_id: 0,
            sent: Ghost(Seq::empty()),
            answers: Ghost(Seq::empty()),
        }
    }

    /// Register a callback. It receives every later event until it answers
    /// with an error.
    pub fn register(&mut self, callback: Subscriber<A>)
        ensures
            final(self).registered() == old(self).registered().push(old(self).next_number()),
            final(self).subscribers().len() == old(self).subscribers().len() + 1,
            forall|k: int|
                0 <= k < old(self).subscribers().len() ==> final(self).subscribers()[k] == old(self).subscribers()[k],
            forall|a: A, r: CallbackResult|
                final(self).subscribers().last().may_answer(a, r) == callback.may_answer(a, r),
            final(self).numbered(),
            final(self).next_number() == old(self).next_number().wrapping_add(1),
            final(self).sent() == old(self).sent(),
    {
        let mut taken = Source::new();
        std::mem::swap(&mut taken, self);
        proof {
            use_type_invariant(&taken);
        }
        let Source { mut callbacks, mut ids, next_id, sent, answers } = taken;
        let mut callback = callback;
        callback.number = Ghost(next_id);
        callbacks.push(callback);
        ids.push(next_id);
        *self = Source { callbacks, ids, next_id: next_id.wrapping_add(1), sent, answers };
    }

    /// Register a plain function of the event as a callback.
    pub fn register_fn<F: Fn(A) -> CallbackResult + 'static>(&mut self, f: F)
        requires
            forall|a: A| f.requires((a,)),
        ensures
            final(self).registered() == old(self).registered().push(old(self).next_number()),
            final(self).numbered(),
            final(self).next_number() == old(self).next_number().wrapping_add(1),
            final(self).sent() == old(self).sent(),
    {
        self.register(Subscriber::new(FnCallback::new(f)));
    }

    /// Number of registered callbacks.
    pub fn len(&self) -> (n: usize)
        ensures
            n == self.registered().len(),
    {
        proof {
            use_type_invariant(self);
        }
        self.ids.len()
    }
}

impl<A: Clone + 'static> Source<A> {
    /// Hand an event to every callback, in registration order. Callbacks
    /// that answer with an error are unsubscribed; the others stay, in the
    /// same order, and no callback is added.
    pub fn send(&mut self, a: A, trans: &mut Transaction)
        ensures
            final(self).last_answers().len() == old(self).registered().len(),
            forall|k: int|
                0 <= k < old(self).registered().len() ==> answered(
                    old(self).subscribers()[k],
                    a,
                    #[trigger] final(self).last_answers()[k],
                ),
            final(self).registered() == kept(
                old(self).registered(),
                final(self).last_answers(),
                old(self).registered().len(),
            ),
            final(self).numbered(),
            is_subsequence(final(self).registered(), old(self).registered()),
            final(self).next_number() == old(self).next_number(),
            final(self).sent() == old(self).sent().push(a),
    {
        let mut taken = Source::new();
        std::mem::swap(&mut taken, self);
        proof {
            use_type_invariant(&taken);
        }
        let Source { callbacks: mut old_callbacks, ids: old_ids, next_id, sent, answers: _ } = taken;
        let ghost log = sent@.push(a);
        let ghost full = old_ids@;
        let ghost subs = old_callbacks@;
        let ghost mut ans: Seq<CallbackResult> = Seq::empty();
        let ghost mut m: Seq<int> = Seq::empty();
        let mut callbacks: Vec<Subscriber<A>> = Vec::new();
        let mut ids: Vec<u64> = Vec::new();
        let n = old_ids.len();
        let mut i: usize = 0;
        while i < n
            invariant
                old_callbacks.len() == n - i,
                old_callbacks@ == subs.subrange(i as int, n as int),
                subs.len() == n,
                ans.len() == i,
                forall|k: int| 0 <= k < i ==> answered(subs[k], a, #[trigger] ans[k]),
                ids@ == kept(full, ans, i as nat),
                old_ids@ == full,
                full.len() == n,
                i <= n,
                ids@.len() == callbacks@.len(),
                forall|k: int| 0 <= k < n ==> (#[trigger] subs[k]).number() == full[k],
                forall|k: int| 0 <= k < ids@.len() ==> (#[trigger] callbacks@[k]).number() == ids@[k],
                is_embedding(m, ids@, full),
                forall|k: int| 0 <= k < m.len() ==> #[trigger] m[k] < i,
            decreases n - i,
        {
            let mut callback = old_callbacks.remove(0);
            let ghost before_call = callback;
            let copy = a.clone();
            let ghost gc = copy;
            let result = callback.call(copy, trans);
            proof {
                assert(subs[i as int] == before_call);
                assert(callback.number() == full[i as int]);
                assert(cloned(a, gc) && before_call.may_answer(gc, result));
                let ghost ans2 = ans.push(result);
                lemma_kept_prefix(full, ans, ans2, i as nat);
                ans = ans2;
            }
            if result.is_ok() {
                callbacks.push(callback);
                ids.push(old_ids[i]);
                proof {
                    m = m.push(i as int);
                }
            }
            i = i + 1;
        }
        *self = Source { callbacks, ids, next_id, sent: Ghost(log), answers: Ghost(ans) };
    }
}

/// A callback that a source no longer holds is never held again by sending:
/// whatever is registered after a send was registered before it.
pub proof fn law_send_never_resubscribes(before: Seq<u64>, after: Seq<u64>, id: u64)
    requires
        is_subsequence(after, before),
        !before.contains(id),
    ensures
        !after.contains(id),
{
    let m = choose|m: Seq<int>| is_embedding(m, after, before);
    if after.contains(id) {
        let k = choose|k: int| 0 <= k < after.len() && after[k] == id;
        assert(before[m[k]] == id);
    }
}

/// Sending keeps the relative order of the callbacks that stay: if `x` came
/// before `y` afterwards, it came before `y` before.
pub proof fn law_send_keeps_order(before: Seq<u64>, after: Seq<u64>, i: int, j: int)
    requires
        is_subsequence(after, before),
        0 <= i < j < after.len(),
    ensures
        exists|p: int, q: int| 0 <= p < q < before.len() && before[p] == after[i] && before[q] == after[j],
{
    let m = choose|m: Seq<int>| is_embedding(m, after, before);
    assert(0 <= m[i] < m[j] < before.len());
    assert(before[m[i]] == after[i] && before[m[j]] == after[j]);
}

} // verus!
