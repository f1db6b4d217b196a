//! Continuous time signals.
//!
//! A signal is a value that changes over time. Its current state is a
//! function that consumers evaluate on demand (pull); the function itself
//! changes discretely when an event arrives (push). Changes are queued
//! during a transaction and become visible when the transaction commits, so
//! everything that reacts to one event sees the values from before it.

use vstd::prelude::*;
use std::sync::Arc;
use crate::pending::{Pending, lemma_pending_ext};
use crate::shared::{Shared, Slot};
use crate::source::{Source, Subscriber, Callback, CallbackResult};
use crate::transaction::{Transaction, FnBox, Finalizer};
use crate::stream::{self, Stream};

verus! {

/// A function that computes the value of a signal when it is sampled.
pub trait SignalFunc<A> {
    /// Whether `a` is a value the function may compute.
    spec fn may_return(&self, a: A) -> bool;

    /// Compute the value within the given transaction.
    fn call(&self, trans: &mut Transaction) -> (r: A)
        ensures
            self.may_return(r),
    ;
}

/// A signal function made from a plain function without arguments.
#[verifier::reject_recursive_types(A)]
pub struct ThunkFn<A, F: Fn() -> A> {
    f: F,
    _value: std::marker::PhantomData<A>,
}

impl<A, F: Fn() -> A> ThunkFn<A, F> {
    #[verifier::type_invariant]
    spec fn callable(self) -> bool {
        self.f.requires(())
    }

    /// The wrapped function.
    pub closed spec fn function(&self) -> F {
        self.f
    }

    /// Wrap `f`, which must be callable at any time.
    pub fn new(f: F) -> (r: ThunkFn<A, F>)
        requires
            f.requires(()),
        ensures
            r.function() == f,
    {
        ThunkFn { f, _value: std::marker::PhantomData }
    }
}

impl<A, F: Fn() -> A> SignalFunc<A> for ThunkFn<A, F> {
    /// What the wrapped function may return.
    open spec fn may_return(&self, a: A) -> bool {
        self.function().ensures((), a)
    }

    fn call(&self, trans: &mut Transaction) -> (r: A)
        ensures
            self.function().ensures((), r),
            *final(trans) == *old(trans),
    {
        proof {
            use_type_invariant(self);
        }
        (self.f)()
    }
}

/// A functional signal. Caches its value for the rest of the transaction
/// in which it was first computed.
#[verifier::reject_recursive_types(A)]
pub struct FuncSignal<A> {
    pub(crate) func: Arc<Box<dyn SignalFunc<A>>>,
    pub(crate) cache: Slot<Option<A>>,
    pub(crate) promise: Ghost<spec_fn(A) -> bool>,
}

impl<A> FuncSignal<A> {
    /// A functional signal computing with `func`, whose every value
    /// satisfies `promise`, with nothing cached.
    pub(crate) fn assemble(func: Arc<Box<dyn SignalFunc<A>>>, Ghost(promise): Ghost<spec_fn(A) -> bool>) -> (r: FuncSignal<A>)
        requires
            forall|a: A| (**func).may_return(a) ==> promise(a),
        ensures
            forall|a: A| r.may_return(a) == promise(a),
            r.promise@ == promise,
    {
        let cache = empty_cache(Ghost(promise));
        FuncSignal { func, cache, promise: Ghost(promise) }
    }
}

/// An empty cache for a function whose every value satisfies `promise`:
/// it may only ever hold such values.
pub(crate) fn empty_cache<A>(Ghost(promise): Ghost<spec_fn(A) -> bool>) -> (c: Slot<Option<A>>)
    ensures
        forall|e: Option<A>| c.inv(e) == (e is Some ==> promise(e->Some_0)),
{
    let ghost pred = |e: Option<A>| e is Some ==> promise(e->Some_0);
    Slot::with_inv(None, Ghost(pred))
}

impl<A> FuncSignal<A> {
    #[verifier::type_invariant]
    spec fn wf(self) -> bool {
        &&& forall|a: A| (*self.func).may_return(a) ==> (self.promise@)(a)
        &&& forall|e: Option<A>| #[trigger] self.cache.inv(e) == (e is Some ==> (self.promise@)(e->Some_0))
    }

    /// Whether `a` is among the values the function was promised to compute
    /// when the signal was made.
    pub closed spec fn may_return(&self, a: A) -> bool {
        (self.promise@)(a)
    }
}

/// A finalizer that forgets a cached value.
#[verifier::reject_recursive_types(A)]
pub struct ResetCache<A> {
    cache: Slot<Option<A>>,
    ran: Ghost<bool>,
}

impl<A> ResetCache<A> {
    #[verifier::type_invariant]
    spec fn clearable(self) -> bool {
        self.cache.inv(None)
    }
}

impl<A> FnBox for ResetCache<A> {
    /// Whether the finalizer has run.
    closed spec fn has_run(&self) -> bool {
        self.ran@
    }

    fn call_box(&mut self) {
        proof {
            use_type_invariant(&*self);
        }
        let (_cached, handle) = self.cache.acquire();
        self.cache.release(handle, None);
        self.ran = Ghost(true);
    }
}

impl<A: 'static> FuncSignal<A> {
    /// Make a functional signal from a function without arguments: its
    /// values are what `f` returns.
    pub fn new<F: Fn() -> A + 'static>(f: F) -> (r: FuncSignal<A>)
        requires
            f.requires(()),
        ensures
            forall|a: A| r.may_return(a) == f.ensures((), a),
    {
        let thunk = ThunkFn::new(f);
        let ghost g = thunk;
        let func: Box<dyn SignalFunc<A>> = Box::new(thunk);
        let ghost promise = |a: A| f.ensures((), a);
        let ghost gb = func;
        assert(forall|a: A| gb.may_return(a) == g.may_return(a));
        let arc = Arc::new(func);
        assert(*arc == gb);
        FuncSignal::assemble(arc, Ghost(promise))
    }
}

impl<A: Clone + 'static> FuncSignal<A> {
    /// Call the function, or fetch the value cached earlier in the same
    /// transaction. On a miss the value is cached and a finalizer that
    /// forgets it is registered with the transaction. Either way the result
    /// is a copy of a value the function may compute.
    pub fn call(&self, trans: &mut Transaction) -> (r: A)
        ensures
            exists|v: A| self.may_return(v) && cloned(v, r),
    {
        proof {
            use_type_invariant(self);
        }
        let (cached, handle) = self.cache.acquire();
        match cached {
            Some(value) => {
                assert(cached is Some && cached->Some_0 == value);
                let r = value.clone();
                let ghost gv = value;
                self.cache.release(handle, Some(value));
                assert(self.may_return(gv) && cloned(gv, r));
                r
            },
            None => {
                self.cache.release(handle, None);
                trans.later(Finalizer::new(ResetCache { cache: self.cache.clone(), ran: Ghost(false) }));
                let value = self.func.call(trans);
                let r = value.clone();
                let ghost gv = value;
                let (_cached, handle) = self.cache.acquire();
                self.cache.release(handle, Some(value));
                assert(self.may_return(gv) && cloned(gv, r));
                r
            },
        }
    }
}

impl<A> Clone for FuncSignal<A> {
    /// Another handle to the same function and cache.
    fn clone(&self) -> (r: FuncSignal<A>)
        ensures
            forall|a: A| r.may_return(a) == self.may_return(a),
    {
        proof {
            use_type_invariant(self);
        }
        FuncSignal { func: Arc::clone(&self.func), cache: self.cache.clone(), promise: Ghost(self.promise@) }
    }
}

/// The state of a signal: a constant, or a function to evaluate.
#[verifier::reject_recursive_types(A)]
pub enum SignalFn<A> {
    /// A constant value.
    Const(A),
    /// A function evaluated on demand.
    Func(FuncSignal<A>),
}

impl<A: 'static> SignalFn<A> {
    /// A signal function from a plain function without arguments.
    pub fn from_fn<F: Fn() -> A + 'static>(f: F) -> (r: SignalFn<A>)
        requires
            f.requires(()),
        ensures
            r matches SignalFn::Func(g) && forall|a: A| g.may_return(a) == f.ensures((), a),
    {
        SignalFn::Func(FuncSignal::new(f))
    }
}

impl<A: Clone + 'static> SignalFn<A> {
    /// Evaluate: a copy of the constant, or the function's value.
    pub fn call(&self, trans: &mut Transaction) -> (r: A)
        ensures
            *self matches SignalFn::Const(a) ==> cloned(a, r),
            *self matches SignalFn::Func(g) ==> exists|v: A| g.may_return(v) && cloned(v, r),
            *self is Const ==> *final(trans) == *old(trans),
    {
        match self {
            SignalFn::Const(a) => a.clone(),
            SignalFn::Func(f) => f.call(trans),
        }
    }
}

impl<A: Clone> Clone for SignalFn<A> {
    fn clone(&self) -> (r: SignalFn<A>)
        ensures
            self is Const <==> r is Const,
            *self matches SignalFn::Const(a) ==> cloned(a, r->Const_0),
    {
        match self {
            SignalFn::Const(a) => SignalFn::Const(a.clone()),
            SignalFn::Func(f) => SignalFn::Func(f.clone()),
        }
    }
}

/// What reading a signal's state yields before anything is evaluated.
#[verifier::reject_recursive_types(A)]
enum Reading<A> {
    Value(A),
    Compute(FuncSignal<A>),
}

/// A finalizer that moves the queued state of a signal into place.
#[verifier::reject_recursive_types(A)]
pub struct UpdatePending<A> {
    current: Slot<Pending<SignalFn<A>>>,
    ran: Ghost<bool>,
}

impl<A> UpdatePending<A> {
    #[verifier::type_invariant]
    spec fn writable(self) -> bool {
        self.current.is_free()
    }
}

impl<A> FnBox for UpdatePending<A> {
    /// Whether the finalizer has run.
    closed spec fn has_run(&self) -> bool {
        self.ran@
    }

    fn call_box(&mut self) {
        proof {
            use_type_invariant(&*self);
        }
        let (mut p, handle) = self.current.acquire();
        p.update();
        self.current.release(handle, p);
        self.ran = Ghost(true);
    }
}

/// How a signal derives its next state from an event of its parent.
pub trait Handler<A, B> {
    /// The state to queue for the signal in reaction to `a`.
    fn handle(&self, a: A) -> SignalFn<B>;
}

/// A handler made from a plain function of the event.
#[verifier::reject_recursive_types(A)]
#[verifier::reject_recursive_types(B)]
pub struct FnHandler<A, B, F: Fn(A) -> SignalFn<B>> {
    f: F,
    _types: std::marker::PhantomData<(A, B)>,
}

impl<A, B, F: Fn(A) -> SignalFn<B>> FnHandler<A, B, F> {
    #[verifier::type_invariant]
    spec fn callable(self) -> bool {
        forall|a: A| self.f.requires((a,))
    }

    /// The wrapped function.
    pub closed spec fn function(&self) -> F {
        self.f
    }

    /// Wrap `f`, which must accept every event.
    pub fn new(f: F) -> (r: FnHandler<A, B, F>)
        requires
            forall|a: A| f.requires((a,)),
        ensures
            r.function() == f,
    {
        FnHandler { f, _types: std::marker::PhantomData }
    }
}

impl<A, B, F: Fn(A) -> SignalFn<B>> Handler<A, B> for FnHandler<A, B, F> {
    fn handle(&self, a: A) -> (r: SignalFn<B>)
        ensures
            self.function().ensures((a,), r),
    {
        proof {
            use_type_invariant(self);
        }
        (self.f)(a)
    }
}

/// The callback that keeps a signal's state up to date with its parent:
/// it queues the handler's new state, registers the update as a finalizer,
/// and notifies the signal's own dependents.
#[verifier::reject_recursive_types(A)]
#[verifier::reject_recursive_types(B)]
pub struct RegSignal<A, B, H: Handler<A, B>> {
    handler: H,
    current: Slot<Pending<SignalFn<B>>>,
    source: Shared<Source<()>>,
    _event: std::marker::PhantomData<A>,
}

impl<A, B, H: Handler<A, B>> RegSignal<A, B, H> {
    #[verifier::type_invariant]
    spec fn writable(self) -> bool {
        self.current.is_free()
    }
}

impl<A, B: 'static, H: Handler<A, B>> Callback<A> for RegSignal<A, B, H> {
    /// Every answer is `Ok`.
    open spec fn may_answer(&self, a: A, r: CallbackResult) -> bool {
        r is Ok
    }

    fn call(&mut self, a: A, trans: &mut Transaction) -> (r: CallbackResult)
        ensures
            *final(self) == *old(self),
            r is Ok,
    {
        proof {
            use_type_invariant(&*self);
        }
        trans.later(Finalizer::new(UpdatePending { current: self.current.clone(), ran: Ghost(false) }));
        let next = self.handler.handle(a);
        let (mut p, handle) = self.current.acquire();
        p.queue(next);
        self.current.release(handle, p);
        let (mut src, handle) = self.source.acquire();
        src.send((), trans);
        self.source.release(handle, src);
        Ok(())
    }
}

/// A continuous signal that changes over time.
///
/// Its current value is defined by a function that is only evaluated when
/// the signal is sampled; that function may change discretely in reaction
/// to events, for instance when a signal holds the last event of a stream.
#[verifier::reject_recursive_types(A)]
pub struct Signal<A> {
    current: Slot<Pending<SignalFn<A>>>,
    source: Shared<Source<()>>,
    fixed: bool,
    computes: bool,
    value: Ghost<Option<A>>,
    samples: Ghost<Option<spec_fn(A) -> bool>>,
}

/// A signal is never both constant and computing.
pub proof fn lemma_constant_or_computed<A>(s: Signal<A>)
    ensures
        !(s.constant() is Some && s.computed() is Some),
{
}

/// `a` may be a sample of `s`: a copy of its constant when it is one, and a
/// copy of a value it computes when it computes its value.
pub open spec fn may_sample<A: Clone>(s: Signal<A>, a: A) -> bool {
    &&& s.constant() matches Some(c) ==> cloned(c, a)
    &&& s.computed() matches Some(y) ==> exists|v: A| y(v) && cloned(v, a)
}

impl<A> Signal<A> {
    #[verifier::type_invariant]
    spec fn wf(self) -> bool {
        &&& self.fixed == self.value@ is Some
        &&& self.computes == self.samples@ is Some
        &&& match self.value@ {
            Some(a) => slot_is_constant(self.current, a) && self.samples@ is None,
            None => match self.samples@ {
                Some(y) => slot_holds_func(self.current, y),
                None => self.current.is_free(),
            },
        }
    }

    /// For a signal that never changes its state but computes its value
    /// whenever it is sampled, which values it may sample as; `None` for
    /// every other signal.
    pub closed spec fn computed(&self) -> Option<spec_fn(A) -> bool> {
        match self.value@ {
            Some(_) => None,
            None => self.samples@,
        }
    }

    /// The value of a signal that never changes, or `None` for a signal
    /// that may change.
    pub closed spec fn constant(&self) -> Option<A> {
        self.value@
    }

    /// The cell holding the signal's state.
    pub closed spec fn state_slot(&self) -> Slot<Pending<SignalFn<A>>> {
        self.current
    }

    /// Whether the signal never changes.
    pub fn is_constant(&self) -> (r: bool)
        ensures
            r == self.constant() is Some,
            r ==> self.computed() is None,
            !r ==> (self.is_variable() || self.computed() is Some),
    {
        proof {
            use_type_invariant(self);
        }
        self.fixed
    }

    /// Whether the signal never changes its state but computes its value.
    pub fn is_computed(&self) -> (r: bool)
        ensures
            r == self.computed() is Some,
    {
        proof {
            use_type_invariant(self);
        }
        self.computes
    }

    /// The source that notifies the signal's dependents of a change.
    pub closed spec fn notifier(&self) -> Shared<Source<()>> {
        self.source
    }

    /// Whether the signal's state may be replaced by events.
    pub open spec fn is_variable(&self) -> bool {
        self.state_slot().is_free()
    }
}

impl<A: 'static> Signal<A> {
    /// Build a signal whose state starts as `func` and may change later.
    fn build(func: SignalFn<A>) -> (s: Signal<A>)
        ensures
            s.constant() == None::<A>,
            s.computed() is None,
            s.is_variable(),
    {
        Signal {
            current: Slot::new(Pending::new(func)),
            source: Shared::new(Source::new()),
            fixed: false,
            computes: false,
            value: Ghost(None),
            samples: Ghost(None),
        }
    }

    /// Build a signal whose state is `func` for ever: it samples as the
    /// values `func` may compute.
    pub(crate) fn computing(func: FuncSignal<A>) -> (s: Signal<A>)
        ensures
            s.constant() == None::<A>,
            s.computed() matches Some(y) && forall|a: A| y(a) == func.may_return(a),
            s.computed() == Some(func.promise@),
    {
        let ghost y = func.promise@;
        let ghost pred = |p: Pending<SignalFn<A>>|
            p.current_spec() matches SignalFn::Func(g) && forall|a: A| g.may_return(a) ==> y(a);
        let p = Pending::new(SignalFn::Func(func));
        let current = Slot::with_inv(p, Ghost(pred));
        Signal { current, source: Shared::new(Source::new()), fixed: false, computes: true, value: Ghost(None), samples: Ghost(Some(y)) }
    }

    /// Create a constant signal.
    pub fn new(a: A) -> (s: Signal<A>)
        ensures
            s.constant() == Some(a),
            s.computed() is None,
    {
        let p = Pending::new(SignalFn::Const(a));
        let current = Slot::fixed(p);
        proof {
            assert forall|q: Pending<SignalFn<A>>|
                current.inv(q) <==> (q.current_spec() == SignalFn::Const(a) && q.queued_spec()
                    == None::<SignalFn<A>>) by {
                if q.current_spec() == SignalFn::Const(a) && q.queued_spec() == None::<SignalFn<A>> {
                    lemma_pending_ext(p, q);
                }
            }
            assert(slot_is_constant(current, a));
        }
        Signal {
            current,
            source: Shared::new(Source::new()),
            fixed: true,
            computes: false,
            value: Ghost(Some(a)),
            samples: Ghost(None),
        }
    }
}

impl<A> Clone for Signal<A> {
    /// Another handle to the same signal.
    fn clone(&self) -> (s: Signal<A>)
        ensures
            s.constant() == self.constant(),
            s.computed() == self.computed(),
            s.state_slot() == self.state_slot(),
    {
        proof {
            use_type_invariant(self);
        }
        Signal {
            current: self.current.clone(),
            source: self.source.clone(),
            fixed: self.fixed,
            computes: self.computes,
            value: Ghost(self.value@),
            samples: Ghost(self.samples@),
        }
    }
}

/// `slot` holds the constant `a` with nothing queued, and nothing else, ever.
pub closed spec fn slot_is_constant<A>(slot: Slot<Pending<SignalFn<A>>>, a: A) -> bool {
    forall|p: Pending<SignalFn<A>>|
        slot.inv(p) <==> (p.current_spec() == SignalFn::Const(a) && p.queued_spec() == None::<
            SignalFn<A>,
        >)
}

/// Every state `slot` may hold is the constant `a`.
pub closed spec fn slot_holds_const<A>(slot: Slot<Pending<SignalFn<A>>>, a: A) -> bool {
    forall|p: Pending<SignalFn<A>>| slot.inv(p) ==> p.current_spec() == SignalFn::Const(a)
}

/// Every state `slot` may hold is a function computing only values that
/// satisfy `y`.
pub closed spec fn slot_holds_func<A>(slot: Slot<Pending<SignalFn<A>>>, y: spec_fn(A) -> bool) -> bool {
    forall|p: Pending<SignalFn<A>>|
        slot.inv(p) ==> (p.current_spec() matches SignalFn::Func(g) && forall|a: A| g.may_return(a) ==> y(a))
}

/// Read the state of a signal without evaluating anything.
fn read_state<A: Clone + 'static>(slot: &Slot<Pending<SignalFn<A>>>) -> (r: Reading<A>)
    ensures
        forall|a: A| #[trigger] slot_holds_const(*slot, a) ==> (r matches Reading::Value(v) && cloned(a, v)),
        forall|y: spec_fn(A) -> bool| #[trigger] slot_holds_func(*slot, y) ==> (r matches Reading::Compute(g)
            && forall|a: A| g.may_return(a) ==> y(a)),
{
    let (p, handle) = slot.acquire();
    let r = match p.current() {
        SignalFn::Const(a) => Reading::Value(a.clone()),
        SignalFn::Func(f) => Reading::Compute(f.clone()),
    };
    slot.release(handle, p);
    r
}

/// Evaluate the state held in `slot`.
fn sample_slot<A: Clone + 'static>(slot: &Slot<Pending<SignalFn<A>>>, trans: &mut Transaction) -> (r: A)
    ensures
        forall|a: A| #[trigger] slot_holds_const(*slot, a) ==> cloned(a, r),
        forall|y: spec_fn(A) -> bool| #[trigger] slot_holds_func(*slot, y) ==> exists|v: A| y(v) && cloned(v, r),
{
    match read_state(slot) {
        Reading::Value(v) => v,
        Reading::Compute(f) => f.call(trans),
    }
}

/// Sample the value of the signal within an open transaction.
pub fn sample_raw<A: Clone + 'static>(signal: &Signal<A>, trans: &mut Transaction) -> (r: A)
    ensures
        signal.constant() matches Some(a) ==> cloned(a, r),
        signal.computed() matches Some(y) ==> exists|v: A| y(v) && cloned(v, r),
        may_sample(*signal, r),
{
    proof {
        use_type_invariant(signal);
        if let Some(a) = signal.value@ {
            assert(slot_holds_const(signal.current, a));
        }
    }
    sample_slot(&signal.current, trans)
}

impl<A: Clone + 'static> Signal<A> {
    /// Sample the current value of the signal.
    pub fn sample(&self) -> (r: A)
        ensures
            self.constant() matches Some(a) ==> cloned(a, r),
            self.computed() matches Some(y) ==> exists|v: A| y(v) && cloned(v, r),
    {
        let mut trans = Transaction::new();
        let r = sample_raw(self, &mut trans);
        trans.run_finalizers();
        r
    }
}

/// Register with `parent_source` the callback that keeps `signal` up to
/// date: on every event `a` the signal's state becomes `handler(a)` once the
/// transaction commits, and the signal's dependents are notified.
pub fn reg_signal_with<A: 'static, B: 'static, H: Handler<A, B> + 'static>(
    parent_source: &mut Source<A>,
    signal: &Signal<B>,
    handler: H,
)
    requires
        signal.is_variable(),
    ensures
        final(parent_source).registered() == old(parent_source).registered().push(
            old(parent_source).next_number(),
        ),
        final(parent_source).next_number() == old(parent_source).next_number().wrapping_add(1),
        final(parent_source).sent() == old(parent_source).sent(),
{
    let callback = RegSignal {
        handler,
        current: signal.current.clone(),
        source: signal.source.clone(),
        _event: std::marker::PhantomData,
    };
    parent_source.register(Subscriber::new(callback));
}

/// Register with `parent_source` the callback that keeps `signal` up to
/// date, deriving its new state from each event with `handler`.
pub fn reg_signal<A: 'static, B: 'static, F: Fn(A) -> SignalFn<B> + 'static>(
    parent_source: &mut Source<A>,
    signal: &Signal<B>,
    handler: F,
)
    requires
        signal.is_variable(),
        forall|a: A| handler.requires((a,)),
    ensures
        final(parent_source).registered() == old(parent_source).registered().push(
            old(parent_source).next_number(),
        ),
        final(parent_source).next_number() == old(parent_source).next_number().wrapping_add(1),
        final(parent_source).sent() == old(parent_source).sent(),
{
    reg_signal_with(parent_source, signal, FnHandler::new(handler));
}

/// Register the keeping-up-to-date callback with the source behind `parent`.
pub fn reg_signal_shared<A: 'static, B: 'static, H: Handler<A, B> + 'static>(
    parent: &Shared<Source<A>>,
    signal: &Signal<B>,
    handler: H,
)
    requires
        signal.is_variable(),
{
    let (mut src, handle) = parent.acquire();
    reg_signal_with(&mut src, signal, handler);
    parent.release(handle, src);
}

/// Build a signal whose state starts as `func` and may change later.
pub fn signal_build<A: 'static>(func: SignalFn<A>) -> (s: Signal<A>)
    ensures
        s.constant() == None::<A>,
        s.computed() is None,
        s.is_variable(),
{
    Signal::build(func)
}

/// The cell holding a signal's state.
pub fn signal_current<A>(signal: &Signal<A>) -> (r: &Slot<Pending<SignalFn<A>>>)
    ensures
        *r == signal.state_slot(),
{
    &signal.current
}

/// The source that notifies a signal's dependents of a change of its state.
pub fn signal_source<A>(signal: &Signal<A>) -> (r: &Shared<Source<()>>)
    ensures
        *r == signal.notifier(),
{
    &signal.source
}

/// The state a signal has once the current transaction commits.
pub fn future_state<A: Clone + 'static>(signal: &Signal<A>) -> (r: SignalFn<A>)
    ensures
        signal.constant() matches Some(a) ==> (r matches SignalFn::Const(b) && cloned(a, b)),
{
    proof {
        use_type_invariant(signal);
    }
    let (p, handle) = signal.current.acquire();
    let r = p.future().clone();
    signal.current.release(handle, p);
    r
}

/// The handler of `hold`: the new state is the event itself.
pub struct HoldHandler;

impl<A> Handler<A, A> for HoldHandler {
    fn handle(&self, a: A) -> (r: SignalFn<A>)
        ensures
            r == SignalFn::Const(a),
    {
        SignalFn::Const(a)
    }
}

/// Hold the last event of a stream: the signal starts as `initial` and
/// takes the value of every event once its transaction commits.
pub fn hold<A: Clone + 'static>(initial: A, stream: &Stream<A>) -> (s: Signal<A>)
    ensures
        s.constant() == None::<A>,
        s.is_variable(),
{
    let signal = Signal::build(SignalFn::Const(initial));
    reg_signal_shared(stream::source(stream), &signal, HoldHandler);
    signal
}

/// The signal function of `switch`: the value of the inner signal that the
/// outer one holds now.
#[verifier::reject_recursive_types(A)]
pub struct SwitchFn<A> {
    parent: Signal<Signal<A>>,
}

/// `a` may be the value of a switch over `outer`: when `outer` is a constant
/// holding a constant signal, a copy of that signal's constant.
pub open spec fn switched<A: Clone>(outer: Signal<Signal<A>>, a: A) -> bool {
    outer.constant() matches Some(inner) ==> (inner.constant() matches Some(c) ==> cloned(c, a))
}

/// `r` may be a sample of a switch over `outer`: a sample of an inner signal
/// that is itself a sample of `outer`, taken as sampling takes it.
pub open spec fn switch_sample<A: Clone>(outer: Signal<Signal<A>>, r: A) -> bool {
    exists|inner: Signal<A>| may_sample(outer, inner) && may_sample(inner, r)
}

/// A switch samples as the inner signal its outer signal holds: over a
/// constant outer signal holding a constant inner signal `c`, every sample
/// of the switch is a copy of `c`; and over an outer signal that computes
/// its value, every sample is a sample of an inner signal the outer one may
/// compute.
pub proof fn law_switch_samples_held_inner<A: Clone>(outer: Signal<Signal<A>>, r: A)
    requires
        switch_sample(outer, r),
    ensures
        outer.constant() matches Some(inner) ==> (inner.constant() matches Some(c) ==> cloned(c, r)),
        outer.computed() matches Some(y) ==> exists|inner: Signal<A>|
            (exists|v: Signal<A>| y(v) && cloned(v, inner)) && may_sample(inner, r),
{
    let inner = choose|inner: Signal<A>| may_sample(outer, inner) && may_sample(inner, r);
    if let Some(i0) = outer.constant() {
        assert(cloned(i0, inner));
        assert(inner.constant() == i0.constant());
    }
}

impl<A> SwitchFn<A> {
    /// The signal of signals switched between.
    pub closed spec fn parent(&self) -> Signal<Signal<A>> {
        self.parent
    }
}

impl<A: Clone + 'static> SignalFunc<A> for SwitchFn<A> {
    /// What a switch over the parent may sample as.
    open spec fn may_return(&self, a: A) -> bool {
        switched(self.parent(), a)
    }

    fn call(&self, trans: &mut Transaction) -> (r: A)
        ensures
            self.parent().constant() matches Some(inner) ==> (inner.constant() matches Some(c) ==> cloned(
                c,
                r,
            )),
            switch_sample(self.parent(), r),
    {
        let inner = sample_raw(&self.parent, trans);
        sample_raw(&inner, trans)
    }
}

/// The handler of `switch`: whatever the event, sample the inner signal
/// that the outer one holds.
#[verifier::reject_recursive_types(A)]
pub struct SwitchHandler<A> {
    parent: Signal<Signal<A>>,
}

impl<A> SwitchHandler<A> {
    /// The signal of signals switched between.
    pub closed spec fn parent(&self) -> Signal<Signal<A>> {
        self.parent
    }
}

impl<A: Clone + 'static> Handler<(), A> for SwitchHandler<A> {
    fn handle(&self, u: ()) -> (r: SignalFn<A>)
        ensures
            r matches SignalFn::Func(g) && forall|a: A| g.may_return(a) == switched(self.parent(), a),
    {
        let switch = SwitchFn { parent: self.parent.clone() };
        let ghost gs = switch;
        let func: Box<dyn SignalFunc<A>> = Box::new(switch);
        let ghost gb = func;
        assert(forall|a: A| gb.may_return(a) == gs.may_return(a));
        let ghost promise = |a: A| switched(self.parent(), a);
        SignalFn::Func({
            let arc = Arc::new(func);
            assert(*arc == gb);
            FuncSignal::assemble(arc, Ghost(promise))
        })
    }
}

/// The signal function of a forward declaration that has been defined: the
/// value of its definition.
#[verifier::reject_recursive_types(A)]
pub struct DefinedFn<A> {
    definition: Slot<Pending<SignalFn<A>>>,
}

/// `a` may be the value of a signal following the state cell `definition`:
/// when the definition is a constant, a copy of that constant.
pub open spec fn follows<A: Clone>(definition: Slot<Pending<SignalFn<A>>>, a: A) -> bool {
    forall|c: A| #[trigger] slot_holds_const(definition, c) ==> cloned(c, a)
}

impl<A> DefinedFn<A> {
    /// The state cell of the definition.
    pub closed spec fn definition(&self) -> Slot<Pending<SignalFn<A>>> {
        self.definition
    }
}

impl<A: Clone + 'static> SignalFunc<A> for DefinedFn<A> {
    /// What a signal following the definition may sample as.
    open spec fn may_return(&self, a: A) -> bool {
        follows(self.definition(), a)
    }

    fn call(&self, trans: &mut Transaction) -> (r: A)
        ensures
            forall|a: A| #[trigger] slot_holds_const(self.definition(), a) ==> cloned(a, r),
    {
        sample_slot(&self.definition, trans)
    }
}

/// The signal function of a forward declaration that is not defined yet: a
/// fallback value.
pub struct FallbackFn<A> {
    value: A,
}

impl<A> FallbackFn<A> {
    /// The value sampled until a definition is given.
    pub closed spec fn fallback(&self) -> A {
        self.value
    }
}

impl<A: Clone> SignalFunc<A> for FallbackFn<A> {
    /// A copy of the fallback value.
    open spec fn may_return(&self, a: A) -> bool {
        cloned(self.fallback(), a)
    }

    fn call(&self, trans: &mut Transaction) -> (r: A)
        ensures
            cloned(self.fallback(), r),
            *final(trans) == *old(trans),
    {
        self.value.clone()
    }
}

/// The state a forward declaration takes from its definition's state: a copy
/// of a constant, or a function that samples the definition.
fn cycle_state<A: Clone + 'static>(definition: &Slot<Pending<SignalFn<A>>>) -> (r: SignalFn<A>)
    ensures
        forall|a: A| #[trigger] slot_future_const(*definition, a) ==> (r matches SignalFn::Const(b) && cloned(
            a,
            b,
        )),
{
    match read_future(definition) {
        Reading::Value(a) => cycle_from_state(SignalFn::Const(a), definition),
        Reading::Compute(f) => cycle_from_state(SignalFn::Func(f), definition),
    }
}

/// The state a forward declaration takes when its definition's future state
/// is `state`: the same constant, or a function sampling the definition.
pub fn cycle_from_state<A: Clone + 'static>(state: SignalFn<A>, definition: &Slot<Pending<SignalFn<A>>>) -> (r: SignalFn<A>)
    ensures
        state is Const ==> r == state,
        state is Func ==> (r matches SignalFn::Func(g) && forall|a: A| g.may_return(a) == follows(*definition, a)),
{
    match state {
        SignalFn::Const(a) => SignalFn::Const(a),
        SignalFn::Func(_) => {
            let defined = DefinedFn { definition: definition.clone() };
            let ghost gd = defined;
            let func: Box<dyn SignalFunc<A>> = Box::new(defined);
            let ghost gb = func;
            assert(forall|a: A| gb.may_return(a) == gd.may_return(a));
            let ghost promise = |a: A| follows(*definition, a);
            SignalFn::Func({
            let arc = Arc::new(func);
            assert(*arc == gb);
            FuncSignal::assemble(arc, Ghost(promise))
        })
        },
    }
}

/// Every state `slot` may hold becomes the constant `a` once the current
/// transaction commits.
pub closed spec fn slot_future_const<A>(slot: Slot<Pending<SignalFn<A>>>, a: A) -> bool {
    forall|p: Pending<SignalFn<A>>| slot.inv(p) ==> p.future_spec() == SignalFn::Const(a)
}

/// Read the state a slot will have once the transaction commits.
fn read_future<A: Clone + 'static>(slot: &Slot<Pending<SignalFn<A>>>) -> (r: Reading<A>)
    ensures
        forall|a: A| #[trigger] slot_future_const(*slot, a) ==> (r matches Reading::Value(v) && cloned(a, v)),
{
    let (p, handle) = slot.acquire();
    let r = match p.future() {
        SignalFn::Const(a) => Reading::Value(a.clone()),
        SignalFn::Func(f) => Reading::Compute(f.clone()),
    };
    slot.release(handle, p);
    r
}

/// The handler of a defined forward declaration: follow the definition.
#[verifier::reject_recursive_types(A)]
pub struct CycleHandler<A> {
    definition: Slot<Pending<SignalFn<A>>>,
}

impl<A> CycleHandler<A> {
    /// The state cell of the definition followed.
    pub closed spec fn definition(&self) -> Slot<Pending<SignalFn<A>>> {
        self.definition
    }
}

impl<A: Clone + 'static> Handler<(), A> for CycleHandler<A> {
    fn handle(&self, u: ()) -> (r: SignalFn<A>)
        ensures
            forall|a: A| #[trigger] slot_future_const(self.definition(), a) ==> (r matches SignalFn::Const(b)
                && cloned(a, b)),
    {
        cycle_state(&self.definition)
    }
}

/// Forward declaration of a signal, to create value loops.
#[verifier::reject_recursive_types(A)]
pub struct SignalCycle<A> {
    signal: Signal<A>,
}

impl<A> SignalCycle<A> {
    /// The declared signal.
    pub closed spec fn declared(&self) -> Signal<A> {
        self.signal
    }

    #[verifier::type_invariant]
    spec fn undefined(self) -> bool {
        self.signal.is_variable()
    }
}

impl<A: Clone + 'static> SignalCycle<A> {
    /// Forward-declare a signal. Until it is defined it samples as
    /// `A::default()`.
    pub fn new() -> SignalCycle<A>
        where A: Default,
    {
        SignalCycle::with_fallback(A::default())
    }

    /// Forward-declare a signal that samples as `fallback` until it is
    /// defined.
    pub fn with_fallback(fallback: A) -> SignalCycle<A> {
        let fallback_fn = FallbackFn { value: fallback };
        let ghost gf = fallback_fn;
        let func: Box<dyn SignalFunc<A>> = Box::new(fallback_fn);
        let ghost gb = func;
        assert(forall|a: A| gb.may_return(a) == gf.may_return(a));
        let ghost promise = |a: A| gf.may_return(a);
        let signal = Signal::build(SignalFn::Func({
            let arc = Arc::new(func);
            assert(*arc == gb);
            FuncSignal::assemble(arc, Ghost(promise))
        }));
        SignalCycle { signal }
    }

    /// The declared signal.
    pub fn signal(&self) -> (r: &Signal<A>)
        ensures
            r.is_variable(),
    {
        proof {
            use_type_invariant(self);
        }
        &self.signal
    }

    /// Provide the signal with a definition: from now on it follows
    /// `definition`.
    pub fn define(self, definition: Signal<A>) -> (s: Signal<A>)
        ensures
            s.is_variable(),
    {
        proof {
            use_type_invariant(&self);
        }
        let SignalCycle { signal } = self;
        let state = cycle_state(&definition.current);
        let (_old, handle) = signal.current.acquire();
        signal.current.release(handle, Pending::new(state));
        reg_signal_shared(&definition.source, &signal, CycleHandler { definition: definition.current.clone() });
        signal
    }
}

impl<A: Clone + 'static> std::ops::Deref for SignalCycle<A> {
    type Target = Signal<A>;

    fn deref(&self) -> (r: &Signal<A>)
        ensures
            *r == self.declared(),
    {
        &self.signal
    }
}

impl<A: Clone + 'static> Signal<A> {
    /// Create a signal with a cyclic definition: `def` gets a forward
    /// declaration of the signal and returns its definition, which may
    /// depend on the declaration itself.
    pub fn cyclic<F: FnOnce(&Signal<A>) -> Signal<A>>(def: F) -> (s: Signal<A>)
        where A: Default,
        requires
            forall|sig: &Signal<A>| def.requires((sig,)),
        ensures
            s.is_variable(),
    {
        let cycle = SignalCycle::new();
        let finished = def(cycle.signal());
        cycle.define(finished)
    }

    /// Combine the signal with a stream: whenever the stream fires `b`, the
    /// result fires `f(a, b)` with the signal's value `a` from before the
    /// transaction.
    pub fn snapshot<B: Clone + 'static, C: Clone + 'static, F: Fn(A, B) -> C + 'static>(
        &self,
        stream: &Stream<B>,
        f: F,
    ) -> Stream<C>
        requires
            forall|a: A, b: B| f.requires((a, b)),
    {
        stream::snapshot(self, stream, f)
    }
}

impl<A: Clone + 'static> Signal<Signal<A>> {
    /// Switch between signals: the value of whichever inner signal the outer
    /// signal holds at the moment.
    pub fn switch(&self) -> (s: Signal<A>)
        ensures
            self.constant() is Some ==> (s.computed() matches Some(y) && forall|a: A| y(a) == switched(*self, a)),
            self.constant() is None ==> s.is_variable(),
    {
        let switch = SwitchFn { parent: self.clone() };
        let ghost gs = switch;
        let func: Box<dyn SignalFunc<A>> = Box::new(switch);
        let ghost gb = func;
        assert(forall|a: A| gb.may_return(a) == gs.may_return(a));
        let ghost promise = |a: A| switched(*self, a);
        let arc = Arc::new(func);
        assert(*arc == gb);
        let func = FuncSignal::assemble(arc, Ghost(promise));
        if self.is_constant() {
            // The outer signal never changes, so the switch never changes its state.
            Signal::computing(func)
        } else {
            let signal = Signal::build(SignalFn::Func(func));
            reg_signal_shared(&self.source, &signal, SwitchHandler { parent: self.clone() });
            signal
        }
    }
}

impl<A: Clone + 'static> Stream<A> {
    /// Hold the last event in a signal that starts as `initial`.
    pub fn hold(&self, initial: A) -> (s: Signal<A>)
        ensures
            s.constant() == None::<A>,
            s.is_variable(),
    {
        hold(initial, self)
    }

    /// Accumulate the events: a signal that starts as `initial` and, on every
    /// event `a`, becomes `f(s, a)` with its value `s` from before.
    pub fn fold<B: Clone + 'static, F: Fn(B, A) -> B + 'static>(&self, initial: B, f: F) -> (s: Signal<B>)
        requires
            forall|b: B, a: A| f.requires((b, a)),
        ensures
            s.is_variable(),
    {
        let cycle = SignalCycle::with_fallback(initial.clone());
        let stepped = cycle.signal().snapshot(self, f);
        let held = hold(initial, &stepped);
        cycle.define(held)
    }
}

/// The finalizer of `updates`: once the signal's new state is in place,
/// fire its value, in a transaction of its own.
#[verifier::reject_recursive_types(A)]
pub struct EmitUpdate<A> {
    signal: Signal<A>,
    target: Shared<Source<A>>,
    ran: Ghost<bool>,
}

impl<A: Clone + 'static> FnBox for EmitUpdate<A> {
    /// Whether the finalizer has run.
    closed spec fn has_run(&self) -> bool {
        self.ran@
    }

    fn call_box(&mut self) {
        let mut trans = Transaction::new();
        let value = sample_raw(&self.signal, &mut trans);
        stream::send_into(&self.target, value, &mut trans);
        trans.run_finalizers();
        self.ran = Ghost(true);
    }
}

/// The callback of `updates`: on every change of the signal, register the
/// firing of its new value.
#[verifier::reject_recursive_types(A)]
pub struct UpdatesCallback<A> {
    signal: Signal<A>,
    target: Shared<Source<A>>,
}

impl<A: Clone + 'static> Callback<()> for UpdatesCallback<A> {
    /// Every answer is `Ok`.
    open spec fn may_answer(&self, u: (), r: CallbackResult) -> bool {
        r is Ok
    }

    fn call(&mut self, u: (), trans: &mut Transaction) -> (r: CallbackResult)
        ensures
            *final(self) == *old(self),
            r is Ok,
    {
        trans.later(Finalizer::new(EmitUpdate { signal: self.signal.clone(), target: self.target.clone(), ran: Ghost(false) }));
        Ok(())
    }
}

impl<A: Clone + 'static> Signal<A> {
    /// The stream of the signal's changes: every time the signal changes,
    /// it fires the new value once the transaction has committed.
    pub fn updates(&self) -> Stream<A> {
        let target = Shared::new(Source::new());
        let (mut src, handle) = self.source.acquire();
        src.register(Subscriber::new(UpdatesCallback { signal: self.clone(), target: target.clone() }));
        self.source.release(handle, src);
        Stream::from_source(target)
    }
}

/// Something with a value at every moment, which can be sampled.
pub trait Behaviour<A> {
    /// The current value.
    fn sample(&self) -> A;
}

impl<A: Clone + 'static> Behaviour<A> for Signal<A> {
    fn sample(&self) -> (r: A)
        ensures
            self.constant() matches Some(a) ==> cloned(a, r),
            self.computed() matches Some(y) ==> exists|v: A| y(v) && cloned(v, r),
    {
        Signal::sample(self)
    }
}

} // verus!
