//! Low-level push primitives: nodes that receive values, keep a little
//! state, and pass values on to their listeners.
//!
//! Each node owns the list of listeners it pushes to, so its behaviour is a
//! plain state machine: what it stores and what it passes on for each value
//! it accepts.

use vstd::prelude::*;
use std::collections::VecDeque;
use crate::shared::{Shared, WeakShared};
use crate::stream::Events;
use crate::source::{kept, lemma_kept_prefix, with_weak};
use crate::lift::clones_exactly;
use crate::transaction::{Transaction, FnBox, Finalizer};

verus! {

/// Why a listener stops listening.
#[derive(Clone, Copy, Debug, PartialEq, Eq, Structural)]
pub enum ListenerError {
    /// The receiving end has been dropped.
    Disappeared,
    /// The receiving end has been poisoned.
    Poisoned,
}

/// What a listener answers: `Ok` to keep listening, an error to leave.
pub type ListenerResult = Result<(), ListenerError>;

/// A receiver of values.
pub trait Listener<A> {
    /// Whether `r` is an answer the listener may give to the value `a`.
    spec fn may_accept(&self, a: A, r: ListenerResult) -> bool;

    /// Accept one value.
    fn accept(&mut self, a: A) -> (r: ListenerResult)
        ensures
            old(self).may_accept(a, r),
    ;
}

/// A boxed listener.
#[verifier::reject_recursive_types(A)]
pub struct ListenerBox<A> {
    inner: Box<dyn Listener<A>>,
    tag: Ghost<nat>,
}

impl<A> ListenerBox<A> {
    /// Whether `r` is an answer the boxed listener may give to `a`.
    pub closed spec fn may_accept(&self, a: A, r: ListenerResult) -> bool {
        self.inner.may_accept(a, r)
    }

    /// The number the listener was given when it started listening.
    pub closed spec fn tag(&self) -> nat {
        self.tag@
    }

    /// Box a listener.
    pub fn new<L: Listener<A> + 'static>(l: L) -> ListenerBox<A> {
        ListenerBox { inner: Box::new(l), tag: Ghost(0) }
    }

    /// Hand one value to the boxed listener.
    fn accept(&mut self, a: A) -> (r: ListenerResult)
        ensures
            old(self).may_accept(a, r),
            final(self).tag() == old(self).tag(),
    {
        self.inner.accept(a)
    }
}

/// The tags of `ls`, in order.
pub open spec fn tags_of<A>(ls: Seq<ListenerBox<A>>) -> Seq<nat> {
    ls.map_values(|l: ListenerBox<A>| l.tag())
}

/// `l` may have answered `r` to a copy of `a`.
pub open spec fn accepted<A: Clone>(l: ListenerBox<A>, a: A, r: ListenerResult) -> bool {
    exists|c: A| cloned(a, c) && l.may_accept(c, r)
}

/// Something that can be listened to.
pub trait Subject<A> {
    /// Add a listener that receives every later value.
    fn listen(&mut self, listener: ListenerBox<A>);
}

/// Something that has a current value.
pub trait Sample<A> {
    /// The current value.
    fn sample(&self) -> A;
}

/// Something that can be both sampled and listened to.
pub trait SamplingSubject<A>: Sample<A> + Subject<A> {
}

impl<A, T: Sample<A> + Subject<A>> SamplingSubject<A> for T {
}

/// The list of listeners of a node, and the values passed on to them.
#[verifier::reject_recursive_types(A)]
pub struct Source<A> {
    listeners: Vec<ListenerBox<A>>,
    sent: Ghost<Seq<A>>,
    answers: Ghost<Seq<ListenerResult>>,
    next_tag: Ghost<nat>,
}

impl<A> Source<A> {
    /// The tags of the listeners, in the order they listen in.
    pub closed spec fn tags(&self) -> Seq<nat> {
        tags_of(self.listeners@)
    }

    /// The tag the next listener will be given.
    pub closed spec fn next_tag(&self) -> nat {
        self.next_tag@
    }

    /// Number of listeners.
    pub closed spec fn count(&self) -> nat {
        self.listeners@.len()
    }

    /// Every value passed on to the listeners so far, oldest first.
    pub closed spec fn passed_on(&self) -> Seq<A> {
        self.sent@
    }

    /// The listeners, in the order they listen in.
    pub closed spec fn listeners(&self) -> Seq<ListenerBox<A>> {
        self.listeners@
    }

    /// The answers of the listeners to the last value passed on, in the
    /// order they listened in then.
    pub closed spec fn last_answers(&self) -> Seq<ListenerResult> {
        self.answers@
    }

    /// A source without listeners.
    pub fn new() -> (s: Source<A>)
        ensures
            s.count() == 0,
            s.passed_on() == Seq::<A>::empty(),
    {
        Source {
            listeners: Vec::new(),
            sent: Ghost(Seq::empty()),
            answers: Ghost(Seq::empty()),
            next_tag: Ghost(0),
        }
    }

    /// Number of listeners.
    pub fn len(&self) -> (n: usize)
        ensures
            n == self.count(),
    {
        self.listeners.len()
    }
}

impl<A: Clone> Source<A> {
    /// Pass a value to every listener, in order; the listeners that answer
    /// with an error are dropped, the others kept in order.
    pub fn send(&mut self, a: A)
        ensures
            final(self).last_answers().len() == old(self).count(),
            forall|k: int|
                0 <= k < old(self).count() ==> accepted(
                    old(self).listeners()[k],
                    a,
                    #[trigger] final(self).last_answers()[k],
                ),
            final(self).count() == kept(old(self).listeners(), final(self).last_answers(), old(self).count()).len(),
            final(self).tags() == kept(old(self).tags(), final(self).last_answers(), old(self).count()),
            final(self).next_tag() == old(self).next_tag(),
            final(self).count() <= old(self).count(),
            final(self).passed_on() == old(self).passed_on().push(a),
    {
        let ghost passed = self.sent@.push(a);
        let mut old_listeners = Vec::new();
        std::mem::swap(&mut old_listeners, &mut self.listeners);
        let ghost subs = old_listeners@;
        let ghost mut ans: Seq<ListenerResult> = Seq::empty();
        let n = old_listeners.len();
        let mut i: usize = 0;
        while i < n
            invariant
                old_listeners.len() == n - i,
                old_listeners@ == subs.subrange(i as int, n as int),
                subs.len() == n,
                ans.len() == i,
                forall|k: int| 0 <= k < i ==> accepted(subs[k], a, #[trigger] ans[k]),
                self.listeners@.len() == kept(subs, ans, i as nat).len(),
                tags_of(self.listeners@) == kept(tags_of(subs), ans, i as nat),
                self.next_tag@ == old(self).next_tag@,
                self.listeners@.len() <= i,
                i <= n,
            decreases n - i,
        {
            let mut listener = old_listeners.remove(0);
            let ghost before = listener;
            let copy = a.clone();
            let ghost gc = copy;
            let result = listener.accept(copy);
            proof {
                assert(subs[i as int] == before);
                assert(cloned(a, gc) && before.may_accept(gc, result));
                assert(listener.tag() == tags_of(subs)[i as int]);
                let ghost ans2 = ans.push(result);
                lemma_kept_prefix(subs, ans, ans2, i as nat);
                lemma_kept_prefix(tags_of(subs), ans, ans2, i as nat);
                ans = ans2;
            }
            let ghost before_push = self.listeners@;
            if result.is_ok() {
                self.listeners.push(listener);
                assert(tags_of(self.listeners@) =~= tags_of(before_push).push(listener.tag()));
            }
            i = i + 1;
        }
        self.sent = Ghost(passed);
        self.answers = Ghost(ans);
    }
}

impl<A: Clone> Listener<A> for Source<A> {
    /// Every answer is `Ok`.
    open spec fn may_accept(&self, a: A, r: ListenerResult) -> bool {
        r is Ok
    }

    fn accept(&mut self, a: A) -> (r: ListenerResult)
        ensures
            final(self).passed_on() == old(self).passed_on().push(a),
            r is Ok,
    {
        self.send(a);
        Ok(())
    }
}

impl<A> Subject<A> for Source<A> {
    fn listen(&mut self, listener: ListenerBox<A>)
        ensures
            final(self).count() == old(self).count() + 1,
            final(self).tags() == old(self).tags().push(old(self).next_tag()),
            final(self).next_tag() == old(self).next_tag() + 1,
            final(self).passed_on() == old(self).passed_on(),
    {
        let mut listener = listener;
        listener.tag = Ghost(self.next_tag@);
        let ghost before = self.listeners@;
        self.listeners.push(listener);
        self.next_tag = Ghost(self.next_tag@ + 1);
        assert(tags_of(self.listeners@) =~= tags_of(before).push(listener.tag()));
    }
}

/// A unary function known to accept every argument.
#[verifier::reject_recursive_types(A)]
#[verifier::reject_recursive_types(B)]
pub struct Function1<A, B, F: Fn(A) -> B> {
    f: F,
    _types: std::marker::PhantomData<(A, B)>,
}

impl<A, B, F: Fn(A) -> B> Function1<A, B, F> {
    #[verifier::type_invariant]
    spec fn callable(self) -> bool {
        forall|a: A| self.f.requires((a,))
    }

    /// The wrapped function.
    pub closed spec fn function(&self) -> F {
        self.f
    }

    /// Wrap `f`, which must accept every argument.
    pub fn new(f: F) -> (r: Function1<A, B, F>)
        requires
            forall|a: A| f.requires((a,)),
        ensures
            r.function() == f,
    {
        Function1 { f, _types: std::marker::PhantomData }
    }

    /// Apply the function.
    pub fn call(&self, a: A) -> (r: B)
        ensures
            self.function().ensures((a,), r),
    {
        proof {
            use_type_invariant(self);
        }
        (self.f)(a)
    }
}

/// A binary function known to accept every pair of arguments.
#[verifier::reject_recursive_types(A)]
#[verifier::reject_recursive_types(B)]
#[verifier::reject_recursive_types(C)]
pub struct Function2<A, B, C, F: Fn(A, B) -> C> {
    f: F,
    _types: std::marker::PhantomData<(A, B, C)>,
}

impl<A, B, C, F: Fn(A, B) -> C> Function2<A, B, C, F> {
    #[verifier::type_invariant]
    spec fn callable(self) -> bool {
        forall|a: A, b: B| self.f.requires((a, b))
    }

    /// The wrapped function.
    pub closed spec fn function(&self) -> F {
        self.f
    }

    /// Wrap `f`, which must accept every pair of arguments.
    pub fn new(f: F) -> (r: Function2<A, B, C, F>)
        requires
            forall|a: A, b: B| f.requires((a, b)),
        ensures
            r.function() == f,
    {
        Function2 { f, _types: std::marker::PhantomData }
    }

    /// Apply the function.
    pub fn call(&self, a: A, b: B) -> (r: C)
        ensures
            self.function().ensures((a, b), r),
    {
        proof {
            use_type_invariant(self);
        }
        (self.f)(a, b)
    }
}

/// Passes on the image of every value under a function.
#[verifier::reject_recursive_types(A)]
#[verifier::reject_recursive_types(B)]
pub struct Mapper<A, B, F: Fn(A) -> B> {
    func: Function1<A, B, F>,
    source: Source<B>,
}

impl<A, B, F: Fn(A) -> B> Mapper<A, B, F> {
    /// Number of listeners.
    pub closed spec fn listener_count(&self) -> nat {
        self.source.count()
    }

    /// The function applied.
    pub closed spec fn function(&self) -> F {
        self.func.function()
    }

    /// Every value passed on so far, oldest first.
    pub closed spec fn emitted(&self) -> Seq<B> {
        self.source.passed_on()
    }

    /// A mapper without listeners.
    pub fn new(func: F) -> (m: Mapper<A, B, F>)
        requires
            forall|a: A| func.requires((a,)),
        ensures
            m.function() == func,
            m.emitted() == Seq::<B>::empty(),
    {
        Mapper { func: Function1::new(func), source: Source::new() }
    }
}

impl<A, B, F: Fn(A) -> B> Subject<B> for Mapper<A, B, F> {
    fn listen(&mut self, listener: ListenerBox<B>)
        ensures
            final(self).emitted() == old(self).emitted(),
            final(self).listener_count() == old(self).listener_count() + 1,
            final(self).function() == old(self).function(),
    {
        self.source.listen(listener);
    }
}

impl<A, B: Clone, F: Fn(A) -> B> Listener<A> for Mapper<A, B, F> {
    /// Every answer is `Ok`.
    open spec fn may_accept(&self, a: A, r: ListenerResult) -> bool {
        r is Ok
    }

    fn accept(&mut self, a: A) -> (r: ListenerResult)
        ensures
            exists|b: B|
                old(self).function().ensures((a,), b) && final(self).emitted() == old(self).emitted().push(b),
            final(self).function() == old(self).function(),
            r is Ok,
    {
        let b = self.func.call(a);
        let ghost gb = b;
        self.source.send(b);
        assert(old(self).function().ensures((a,), gb) && self.emitted() == old(self).emitted().push(gb));
        Ok(())
    }
}

/// Passes on the values present in the options it accepts.
#[verifier::reject_recursive_types(A)]
pub struct Filter<A> {
    source: Source<A>,
}

impl<A> Filter<A> {
    /// Number of listeners.
    pub closed spec fn listener_count(&self) -> nat {
        self.source.count()
    }

    /// Every value passed on so far, oldest first.
    pub closed spec fn emitted(&self) -> Seq<A> {
        self.source.passed_on()
    }

    /// A filter without listeners.
    pub fn new() -> (f: Filter<A>)
        ensures
            f.emitted() == Seq::<A>::empty(),
    {
        Filter { source: Source::new() }
    }
}

impl<A> Subject<A> for Filter<A> {
    fn listen(&mut self, listener: ListenerBox<A>)
        ensures
            final(self).emitted() == old(self).emitted(),
            final(self).listener_count() == old(self).listener_count() + 1,
    {
        self.source.listen(listener);
    }
}

impl<A: Clone> Listener<Option<A>> for Filter<A> {
    /// Every answer is `Ok`.
    open spec fn may_accept(&self, a: Option<A>, r: ListenerResult) -> bool {
        r is Ok
    }

    fn accept(&mut self, a: Option<A>) -> (r: ListenerResult)
        ensures
            a matches Some(v) ==> final(self).emitted() == old(self).emitted().push(v),
            a is None ==> final(self).emitted() == old(self).emitted(),
            r is Ok,
    {
        match a {
            Some(a) => {
                self.source.send(a);
                Ok(())
            },
            None => Ok(()),
        }
    }
}

/// Holds the last value accepted and passes it on.
#[verifier::reject_recursive_types(A)]
pub struct Holder<A> {
    current: A,
    source: Source<A>,
}

impl<A> Holder<A> {
    /// Number of listeners.
    pub closed spec fn listener_count(&self) -> nat {
        self.source.count()
    }

    /// The value held.
    pub closed spec fn held(&self) -> A {
        self.current
    }

    /// Every value passed on so far, oldest first.
    pub closed spec fn emitted(&self) -> Seq<A> {
        self.source.passed_on()
    }

    /// A holder of `initial` without listeners.
    pub fn new(initial: A) -> (h: Holder<A>)
        ensures
            h.held() == initial,
            h.emitted() == Seq::<A>::empty(),
    {
        Holder { current: initial, source: Source::new() }
    }
}

impl<A: Clone> Sample<A> for Holder<A> {
    fn sample(&self) -> (r: A)
        ensures
            cloned(self.held(), r),
    {
        self.current.clone()
    }
}

impl<A> Subject<A> for Holder<A> {
    fn listen(&mut self, listener: ListenerBox<A>)
        ensures
            final(self).emitted() == old(self).emitted(),
            final(self).listener_count() == old(self).listener_count() + 1,
            final(self).held() == old(self).held(),
    {
        self.source.listen(listener);
    }
}

impl<A: Clone> Listener<A> for Holder<A> {
    /// Every answer is `Ok`.
    open spec fn may_accept(&self, a: A, r: ListenerResult) -> bool {
        r is Ok
    }

    fn accept(&mut self, a: A) -> (r: ListenerResult)
        ensures
            cloned(a, final(self).held()),
            final(self).emitted() == old(self).emitted().push(a),
            r is Ok,
    {
        self.current = a.clone();
        self.source.send(a);
        Ok(())
    }
}

/// Passes on the updates of a sampled node.
#[verifier::reject_recursive_types(A)]
pub struct Updates<A> {
    source: Source<A>,
}

impl<A> Updates<A> {
    /// Number of listeners.
    pub closed spec fn listener_count(&self) -> nat {
        self.source.count()
    }

    /// Every value passed on so far, oldest first.
    pub closed spec fn emitted(&self) -> Seq<A> {
        self.source.passed_on()
    }

    /// An updates node without listeners.
    pub fn new() -> (u: Updates<A>)
        ensures
            u.emitted() == Seq::<A>::empty(),
    {
        Updates { source: Source::new() }
    }
}

impl<A> Subject<A> for Updates<A> {
    fn listen(&mut self, listener: ListenerBox<A>)
        ensures
            final(self).emitted() == old(self).emitted(),
            final(self).listener_count() == old(self).listener_count() + 1,
    {
        self.source.listen(listener);
    }
}

impl<A: Clone> Listener<A> for Updates<A> {
    /// Every answer is `Ok`.
    open spec fn may_accept(&self, a: A, r: ListenerResult) -> bool {
        r is Ok
    }

    fn accept(&mut self, a: A) -> (r: ListenerResult)
        ensures
            final(self).emitted() == old(self).emitted().push(a),
            r is Ok,
    {
        self.source.send(a);
        Ok(())
    }
}

/// Pairs every value it accepts with the current value of a sampled node.
#[verifier::reject_recursive_types(A)]
#[verifier::reject_recursive_types(B)]
pub struct Snapper<A, B> {
    current: A,
    source: Source<(A, B)>,
}

impl<A, B> Snapper<A, B> {
    /// Number of listeners.
    pub closed spec fn listener_count(&self) -> nat {
        self.source.count()
    }

    /// The value the accepted values are paired with.
    pub closed spec fn held(&self) -> A {
        self.current
    }

    /// Every pair passed on so far, oldest first.
    pub closed spec fn emitted(&self) -> Seq<(A, B)> {
        self.source.passed_on()
    }

    /// A snapper pairing with `initial`, without listeners.
    pub fn new(initial: A) -> (s: Snapper<A, B>)
        ensures
            s.held() == initial,
            s.emitted() == Seq::<(A, B)>::empty(),
    {
        Snapper { current: initial, source: Source::new() }
    }

    /// Change the value the accepted values are paired with, as the sampled
    /// node does when its transaction commits.
    pub fn update(&mut self, a: A)
        ensures
            final(self).held() == a,
            final(self).emitted() == old(self).emitted(),
    {
        self.current = a;
    }
}

impl<A: Clone, B: Clone> Listener<B> for Snapper<A, B> {
    /// Every answer is `Ok`.
    open spec fn may_accept(&self, b: B, r: ListenerResult) -> bool {
        r is Ok
    }

    fn accept(&mut self, b: B) -> (r: ListenerResult)
        ensures
            final(self).held() == old(self).held(),
            exists|a: A| cloned(old(self).held(), a) && final(self).emitted() == old(self).emitted().push((a, b)),
            r is Ok,
    {
        let a = self.current.clone();
        let ghost ga = a;
        let pair = (a, b);
        self.source.send(pair);
        assert(cloned(old(self).held(), ga) && self.emitted() == old(self).emitted().push((ga, b)));
        Ok(())
    }
}

impl<A, B> Subject<(A, B)> for Snapper<A, B> {
    fn listen(&mut self, listener: ListenerBox<(A, B)>)
        ensures
            final(self).emitted() == old(self).emitted(),
            final(self).listener_count() == old(self).listener_count() + 1,
            final(self).held() == old(self).held(),
    {
        self.source.listen(listener);
    }
}

/// Feeds the values it accepts into a snapper held weakly, as the values
/// that snapper pairs with. The change is deferred to the end of the
/// transaction; it stays subscribed whether or not the snapper is still
/// alive.
#[verifier::reject_recursive_types(A)]
#[verifier::reject_recursive_types(B)]
pub struct WeakSnapperWrapper<A, B> {
    weak: WeakShared<Snapper<A, B>>,
}

/// The finalizer that gives a snapper held weakly its new paired value.
#[verifier::reject_recursive_types(A)]
#[verifier::reject_recursive_types(B)]
pub struct SnapperUpdate<A, B> {
    weak: WeakShared<Snapper<A, B>>,
    value: Option<A>,
    ran: Ghost<bool>,
}

impl<A, B> FnBox for SnapperUpdate<A, B> {
    /// Whether the finalizer has run.
    closed spec fn has_run(&self) -> bool {
        self.ran@
    }

    fn call_box(&mut self) {
        if let Some(a) = self.value.take() {
            let update = move |s: &mut Snapper<A, B>| s.update(a);
            let _ = with_weak(&self.weak, update);
        }
        self.ran = Ghost(true);
    }
}

impl<A: 'static, B: 'static> WeakSnapperWrapper<A, B> {
    /// A listener feeding the snapper behind `strong`, without keeping it
    /// alive.
    pub fn new(strong: &Shared<Snapper<A, B>>) -> WeakSnapperWrapper<A, B> {
        WeakSnapperWrapper { weak: strong.downgrade() }
    }

    /// A boxed listener feeding the snapper behind `strong`.
    pub fn boxed(strong: &Shared<Snapper<A, B>>) -> ListenerBox<A> {
        ListenerBox::new(WeakSnapperWrapper::new(strong))
    }

    /// Register with `trans` the finalizer that gives the snapper `a` as its
    /// paired value: exactly one finalizer is appended, the earlier ones
    /// stay, and nothing runs now.
    pub fn defer(&self, a: A, trans: &mut Transaction)
        ensures
            final(trans).pending().len() == old(trans).pending().len() + 1,
            final(trans).pending().subrange(0, old(trans).pending().len() as int) == old(trans).pending(),
            final(trans).ran() == old(trans).ran(),
    {
        let update = SnapperUpdate { weak: self.weak.clone(), value: Some(a), ran: Ghost(false) };
        trans.later(Finalizer::new(update));
    }
}

impl<A: 'static, B: 'static> Listener<A> for WeakSnapperWrapper<A, B> {
    /// Every answer is `Ok`.
    open spec fn may_accept(&self, a: A, r: ListenerResult) -> bool {
        r is Ok
    }

    /// Accept `a` in a transaction of its own: defer the update and commit.
    fn accept(&mut self, a: A) -> (r: ListenerResult)
        ensures
            r is Ok,
    {
        let mut trans = Transaction::new();
        self.defer(a, &mut trans);
        trans.run_finalizers();
        Ok(())
    }
}

/// Passes on every value it accepts from either of two nodes.
#[verifier::reject_recursive_types(A)]
pub struct Merger<A> {
    source: Source<A>,
}

impl<A> Merger<A> {
    /// Number of listeners.
    pub closed spec fn listener_count(&self) -> nat {
        self.source.count()
    }

    /// Every value passed on so far, oldest first.
    pub closed spec fn emitted(&self) -> Seq<A> {
        self.source.passed_on()
    }

    /// A merger without listeners.
    pub fn new() -> (m: Merger<A>)
        ensures
            m.emitted() == Seq::<A>::empty(),
    {
        Merger { source: Source::new() }
    }
}

impl<A: Clone> Listener<A> for Merger<A> {
    /// Every answer is `Ok`.
    open spec fn may_accept(&self, a: A, r: ListenerResult) -> bool {
        r is Ok
    }

    fn accept(&mut self, a: A) -> (r: ListenerResult)
        ensures
            final(self).emitted() == old(self).emitted().push(a),
            r is Ok,
    {
        self.source.send(a);
        Ok(())
    }
}

impl<A> Subject<A> for Merger<A> {
    fn listen(&mut self, listener: ListenerBox<A>)
        ensures
            final(self).emitted() == old(self).emitted(),
            final(self).listener_count() == old(self).listener_count() + 1,
    {
        self.source.listen(listener);
    }
}

/// Holds the last values of two nodes and passes on a function of both.
#[verifier::reject_recursive_types(A)]
#[verifier::reject_recursive_types(B)]
#[verifier::reject_recursive_types(C)]
pub struct Lift2<A, B, C, F: Fn(A, B) -> C> {
    current: (A, B),
    f: Function2<A, B, C, F>,
    source: Source<C>,
}

impl<A, B, C, F: Fn(A, B) -> C> Lift2<A, B, C, F> {
    /// Number of listeners.
    pub closed spec fn listener_count(&self) -> nat {
        self.source.count()
    }

    /// The last values of the two nodes.
    pub closed spec fn held(&self) -> (A, B) {
        self.current
    }

    /// The function applied.
    pub closed spec fn function(&self) -> F {
        self.f.function()
    }

    /// Every value passed on so far, oldest first.
    pub closed spec fn emitted(&self) -> Seq<C> {
        self.source.passed_on()
    }

    /// `c` is the function of copies of the held values.
    pub open spec fn applied(&self, c: C) -> bool
        where A: Clone, B: Clone,
    {
        exists|a: A, b: B| cloned(self.held().0, a) && cloned(self.held().1, b) && self.function().ensures((a, b), c)
    }

    /// A lift of `f` holding `initial`, without listeners.
    pub fn new(initial: (A, B), f: F) -> (l: Lift2<A, B, C, F>)
        requires
            forall|a: A, b: B| f.requires((a, b)),
        ensures
            l.held() == initial,
            l.function() == f,
            l.emitted() == Seq::<C>::empty(),
    {
        Lift2 { current: initial, f: Function2::new(f), source: Source::new() }
    }
}

impl<A: Clone, B: Clone, C: Clone, F: Fn(A, B) -> C> Lift2<A, B, C, F> {
    /// The function applied to copies of the held values.
    fn apply(&self) -> (r: C)
        ensures
            self.applied(r),
    {
        let a = self.current.0.clone();
        let b = self.current.1.clone();
        let ghost (ga, gb) = (a, b);
        let r = self.f.call(a, b);
        assert(cloned(self.held().0, ga) && cloned(self.held().1, gb) && self.function().ensures((ga, gb), r));
        r
    }

    /// Accept a new value of the second node and pass on the function of
    /// both held values.
    pub fn accept_second(&mut self, b: B) -> (r: ListenerResult)
        ensures
            final(self).held() == (old(self).held().0, b),
            final(self).function() == old(self).function(),
            exists|c: C| final(self).applied(c) && final(self).emitted() == old(self).emitted().push(c),
            r is Ok,
    {
        self.current.1 = b;
        let c = self.apply();
        let ghost gc = c;
        let ghost (x, y) = choose|x: A, y: B|
            cloned(self.held().0, x) && cloned(self.held().1, y) && self.function().ensures((x, y), gc);
        self.source.send(c);
        assert(cloned(self.held().0, x) && cloned(self.held().1, y) && self.function().ensures((x, y), gc));
        assert(self.applied(gc));
        assert(self.emitted() == old(self).emitted().push(gc));
        Ok(())
    }
}

impl<A, B, C, F: Fn(A, B) -> C> Subject<C> for Lift2<A, B, C, F> {
    fn listen(&mut self, listener: ListenerBox<C>)
        ensures
            final(self).emitted() == old(self).emitted(),
            final(self).listener_count() == old(self).listener_count() + 1,
            final(self).held() == old(self).held(),
            final(self).function() == old(self).function(),
    {
        self.source.listen(listener);
    }
}

impl<A: Clone, B: Clone, C: Clone, F: Fn(A, B) -> C> Listener<A> for Lift2<A, B, C, F> {
    /// Every answer is `Ok`.
    open spec fn may_accept(&self, a: A, r: ListenerResult) -> bool {
        r is Ok
    }

    fn accept(&mut self, a: A) -> (r: ListenerResult)
        ensures
            final(self).held() == (a, old(self).held().1),
            final(self).function() == old(self).function(),
            exists|c: C| final(self).applied(c) && final(self).emitted() == old(self).emitted().push(c),
            r is Ok,
    {
        self.current.0 = a;
        let c = self.apply();
        let ghost gc = c;
        let ghost (x, y) = choose|x: A, y: B|
            cloned(self.held().0, x) && cloned(self.held().1, y) && self.function().ensures((x, y), gc);
        self.source.send(c);
        assert(cloned(self.held().0, x) && cloned(self.held().1, y) && self.function().ensures((x, y), gc));
        assert(self.applied(gc));
        assert(self.emitted() == old(self).emitted().push(gc));
        Ok(())
    }
}

impl<A: Clone, B: Clone, C: Clone, F: Fn(A, B) -> C> Sample<C> for Lift2<A, B, C, F> {
    fn sample(&self) -> (r: C)
        ensures
            self.applied(r),
    {
        self.apply()
    }
}

/// A node in a loop of the graph: holds the last value accepted and passes
/// it on.
#[verifier::reject_recursive_types(A)]
pub struct LoopCell<A> {
    current: A,
    source: Source<A>,
}

impl<A> LoopCell<A> {
    /// Number of listeners.
    pub closed spec fn listener_count(&self) -> nat {
        self.source.count()
    }

    /// The value held.
    pub closed spec fn held(&self) -> A {
        self.current
    }

    /// Every value passed on so far, oldest first.
    pub closed spec fn emitted(&self) -> Seq<A> {
        self.source.passed_on()
    }

    /// A loop node holding `initial`, without listeners.
    pub fn new(initial: A) -> (c: LoopCell<A>)
        ensures
            c.held() == initial,
            c.emitted() == Seq::<A>::empty(),
    {
        LoopCell { current: initial, source: Source::new() }
    }
}

impl<A> Subject<A> for LoopCell<A> {
    fn listen(&mut self, listener: ListenerBox<A>)
        ensures
            final(self).emitted() == old(self).emitted(),
            final(self).listener_count() == old(self).listener_count() + 1,
            final(self).held() == old(self).held(),
    {
        self.source.listen(listener);
    }
}

impl<A: Clone> Listener<A> for LoopCell<A> {
    /// Every answer is `Ok`.
    open spec fn may_accept(&self, a: A, r: ListenerResult) -> bool {
        r is Ok
    }

    fn accept(&mut self, a: A) -> (r: ListenerResult)
        ensures
            cloned(a, final(self).held()),
            final(self).emitted() == old(self).emitted().push(a),
            r is Ok,
    {
        self.current = a.clone();
        self.source.send(a);
        Ok(())
    }
}

impl<A: Clone> Sample<A> for LoopCell<A> {
    fn sample(&self) -> (r: A)
        ensures
            cloned(self.held(), r),
    {
        self.current.clone()
    }
}

/// The entry into a loop of the graph, fed with the data the loop produces.
#[verifier::reject_recursive_types(A)]
pub struct LoopCellEntry<A> {
    current: A,
    source: Source<A>,
}

impl<A> LoopCellEntry<A> {
    /// Number of listeners.
    pub closed spec fn listener_count(&self) -> nat {
        self.source.count()
    }

    /// The value held.
    pub closed spec fn held(&self) -> A {
        self.current
    }

    /// Every value passed on so far, oldest first.
    pub closed spec fn emitted(&self) -> Seq<A> {
        self.source.passed_on()
    }

    /// A loop entry holding `initial`, without listeners.
    pub fn new(initial: A) -> (c: LoopCellEntry<A>)
        ensures
            c.held() == initial,
            c.emitted() == Seq::<A>::empty(),
    {
        LoopCellEntry { current: initial, source: Source::new() }
    }
}

impl<A> Subject<A> for LoopCellEntry<A> {
    fn listen(&mut self, listener: ListenerBox<A>)
        ensures
            final(self).emitted() == old(self).emitted(),
            final(self).listener_count() == old(self).listener_count() + 1,
            final(self).held() == old(self).held(),
    {
        self.source.listen(listener);
    }
}

impl<A: Clone> Listener<A> for LoopCellEntry<A> {
    /// Every answer is `Ok`.
    open spec fn may_accept(&self, a: A, r: ListenerResult) -> bool {
        r is Ok
    }

    fn accept(&mut self, a: A) -> (r: ListenerResult)
        ensures
            cloned(a, final(self).held()),
            final(self).emitted() == old(self).emitted().push(a),
            r is Ok,
    {
        self.current = a.clone();
        self.source.send(a);
        Ok(())
    }
}

impl<A: Clone> Sample<A> for LoopCellEntry<A> {
    fn sample(&self) -> (r: A)
        ensures
            cloned(self.held(), r),
    {
        self.current.clone()
    }
}

/// Buffers every value it accepts for a receiver to take, for as long as
/// the receiver exists.
#[verifier::reject_recursive_types(A)]
pub struct ChannelBuffer<A> {
    queue: WeakShared<VecDeque<A>>,
}

impl<A> ChannelBuffer<A> {
    /// A buffer and the receiver that takes what it buffers.
    pub fn new() -> (ChannelBuffer<A>, Events<A>) {
        let queue = Shared::new(VecDeque::new());
        (ChannelBuffer { queue: queue.downgrade() }, Events::from_queue(queue))
    }
}

impl<A> Listener<A> for ChannelBuffer<A> {
    /// `Ok`, or `Disappeared` once the receiver is gone.
    open spec fn may_accept(&self, a: A, r: ListenerResult) -> bool {
        r is Ok || r == Err::<(), ListenerError>(ListenerError::Disappeared)
    }

    fn accept(&mut self, a: A) -> (r: ListenerResult)
        ensures
            r is Err ==> r == Err::<(), ListenerError>(ListenerError::Disappeared),
    {
        match self.queue.upgrade() {
            Some(queue) => {
                let (mut q, handle) = queue.acquire();
                q.push_back(a);
                queue.release(handle, q);
                Ok(())
            },
            None => Err(ListenerError::Disappeared),
        }
    }
}

/// A holding node samples as the last value it accepted and passes that
/// value on: `after` is `before` after `accept(a)`, and `sampled` is what
/// sampling `after` gives.
pub proof fn law_holder_samples_last_accepted<A: Clone>(before: Holder<A>, after: Holder<A>, a: A, sampled: A)
    requires
        clones_exactly::<A>(),
        cloned(a, after.held()),
        after.emitted() == before.emitted().push(a),
        cloned(after.held(), sampled),
    ensures
        sampled == a,
        after.held() == a,
        after.emitted().last() == sampled,
{
}

/// A binary lift node samples as its function of the two values it holds:
/// after accepting `a` on the first side and `b` on the second, a sample is
/// `f(a, b)`.
pub proof fn law_lift2_samples_function_of_held<A: Clone, B: Clone, C, F: Fn(A, B) -> C>(
    f: F,
    a: A,
    b: B,
    sampled: C,
)
    requires
        clones_exactly::<A>(),
        clones_exactly::<B>(),
        exists|a2: A, b2: B| cloned(a, a2) && cloned(b, b2) && f.ensures((a2, b2), sampled),
    ensures
        f.ensures((a, b), sampled),
{
}

} // verus!
