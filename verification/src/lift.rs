//! Lifting of n-ary functions.
//!
//! A lift maps a function on values to a function on signals: given
//! `f: Fn(A, B, ...) -> R` and signals of `A`, `B`, ..., the lifted signal
//! of `R` always holds `f` applied to the values of the argument signals.

use vstd::prelude::*;
use std::sync::Arc;
use crate::signal::{
    Signal, SignalFn, SignalFunc, FuncSignal, may_sample, lemma_constant_or_computed, Handler, signal_build, signal_source, future_state,
    sample_raw, reg_signal_shared,
};
use crate::transaction::Transaction;

verus! {

/// `b` is what `f` may return for a copy of `a`.
pub open spec fn applies1<A: Clone, B, F: Fn(A) -> B>(f: F, a: A, b: B) -> bool {
    exists|a2: A| cloned(a, a2) && f.ensures((a2,), b)
}

/// `c` is what `f` may return for copies of `a` and `b`.
pub open spec fn applies2<A: Clone, B: Clone, C, F: Fn(A, B) -> C>(f: F, a: A, b: B, c: C) -> bool {
    exists|a2: A, b2: B| cloned(a, a2) && cloned(b, b2) && f.ensures((a2, b2), c)
}

/// `b` is what `f` may return for a value `sa` may sample as.
pub open spec fn lifted1<A: Clone, B, F: Fn(A) -> B>(f: F, sa: Signal<A>, b: B) -> bool {
    exists|a: A| may_sample(sa, a) && f.ensures((a,), b)
}

/// `c` is what `f` may return for values `sa` and `sb` may sample as.
pub open spec fn lifted2<A: Clone, B: Clone, C, F: Fn(A, B) -> C>(f: F, sa: Signal<A>, sb: Signal<B>, c: C) -> bool {
    exists|a: A, b: B| may_sample(sa, a) && may_sample(sb, b) && f.ensures((a, b), c)
}

/// What a unary lift promises: over a constant signal it is the constant
/// image of the value; over a signal that computes its value it computes
/// `f` of a value that signal may sample as; over a signal that may change
/// it may change too.
pub open spec fn lift1_relation<A: Clone, B, F: Fn(A) -> B>(f: F, sa: Signal<A>, s: Signal<B>) -> bool {
    &&& sa.constant() matches Some(a) ==> (s.constant() matches Some(b) && applies1(f, a, b))
    &&& sa.constant() is None ==> s.constant() is None
    &&& sa.computed() is Some ==> (s.computed() matches Some(y) && forall|b: B| y(b) == lifted1(f, sa, b))
    &&& sa.computed() is None ==> s.computed() is None
}

/// What a binary lift promises: over two constant signals it is the
/// constant image of their values, otherwise it may change.
pub open spec fn lift2_relation<A: Clone, B: Clone, C, F: Fn(A, B) -> C>(
    f: F,
    sa: Signal<A>,
    sb: Signal<B>,
    s: Signal<C>,
) -> bool {
    &&& sa.constant() matches Some(a) ==> sb.constant() matches Some(b) ==> (s.constant() matches Some(
        c) && applies2(f, a, b, c))
    &&& (sa.constant() is None || sb.constant() is None) ==> s.constant() is None
    &&& (sa.constant() is Some || sa.computed() is Some) && (sb.constant() is Some || sb.computed() is Some) && (
    sa.computed() is Some || sb.computed() is Some) ==> (s.computed() matches Some(y) && forall|c: C|
        y(c) == lifted2(f, sa, sb, c))
    &&& sa.computed() is None && sb.computed() is None ==> s.computed() is None
    &&& is_changing(sa) || is_changing(sb) ==> is_changing(s)
}

/// `s` may change: it is neither a constant nor a signal that computes its
/// value from a state that never changes.
pub open spec fn is_changing<A>(s: Signal<A>) -> bool {
    s.constant() is None && s.computed() is None
}

/// `s` never changes its state: a constant, or a signal that computes its
/// value.
pub open spec fn is_steady<A>(s: Signal<A>) -> bool {
    s.constant() is Some || s.computed() is Some
}

/// What a ternary lift promises of the kind of signal it gives: constant over
/// constants, computing over steady arguments one of which computes, and
/// changing as soon as any argument may change.
pub open spec fn lift3_kind<A, B, C, R>(ca: Signal<A>, cb: Signal<B>, cc: Signal<C>, s: Signal<R>) -> bool {
    &&& ca.constant() is Some && cb.constant() is Some && cc.constant() is Some ==> s.constant() is Some
    &&& is_steady(ca) && is_steady(cb) && is_steady(cc) && (ca.computed() is Some || cb.computed() is Some
        || cc.computed() is Some) ==> s.computed() is Some
    &&& is_changing(ca) || is_changing(cb) || is_changing(cc) ==> is_changing(s)
}

/// What a quaternary lift promises of the kind of signal it gives, as for
/// `lift3_kind`.
pub open spec fn lift4_kind<A, B, C, D, R>(
    ca: Signal<A>,
    cb: Signal<B>,
    cc: Signal<C>,
    cd: Signal<D>,
    s: Signal<R>,
) -> bool {
    &&& ca.constant() is Some && cb.constant() is Some && cc.constant() is Some && cd.constant() is Some
        ==> s.constant() is Some
    &&& is_steady(ca) && is_steady(cb) && is_steady(cc) && is_steady(cd) && (ca.computed() is Some
        || cb.computed() is Some || cc.computed() is Some || cd.computed() is Some) ==> s.computed() is Some
    &&& is_changing(ca) || is_changing(cb) || is_changing(cc) || is_changing(cd) ==> is_changing(s)
}

/// Lift a function without arguments: a signal that evaluates `f` whenever
/// it is sampled, at most once per transaction, so that every sample is a
/// copy of a value `f` returns.
pub fn lift0<A: 'static, F: Fn() -> A + 'static>(f: F) -> (s: Signal<A>)
    requires
        f.requires(()),
    ensures
        s.constant() == None::<A>,
        s.computed() matches Some(y) && forall|a: A| y(a) == f.ensures((), a),
{
    let func = FuncSignal::new(f);
    let ghost g = func;
    let s = Signal::computing(func);
    proof {
        let y = s.computed()->Some_0;
        assert forall|a: A| y(a) == f.ensures((), a) by {
            assert(y(a) == g.may_return(a));
        }
    }
    s
}

/// The signal function of a unary lift: `f` of the parent's value.
#[verifier::reject_recursive_types(A)]
#[verifier::reject_recursive_types(B)]
pub struct Lift1Fn<A, B, F: Fn(A) -> B> {
    f: Arc<F>,
    parent: Signal<A>,
    _result: std::marker::PhantomData<B>,
}

impl<A, B, F: Fn(A) -> B> Lift1Fn<A, B, F> {
    #[verifier::type_invariant]
    spec fn callable(self) -> bool {
        forall|a: A| (*self.f).requires((a,))
    }

    /// The lifted function.
    pub closed spec fn function(&self) -> F {
        *self.f
    }

    /// The signal whose value the function is applied to.
    pub closed spec fn parent(&self) -> Signal<A> {
        self.parent
    }
}

impl<A: Clone + 'static, B, F: Fn(A) -> B> SignalFunc<B> for Lift1Fn<A, B, F> {
    /// The function of a value of the parent: of a copy of its constant,
    /// when it is one.
    open spec fn may_return(&self, b: B) -> bool {
        lifted1(self.function(), self.parent(), b)
    }

    fn call(&self, trans: &mut Transaction) -> (r: B)
        ensures
            lifted1(self.function(), self.parent(), r),
    {
        proof {
            use_type_invariant(self);
        }
        let a = sample_raw(&self.parent, trans);
        let ghost ga = a;
        let f: &F = &self.f;
        let r = f(a);
        assert(may_sample(self.parent(), ga) && self.function().ensures((ga,), r));
        r
    }
}

/// The state of a unary lift, given the future state of its parent: a
/// constant if the parent is one, else a function sampling the parent.
fn lift1_state<A: Clone + 'static, B: 'static, F: Fn(A) -> B + 'static>(f: &Arc<F>, parent: &Signal<A>) -> (r: SignalFn<B>)
    requires
        forall|a: A| (**f).requires((a,)),
    ensures
        parent.constant() matches Some(a) ==> (r matches SignalFn::Const(b) && applies1(**f, a, b)),
{
    let state = future_state(parent);
    let ghost g = state;
    let r = lift1_from_state(f, state, parent);
    proof {
        if let Some(a) = parent.constant() {
            let a2 = g->Const_0;
            let b = r->Const_0;
            assert(cloned(a, a2) && (**f).ensures((a2,), b));
        }
    }
    r
}

/// The state of a unary lift whose parent's future state is `state`: the
/// image of a constant is a constant, and otherwise the lift samples the
/// parent whenever it is sampled itself.
pub fn lift1_from_state<A: Clone + 'static, B: 'static, F: Fn(A) -> B + 'static>(
    f: &Arc<F>,
    state: SignalFn<A>,
    parent: &Signal<A>,
) -> (r: SignalFn<B>)
    requires
        forall|a: A| (**f).requires((a,)),
    ensures
        state matches SignalFn::Const(a) ==> (r matches SignalFn::Const(b) && (**f).ensures((a,), b)),
        state is Func ==> r is Func,
{
    match state {
        SignalFn::Const(a) => {
            let g: &F = &f;
            SignalFn::Const(g(a))
        },
        SignalFn::Func(_) => {
            let lifted = Lift1Fn { f: f.clone(), parent: parent.clone(), _result: std::marker::PhantomData };
            let ghost gl = lifted;
            let func: Box<dyn SignalFunc<B>> = Box::new(lifted);
            let ghost gb = func;
            assert(forall|b: B| gb.may_return(b) == gl.may_return(b));
            let ghost promise = |b: B| gl.may_return(b);
            SignalFn::Func({
            let arc = Arc::new(func);
            assert(*arc == gb);
            FuncSignal::assemble(arc, Ghost(promise))
        })
        },
    }
}

/// The handler of a unary lift: recompute the state from the parent's.
#[verifier::reject_recursive_types(A)]
#[verifier::reject_recursive_types(B)]
pub struct Lift1Handler<A, B, F: Fn(A) -> B> {
    f: Arc<F>,
    parent: Signal<A>,
    _result: std::marker::PhantomData<B>,
}

impl<A, B, F: Fn(A) -> B> Lift1Handler<A, B, F> {
    #[verifier::type_invariant]
    spec fn callable(self) -> bool {
        forall|a: A| (*self.f).requires((a,))
    }

    /// The lifted function.
    pub closed spec fn function(&self) -> F {
        *self.f
    }

    /// The signal whose value the function is applied to.
    pub closed spec fn parent(&self) -> Signal<A> {
        self.parent
    }
}

impl<A: Clone + 'static, B: 'static, F: Fn(A) -> B + 'static> Handler<(), B> for Lift1Handler<A, B, F> {
    fn handle(&self, u: ()) -> (r: SignalFn<B>)
        ensures
            self.parent().constant() matches Some(a) ==> (r matches SignalFn::Const(b) && applies1(
                self.function(),
                a,
                b,
            )),
    {
        proof {
            use_type_invariant(self);
        }
        lift1_state(&self.f, &self.parent)
    }
}

/// Lift a unary function: a signal that always holds `f` of the value of
/// `sa`. Lifting a constant signal gives a constant signal.
pub fn lift1<A: Clone + 'static, B: Clone + 'static, F: Fn(A) -> B + 'static>(f: F, sa: &Signal<A>) -> (s: Signal<B>)
    requires
        forall|a: A| f.requires((a,)),
    ensures
        lift1_relation(f, *sa, s),
{
    let f = Arc::new(f);
    if sa.is_constant() {
        match lift1_state(&f, sa) {
            SignalFn::Const(b) => Signal::new(b),
            SignalFn::Func(g) => signal_build(SignalFn::Func(g)),
        }
    } else if sa.is_computed() {
        computed_lift1(&f, sa)
    } else {
        let signal = signal_build(lift1_state(&f, sa));
        reg_signal_shared(
            signal_source(sa),
            &signal,
            Lift1Handler { f, parent: sa.clone(), _result: std::marker::PhantomData },
        );
        signal
    }
}

/// A unary lift over a signal that computes its value: it never changes its
/// state, and computes `f` of a sample of `sa`.
fn computed_lift1<A: Clone + 'static, B: Clone + 'static, F: Fn(A) -> B + 'static>(f: &Arc<F>, sa: &Signal<A>) -> (s: Signal<B>)
    requires
        forall|a: A| (**f).requires((a,)),
    ensures
        s.constant() == None::<B>,
        s.computed() matches Some(y) && forall|b: B| y(b) == lifted1(**f, *sa, b),
{
    let lifted = Lift1Fn { f: f.clone(), parent: sa.clone(), _result: std::marker::PhantomData };
    let ghost gl = lifted;
    assert forall|b: B| gl.may_return(b) == lifted1(**f, *sa, b) by {
        assert forall|a: A| may_sample(gl.parent(), a) == may_sample(*sa, a) by {}
        if lifted1(**f, *sa, b) {
            let a = choose|a: A| may_sample(*sa, a) && (**f).ensures((a,), b);
            assert(may_sample(gl.parent(), a) && gl.function().ensures((a,), b));
        }
        if gl.may_return(b) {
            let a = choose|a: A| may_sample(gl.parent(), a) && gl.function().ensures((a,), b);
            assert(may_sample(*sa, a));
        }
    }
    let func: Box<dyn SignalFunc<B>> = Box::new(lifted);
    let ghost gb = func;
    assert(forall|b: B| gb.may_return(b) == gl.may_return(b));
    let ghost promise = |b: B| lifted1(**f, *sa, b);
    let arc = Arc::new(func);
    assert(*arc == gb);
    let fs = FuncSignal::assemble(arc, Ghost(promise));
    let s = Signal::computing(fs);
    s
}

/// A binary lift over signals that are constant or compute their values, at
/// least one of them computing: it never changes its state, and computes
/// `f` of samples of `sa` and `sb`.
fn computed_lift2<A: Clone + 'static, B: Clone + 'static, C: Clone + 'static, F: Fn(A, B) -> C + 'static>(
    f: &Arc<F>,
    sa: &Signal<A>,
    sb: &Signal<B>,
) -> (s: Signal<C>)
    requires
        forall|a: A, b: B| (**f).requires((a, b)),
    ensures
        s.constant() == None::<C>,
        s.computed() matches Some(y) && forall|c: C| y(c) == lifted2(**f, *sa, *sb, c),
{
    let lifted = Lift2Fn {
        f: f.clone(),
        left: Lift2Arg::Sampled(sa.clone()),
        right: Lift2Arg::Sampled(sb.clone()),
        _result: std::marker::PhantomData,
    };
    let ghost gl = lifted;
    assert forall|c: C| gl.may_return(c) == lifted2(**f, *sa, *sb, c) by {
        assert forall|a: A| gl.left().admits(a) == may_sample(*sa, a) by {}
        assert forall|b: B| gl.right().admits(b) == may_sample(*sb, b) by {}
        if lifted2(**f, *sa, *sb, c) {
            let (a, b) = choose|a: A, b: B| may_sample(*sa, a) && may_sample(*sb, b) && (**f).ensures((a, b), c);
            assert(gl.left().admits(a) && gl.right().admits(b) && gl.function().ensures((a, b), c));
        }
        if gl.may_return(c) {
            let (a, b) = choose|a: A, b: B|
                gl.left().admits(a) && gl.right().admits(b) && gl.function().ensures((a, b), c);
            assert(may_sample(*sa, a) && may_sample(*sb, b));
        }
    }
    let func: Box<dyn SignalFunc<C>> = Box::new(lifted);
    let ghost gb = func;
    assert(forall|c: C| gb.may_return(c) == gl.may_return(c));
    let ghost promise = |c: C| lifted2(**f, *sa, *sb, c);
    let arc = Arc::new(func);
    assert(*arc == gb);
    let fs = FuncSignal::assemble(arc, Ghost(promise));
    Signal::computing(fs)
}

/// The signal function of a binary lift.
#[verifier::reject_recursive_types(A)]
#[verifier::reject_recursive_types(B)]
#[verifier::reject_recursive_types(C)]
pub struct Lift2Fn<A, B, C, F: Fn(A, B) -> C> {
    f: Arc<F>,
    left: Lift2Arg<A>,
    right: Lift2Arg<B>,
    _result: std::marker::PhantomData<C>,
}

/// An argument of a binary lift: a value fixed for as long as the state
/// lasts, or a signal to sample.
#[verifier::reject_recursive_types(A)]
pub enum Lift2Arg<A> {
    /// A value fixed for as long as the state lasts.
    Fixed(A),
    /// A signal to sample.
    Sampled(Signal<A>),
}

impl<A> Lift2Arg<A> {
    /// `a` may be the argument's value: a copy of the fixed value, or, for a
    /// constant signal, a copy of its constant.
    pub open spec fn admits(&self, a: A) -> bool
        where A: Clone,
    {
        match *self {
            Lift2Arg::Fixed(x) => cloned(x, a),
            Lift2Arg::Sampled(s) => may_sample(s, a),
        }
    }
}

impl<A: Clone + 'static> Lift2Arg<A> {
    fn value(&self, trans: &mut Transaction) -> (r: A)
        ensures
            self.admits(r),
    {
        match self {
            Lift2Arg::Fixed(a) => a.clone(),
            Lift2Arg::Sampled(s) => sample_raw(s, trans),
        }
    }
}

impl<A, B, C, F: Fn(A, B) -> C> Lift2Fn<A, B, C, F> {
    #[verifier::type_invariant]
    spec fn callable(self) -> bool {
        forall|a: A, b: B| (*self.f).requires((a, b))
    }

    /// The lifted function.
    pub closed spec fn function(&self) -> F {
        *self.f
    }

    /// The first argument.
    pub closed spec fn left(&self) -> Lift2Arg<A> {
        self.left
    }

    /// The second argument.
    pub closed spec fn right(&self) -> Lift2Arg<B> {
        self.right
    }
}

impl<A: Clone + 'static, B: Clone + 'static, C, F: Fn(A, B) -> C> SignalFunc<C> for Lift2Fn<A, B, C, F> {
    /// The function of values the two arguments admit.
    open spec fn may_return(&self, c: C) -> bool {
        exists|a: A, b: B| self.left().admits(a) && self.right().admits(b) && self.function().ensures((a, b), c)
    }

    fn call(&self, trans: &mut Transaction) -> (r: C)
        ensures
            exists|a: A, b: B| self.left().admits(a) && self.right().admits(b) && self.function().ensures((a, b), r),
    {
        proof {
            use_type_invariant(self);
        }
        let a = self.left.value(trans);
        let b = self.right.value(trans);
        let ghost (ga, gb) = (a, b);
        let f: &F = &self.f;
        let r = f(a, b);
        assert(self.left().admits(ga) && self.right().admits(gb) && self.function().ensures((ga, gb), r));
        r
    }
}

/// The state of a binary lift, given the future states of its parents: a
/// constant if both are constants, else a function that samples the
/// parents that are not.
fn lift2_state<A: Clone + 'static, B: Clone + 'static, C: 'static, F: Fn(A, B) -> C + 'static>(
    f: &Arc<F>,
    sa: &Signal<A>,
    sb: &Signal<B>,
) -> (r: SignalFn<C>)
    requires
        forall|a: A, b: B| (**f).requires((a, b)),
    ensures
        sa.constant() matches Some(a) ==> sb.constant() matches Some(b) ==> (r matches SignalFn::Const(
            c) && applies2(**f, a, b, c)),
{
    let left = future_state(sa);
    let right = future_state(sb);
    let ghost (gl, gr) = (left, right);
    let r = lift2_from_states(f, left, right, sa, sb);
    proof {
        if let Some(a) = sa.constant() {
            if let Some(b) = sb.constant() {
                let a2 = gl->Const_0;
                let b2 = gr->Const_0;
                let c = r->Const_0;
                assert(cloned(a, a2) && cloned(b, b2) && (**f).ensures((a2, b2), c));
            }
        }
    }
    r
}

/// `c` is what `f` may return for a value `sa` may sample as and a copy of
/// `b`: the left argument is sampled, the right one fixed.
pub open spec fn sampled_left<A: Clone, B: Clone, C, F: Fn(A, B) -> C>(f: F, sa: Signal<A>, b: B, c: C) -> bool {
    exists|a: A, b2: B| may_sample(sa, a) && cloned(b, b2) && f.ensures((a, b2), c)
}

/// `c` is what `f` may return for a copy of `a` and a value `sb` may sample
/// as: the left argument is fixed, the right one sampled.
pub open spec fn sampled_right<A: Clone, B: Clone, C, F: Fn(A, B) -> C>(f: F, a: A, sb: Signal<B>, c: C) -> bool {
    exists|a2: A, b: B| cloned(a, a2) && may_sample(sb, b) && f.ensures((a2, b), c)
}

/// The state of a binary lift whose parents' future states are `left` and
/// `right`: the image of two constants is a constant; otherwise the lift
/// keeps the constant argument, if any, and samples the other parents
/// whenever it is sampled itself.
pub fn lift2_from_states<A: Clone + 'static, B: Clone + 'static, C: 'static, F: Fn(A, B) -> C + 'static>(
    f: &Arc<F>,
    left: SignalFn<A>,
    right: SignalFn<B>,
    sa: &Signal<A>,
    sb: &Signal<B>,
) -> (r: SignalFn<C>)
    requires
        forall|a: A, b: B| (**f).requires((a, b)),
    ensures
        left matches SignalFn::Const(a) ==> right matches SignalFn::Const(b) ==> (r matches SignalFn::Const(
            c) && (**f).ensures((a, b), c)),
        left is Func || right is Func ==> r is Func,
        left is Func && right is Func ==> (r matches SignalFn::Func(g) && forall|c: C|
            g.may_return(c) == lifted2(**f, *sa, *sb, c)),
        right matches SignalFn::Const(b) ==> (left is Func ==> (r matches SignalFn::Func(g) && forall|c: C|
            g.may_return(c) == sampled_left(**f, *sa, b, c))),
        left matches SignalFn::Const(a) ==> (right is Func ==> (r matches SignalFn::Func(g) && forall|c: C|
            g.may_return(c) == sampled_right(**f, a, *sb, c))),
{
    match (left, right) {
        (SignalFn::Const(a), SignalFn::Const(b)) => {
            let g: &F = &f;
            SignalFn::Const(g(a, b))
        },
        (SignalFn::Const(a), SignalFn::Func(_)) => {
            let lifted = Lift2Fn {
                f: f.clone(),
                left: Lift2Arg::Fixed(a),
                right: Lift2Arg::Sampled(sb.clone()),
                _result: std::marker::PhantomData,
            };
            let ghost gl = lifted;
            assert forall|c: C| gl.may_return(c) == sampled_right(**f, a, *sb, c) by {
                assert forall|y: B| gl.right().admits(y) == may_sample(*sb, y) by {}
                if sampled_right(**f, a, *sb, c) {
                    let (x, y) = choose|x: A, y: B| cloned(a, x) && may_sample(*sb, y) && (**f).ensures((x, y), c);
                    assert(gl.left().admits(x) && gl.right().admits(y) && gl.function().ensures((x, y), c));
                }
                if gl.may_return(c) {
                    let (x, y) = choose|x: A, y: B|
                        gl.left().admits(x) && gl.right().admits(y) && gl.function().ensures((x, y), c);
                    assert(cloned(a, x) && may_sample(*sb, y));
                }
            }
            let func: Box<dyn SignalFunc<C>> = Box::new(lifted);
            let ghost gb = func;
            assert(forall|c: C| gb.may_return(c) == gl.may_return(c));
            let ghost promise = |c: C| gl.may_return(c);
            SignalFn::Func({
            let arc = Arc::new(func);
            assert(*arc == gb);
            FuncSignal::assemble(arc, Ghost(promise))
        })
        },
        (SignalFn::Func(_), SignalFn::Const(b)) => {
            let lifted = Lift2Fn {
                f: f.clone(),
                left: Lift2Arg::Sampled(sa.clone()),
                right: Lift2Arg::Fixed(b),
                _result: std::marker::PhantomData,
            };
            let ghost gl = lifted;
            assert forall|c: C| gl.may_return(c) == sampled_left(**f, *sa, b, c) by {
                assert forall|x: A| gl.left().admits(x) == may_sample(*sa, x) by {}
                if sampled_left(**f, *sa, b, c) {
                    let (x, y) = choose|x: A, y: B| may_sample(*sa, x) && cloned(b, y) && (**f).ensures((x, y), c);
                    assert(gl.left().admits(x) && gl.right().admits(y) && gl.function().ensures((x, y), c));
                }
                if gl.may_return(c) {
                    let (x, y) = choose|x: A, y: B|
                        gl.left().admits(x) && gl.right().admits(y) && gl.function().ensures((x, y), c);
                    assert(may_sample(*sa, x) && cloned(b, y));
                }
            }
            let func: Box<dyn SignalFunc<C>> = Box::new(lifted);
            let ghost gb = func;
            assert(forall|c: C| gb.may_return(c) == gl.may_return(c));
            let ghost promise = |c: C| gl.may_return(c);
            SignalFn::Func({
            let arc = Arc::new(func);
            assert(*arc == gb);
            FuncSignal::assemble(arc, Ghost(promise))
        })
        },
        (SignalFn::Func(_), SignalFn::Func(_)) => {
            let lifted = Lift2Fn {
                f: f.clone(),
                left: Lift2Arg::Sampled(sa.clone()),
                right: Lift2Arg::Sampled(sb.clone()),
                _result: std::marker::PhantomData,
            };
            let ghost gl = lifted;
            assert forall|c: C| gl.may_return(c) == lifted2(**f, *sa, *sb, c) by {
                assert forall|x: A| gl.left().admits(x) == may_sample(*sa, x) by {}
                assert forall|y: B| gl.right().admits(y) == may_sample(*sb, y) by {}
                if lifted2(**f, *sa, *sb, c) {
                    let (x, y) = choose|x: A, y: B| may_sample(*sa, x) && may_sample(*sb, y) && (**f).ensures((x, y), c);
                    assert(gl.left().admits(x) && gl.right().admits(y) && gl.function().ensures((x, y), c));
                }
                if gl.may_return(c) {
                    let (x, y) = choose|x: A, y: B|
                        gl.left().admits(x) && gl.right().admits(y) && gl.function().ensures((x, y), c);
                    assert(may_sample(*sa, x) && may_sample(*sb, y));
                }
            }
            let func: Box<dyn SignalFunc<C>> = Box::new(lifted);
            let ghost gb = func;
            assert(forall|c: C| gb.may_return(c) == gl.may_return(c));
            let ghost promise = |c: C| gl.may_return(c);
            SignalFn::Func({
            let arc = Arc::new(func);
            assert(*arc == gb);
            FuncSignal::assemble(arc, Ghost(promise))
        })
        },
    }
}

/// The handler of a binary lift: recompute the state from the parents'.
#[verifier::reject_recursive_types(A)]
#[verifier::reject_recursive_types(B)]
#[verifier::reject_recursive_types(C)]
pub struct Lift2Handler<A, B, C, F: Fn(A, B) -> C> {
    f: Arc<F>,
    sa: Signal<A>,
    sb: Signal<B>,
    _result: std::marker::PhantomData<C>,
}

impl<A, B, C, F: Fn(A, B) -> C> Lift2Handler<A, B, C, F> {
    #[verifier::type_invariant]
    spec fn callable(self) -> bool {
        forall|a: A, b: B| (*self.f).requires((a, b))
    }

    /// The lifted function.
    pub closed spec fn function(&self) -> F {
        *self.f
    }

    /// The signal of the first argument.
    pub closed spec fn first(&self) -> Signal<A> {
        self.sa
    }

    /// The signal of the second argument.
    pub closed spec fn second(&self) -> Signal<B> {
        self.sb
    }
}

impl<A: Clone + 'static, B: Clone + 'static, C: 'static, F: Fn(A, B) -> C + 'static> Handler<(), C> for Lift2Handler<
    A,
    B,
    C,
    F,
> {
    fn handle(&self, u: ()) -> (r: SignalFn<C>)
        ensures
            self.first().constant() matches Some(a) ==> self.second().constant() matches Some(b) ==> (r matches SignalFn::Const(
                c) && applies2(self.function(), a, b, c)),
    {
        proof {
            use_type_invariant(self);
        }
        lift2_state(&self.f, &self.sa, &self.sb)
    }
}

/// Lift a binary function: a signal that always holds `f` of the values of
/// `sa` and `sb`. Lifting two constant signals gives a constant signal.
pub fn lift2<A: Clone + 'static, B: Clone + 'static, C: Clone + 'static, F: Fn(A, B) -> C + 'static>(
    f: F,
    sa: &Signal<A>,
    sb: &Signal<B>,
) -> (s: Signal<C>)
    requires
        forall|a: A, b: B| f.requires((a, b)),
    ensures
        lift2_relation(f, *sa, *sb, s),
{
    let f = Arc::new(f);
    if sa.is_constant() && sb.is_constant() {
        match lift2_state(&f, sa, sb) {
            SignalFn::Const(c) => Signal::new(c),
            SignalFn::Func(g) => signal_build(SignalFn::Func(g)),
        }
    } else if (sa.is_constant() || sa.is_computed()) && (sb.is_constant() || sb.is_computed()) {
        computed_lift2(&f, sa, sb)
    } else {
        let signal = signal_build(lift2_state(&f, sa, sb));
        reg_signal_shared(
            signal_source(sa),
            &signal,
            Lift2Handler { f: f.clone(), sa: sa.clone(), sb: sb.clone(), _result: std::marker::PhantomData },
        );
        reg_signal_shared(
            signal_source(sb),
            &signal,
            Lift2Handler { f, sa: sa.clone(), sb: sb.clone(), _result: std::marker::PhantomData },
        );
        signal
    }
}

/// `f` accepts the components of the pair `ab` and `c`.
pub open spec fn accepts_pair3<A, B, C, R, F: Fn(A, B, C) -> R>(f: &F, ab: (A, B), c: C) -> bool {
    f.requires((ab.0, ab.1, c))
}

/// `f` accepts the components of the pairs `ab` and `cd`.
pub open spec fn accepts_pairs4<A, B, C, D, R, F: Fn(A, B, C, D) -> R>(f: &F, ab: (A, B), cd: (C, D)) -> bool {
    f.requires((ab.0, ab.1, cd.0, cd.1))
}

/// Lift a ternary function, as a binary lift over a lifted pair.
pub fn lift3<A, B, C, R, F>(f: F, ca: &Signal<A>, cb: &Signal<B>, cc: &Signal<C>) -> (s: Signal<R>)
    where
        A: Clone + 'static,
        B: Clone + 'static,
        C: Clone + 'static,
        R: Clone + 'static,
        F: Fn(A, B, C) -> R + 'static,
    requires
        forall|a: A, b: B, c: C| f.requires((a, b, c)),
    ensures
        ca.constant() is Some && cb.constant() is Some && cc.constant() is Some ==> s.constant() is Some,
        (ca.constant() is Some || ca.computed() is Some) && (cb.constant() is Some || cb.computed() is Some) && (
        cc.constant() is Some || cc.computed() is Some) ==> (s.constant() is Some || s.computed() is Some),
        lift3_kind(*ca, *cb, *cc, s),
{
    let pair = lift2(|a: A, b: B| (a, b), ca, cb);
    let g = move |ab: (A, B), c: C| -> (r: R)
        requires
            accepts_pair3(&f, ab, c),
        {
            f(ab.0, ab.1, c)
        };
    lift2(
        g,
        &pair,
        cc,
    )
}

/// Lift a quaternary function, as a binary lift over two lifted pairs.
pub fn lift4<A, B, C, D, R, F>(f: F, ca: &Signal<A>, cb: &Signal<B>, cc: &Signal<C>, cd: &Signal<D>) -> (s: Signal<R>)
    where
        A: Clone + 'static,
        B: Clone + 'static,
        C: Clone + 'static,
        D: Clone + 'static,
        R: Clone + 'static,
        F: Fn(A, B, C, D) -> R + 'static,
    requires
        forall|a: A, b: B, c: C, d: D| f.requires((a, b, c, d)),
    ensures
        ca.constant() is Some && cb.constant() is Some && cc.constant() is Some && cd.constant() is Some
            ==> s.constant() is Some,
        (ca.constant() is Some || ca.computed() is Some) && (cb.constant() is Some || cb.computed() is Some) && (
        cc.constant() is Some || cc.computed() is Some) && (cd.constant() is Some || cd.computed() is Some) ==> (
        s.constant() is Some || s.computed() is Some),
        lift4_kind(*ca, *cb, *cc, *cd, s),
{
    let left = lift2(|a: A, b: B| (a, b), ca, cb);
    let right = lift2(|c: C, d: D| (c, d), cc, cd);
    let g = move |ab: (A, B), cd: (C, D)| -> (r: R)
        requires
            accepts_pairs4(&f, ab, cd),
        {
            f(ab.0, ab.1, cd.0, cd.1)
        };
    lift2(
        g,
        &left,
        &right,
    )
}

impl<A: Clone + 'static> Signal<A> {
    /// Map the signal with a function: the same as a unary lift.
    pub fn map<B: Clone + 'static, F: Fn(A) -> B + 'static>(&self, function: F) -> (s: Signal<B>)
        requires
            forall|a: A| function.requires((a,)),
        ensures
            lift1_relation(function, *self, s),
    {
        lift1(function, self)
    }
}

/// `f` is a pure function: equal arguments give equal results.
pub open spec fn is_functional<A, B, F: Fn(A) -> B>(f: F) -> bool {
    forall|x: A, y1: B, y2: B| f.ensures((x,), y1) && f.ensures((x,), y2) ==> y1 == y2
}

/// A copy of a value of `A` is exactly that value.
pub open spec fn clones_exactly<A: Clone>() -> bool {
    forall|x: A, y: A| cloned(x, y) <==> x == y
}

/// A binary lift changes exactly when one of its arguments may change:
/// lifting never freezes a changing argument, and never makes steady
/// arguments change.
pub proof fn law_lift2_changes_with_its_arguments<A: Clone, B: Clone, C, F: Fn(A, B) -> C>(
    f: F,
    sa: Signal<A>,
    sb: Signal<B>,
    s: Signal<C>,
)
    requires
        lift2_relation(f, sa, sb, s),
    ensures
        is_changing(s) <==> (is_changing(sa) || is_changing(sb)),
{
}

/// A ternary lift changes exactly when one of its three arguments may change.
pub proof fn law_lift3_changes_with_each_argument<A, B, C, R>(
    ca: Signal<A>,
    cb: Signal<B>,
    cc: Signal<C>,
    s: Signal<R>,
)
    requires
        lift3_kind(ca, cb, cc, s),
    ensures
        is_changing(s) <==> (is_changing(ca) || is_changing(cb) || is_changing(cc)),
{
}

/// A quaternary lift changes exactly when one of its four arguments may
/// change.
pub proof fn law_lift4_changes_with_each_argument<A, B, C, D, R>(
    ca: Signal<A>,
    cb: Signal<B>,
    cc: Signal<C>,
    cd: Signal<D>,
    s: Signal<R>,
)
    requires
        lift4_kind(ca, cb, cc, cd, s),
    ensures
        is_changing(s) <==> (is_changing(ca) || is_changing(cb) || is_changing(cc) || is_changing(cd)),
{
}

/// The state a binary lift takes when its left argument `sa` is a function
/// and its right one the constant `b` keeps sampling `sa`: if `sa` may
/// change, the state may compute `f(a, b)` for every value `a`, not only for
/// one value taken when the state was built.
pub proof fn law_lift2_state_samples_changing_argument<A: Clone, B: Clone, C, F: Fn(A, B) -> C>(
    f: F,
    sa: Signal<A>,
    b: B,
    g: FuncSignal<C>,
)
    requires
        clones_exactly::<B>(),
        is_changing(sa),
        forall|c: C| g.may_return(c) == sampled_left(f, sa, b, c),
    ensures
        forall|a: A, c: C| f.ensures((a, b), c) ==> g.may_return(c),
{
    assert forall|a: A, c: C| f.ensures((a, b), c) implies g.may_return(c) by {
        assert(may_sample(sa, a));
        assert(cloned(b, b));
        assert(sampled_left(f, sa, b, c));
    }
}

/// The state a binary lift takes when its right argument `sb` is a function
/// and its left one the constant `a` keeps sampling `sb`.
pub proof fn law_lift2_state_samples_changing_right<A: Clone, B: Clone, C, F: Fn(A, B) -> C>(
    f: F,
    a: A,
    sb: Signal<B>,
    g: FuncSignal<C>,
)
    requires
        clones_exactly::<A>(),
        is_changing(sb),
        forall|c: C| g.may_return(c) == sampled_right(f, a, sb, c),
    ensures
        forall|b: B, c: C| f.ensures((a, b), c) ==> g.may_return(c),
{
    assert forall|b: B, c: C| f.ensures((a, b), c) implies g.may_return(c) by {
        assert(may_sample(sb, b));
        assert(cloned(a, a));
        assert(sampled_right(f, a, sb, c));
    }
}

/// Functor law, preservation of identity: lifting the identity over a
/// signal gives the same signal. A constant signal stays the same constant,
/// a signal that computes its value computes exactly the values the
/// original may sample as, and a changing one stays changing.
pub proof fn law_functor_identity<A: Clone, F: Fn(A) -> A>(f: F, sa: Signal<A>, s: Signal<A>)
    requires
        forall|x: A, y: A| f.ensures((x,), y) <==> y == x,
        clones_exactly::<A>(),
        lift1_relation(f, sa, s),
    ensures
        s.constant() == sa.constant(),
        sa.computed() is Some ==> (s.computed() matches Some(y) && forall|b: A| y(b) == may_sample(sa, b)),
        forall|b: A| may_sample(s, b) == may_sample(sa, b),
{
    if sa.computed() is Some {
        let y = s.computed()->Some_0;
        assert forall|b: A| y(b) == may_sample(sa, b) by {
            assert(y(b) == lifted1(f, sa, b));
            if may_sample(sa, b) {
                assert(f.ensures((b,), b));
                assert(may_sample(sa, b) && f.ensures((b,), b));
            }
            if lifted1(f, sa, b) {
                let a = choose|a: A| may_sample(sa, a) && f.ensures((a,), b);
                assert(b == a);
            }
        }
        let ya = sa.computed()->Some_0;
        assert forall|b: A| may_sample(s, b) == may_sample(sa, b) by {
            if may_sample(s, b) {
                let v = choose|v: A| y(v) && cloned(v, b);
                assert(may_sample(sa, v));
            }
            if may_sample(sa, b) {
                let v = choose|v: A| ya(v) && cloned(v, b);
                assert(may_sample(sa, v)) by {
                    assert(cloned(v, v));
                }
                assert(y(v));
            }
        }
    }
}

/// Functor law, function composition: lifting `h`, the composition of `f`
/// and then `g`, gives the same signal as lifting `f` and then `g`: the
/// same constant over a constant signal, and the same values over a signal
/// that computes its value.
pub proof fn law_functor_composition<A: Clone, B: Clone, C: Clone, F: Fn(A) -> B, G: Fn(B) -> C, H: Fn(A) -> C>(
    f: F,
    g: G,
    h: H,
    sa: Signal<A>,
    sb: Signal<B>,
    sc: Signal<C>,
    sh: Signal<C>,
)
    requires
        is_functional(f),
        is_functional(g),
        forall|x: A, z: C| h.ensures((x,), z) <==> exists|y: B| f.ensures((x,), y) && g.ensures((y,), z),
        clones_exactly::<A>(),
        clones_exactly::<B>(),
        clones_exactly::<C>(),
        lift1_relation(f, sa, sb),
        lift1_relation(g, sb, sc),
        lift1_relation(h, sa, sh),
    ensures
        sh.constant() == sc.constant(),
        forall|z: C| may_sample(sh, z) == may_sample(sc, z),
{
    if let Some(a) = sa.constant() {
        let b = sb.constant().unwrap();
        let c = sc.constant().unwrap();
        let d = sh.constant().unwrap();
        let a1 = choose|a1: A| cloned(a, a1) && f.ensures((a1,), b);
        let b1 = choose|b1: B| cloned(b, b1) && g.ensures((b1,), c);
        let a2 = choose|a2: A| cloned(a, a2) && h.ensures((a2,), d);
        let y = choose|y: B| f.ensures((a2,), y) && g.ensures((y,), d);
        assert(a1 == a && a2 == a && b1 == b);
    }
    if sa.computed() is Some {
        lemma_constant_or_computed(sa);
        lemma_constant_or_computed(sb);
        lemma_constant_or_computed(sc);
        lemma_constant_or_computed(sh);
        let yb = sb.computed()->Some_0;
        let yc = sc.computed()->Some_0;
        let yh = sh.computed()->Some_0;
        assert forall|b: B| may_sample(sb, b) == yb(b) by {
            if yb(b) {
                assert(cloned(b, b));
            }
        }
        assert forall|z: C| may_sample(sc, z) == yc(z) by {
            if yc(z) {
                assert(cloned(z, z));
            }
        }
        assert forall|z: C| may_sample(sh, z) == yh(z) by {
            if yh(z) {
                assert(cloned(z, z));
            }
        }
        assert forall|z: C| #[trigger] yh(z) == yc(z) by {
            assert(yh(z) == lifted1(h, sa, z));
            assert(yc(z) == lifted1(g, sb, z));
            if lifted1(h, sa, z) {
                let a = choose|a: A| may_sample(sa, a) && h.ensures((a,), z);
                let y = choose|y: B| f.ensures((a,), y) && g.ensures((y,), z);
                assert(yb(y) == lifted1(f, sa, y));
                assert(yb(y));
                assert(may_sample(sb, y) && g.ensures((y,), z));
            }
            if lifted1(g, sb, z) {
                let b = choose|b: B| may_sample(sb, b) && g.ensures((b,), z);
                assert(yb(b) == lifted1(f, sa, b));
                let a = choose|a: A| may_sample(sa, a) && f.ensures((a,), b);
                assert(h.ensures((a,), z));
            }
        }
    }
}

/// Applicative law, homomorphism: applying a constant function to a
/// constant value gives the constant result.
pub proof fn law_applicative_homomorphism<A: Clone, B, G: Fn(A) -> B + Clone, P: Fn(G, A) -> B>(
    apply: P,
    g: G,
    x: A,
    sg: Signal<G>,
    sx: Signal<A>,
    s: Signal<B>,
)
    requires
        forall|h: G, y: A, r: B| apply.ensures((h, y), r) ==> h.ensures((y,), r),
        clones_exactly::<A>(),
        clones_exactly::<G>(),
        sg.constant() == Some(g),
        sx.constant() == Some(x),
        lift2_relation(apply, sg, sx, s),
    ensures
        s.constant() matches Some(r) && g.ensures((x,), r),
{
    let r = s.constant().unwrap();
    let (g2, x2) = choose|g2: G, x2: A| cloned(g, g2) && cloned(x, x2) && apply.ensures((g2, x2), r);
    assert(g2 == g && x2 == x);
}

/// Applicative law, identity: applying the constant identity to a signal
/// gives the same signal: the same constant over a constant signal, and the
/// same values over a signal that computes its value.
pub proof fn law_applicative_identity<A: Clone, G: Fn(A) -> A + Clone, P: Fn(G, A) -> A>(
    apply: P,
    id: G,
    sid: Signal<G>,
    sv: Signal<A>,
    s: Signal<A>,
)
    requires
        forall|h: G, y: A, r: A| apply.ensures((h, y), r) <==> h.ensures((y,), r),
        forall|x: A, y: A| id.ensures((x,), y) <==> y == x,
        clones_exactly::<A>(),
        clones_exactly::<G>(),
        sid.constant() == Some(id),
        lift2_relation(apply, sid, sv, s),
    ensures
        s.constant() == sv.constant(),
        forall|c: A| may_sample(s, c) == may_sample(sv, c),
{
    lemma_constant_or_computed(sid);
    lemma_constant_or_computed(sv);
    lemma_constant_or_computed(s);
    if let Some(v) = sv.constant() {
        let r = s.constant().unwrap();
        assert(applies2(apply, id, v, r));
        let (g2, v2) = choose|g2: G, v2: A| cloned(id, g2) && cloned(v, v2) && apply.ensures((g2, v2), r);
        assert(g2 == id && v2 == v);
        assert(id.ensures((v,), r));
        assert(r == v);
    }
    if sv.computed() is Some {
        let y = s.computed()->Some_0;
        let yv = sv.computed()->Some_0;
        assert forall|c: A| #[trigger] may_sample(s, c) == may_sample(sv, c) by {
            assert(may_sample(s, c) == y(c)) by {
                if y(c) {
                    assert(cloned(c, c));
                }
            }
            assert(y(c) == lifted2(apply, sid, sv, c));
            if lifted2(apply, sid, sv, c) {
                let (g, v) = choose|g: G, v: A| may_sample(sid, g) && may_sample(sv, v) && apply.ensures((g, v), c);
                assert(g == id);
                assert(g.ensures((v,), c));
                assert(id.ensures((v,), c));
                assert(v == c);
            }
            if may_sample(sv, c) {
                assert(cloned(id, id));
                assert(id.ensures((c,), c));
                assert(apply.ensures((id, c), c));
                assert(may_sample(sid, id) && may_sample(sv, c) && apply.ensures((id, c), c));
            }
        }
    }
}

/// Applicative law, interchange: applying a constant function `u` to a
/// constant `y` is the same as applying "apply to `y`" to `u`.
pub proof fn law_applicative_interchange<
    A: Clone,
    B,
    G: Fn(A) -> B + Clone,
    P: Fn(G, A) -> B,
    Y: Fn(G) -> B + Clone,
    Q: Fn(Y, G) -> B,
>(
    apply: P,
    apply_fn: Q,
    at_y: Y,
    u: G,
    y: A,
    su: Signal<G>,
    sy: Signal<A>,
    sat: Signal<Y>,
    left: Signal<B>,
    right: Signal<B>,
)
    requires
        forall|h: G, v: A, r: B| apply.ensures((h, v), r) ==> h.ensures((v,), r),
        forall|k: Y, h: G, r: B| apply_fn.ensures((k, h), r) ==> k.ensures((h,), r),
        forall|h: G, r: B| at_y.ensures((h,), r) ==> h.ensures((y,), r),
        forall|h: G, r1: B, r2: B| h.ensures((y,), r1) && h.ensures((y,), r2) ==> r1 == r2,
        clones_exactly::<A>(),
        clones_exactly::<G>(),
        clones_exactly::<Y>(),
        su.constant() == Some(u),
        sy.constant() == Some(y),
        sat.constant() == Some(at_y),
        lift2_relation(apply, su, sy, left),
        lift2_relation(apply_fn, sat, su, right),
    ensures
        left.constant() is Some,
        left.constant() == right.constant(),
{
    let l = left.constant().unwrap();
    let r = right.constant().unwrap();
    assert(applies2(apply, u, y, l));
    assert(applies2(apply_fn, at_y, u, r));
    let (u1, y1) = choose|u1: G, y1: A| cloned(u, u1) && cloned(y, y1) && apply.ensures((u1, y1), l);
    let (k1, u2) = choose|k1: Y, u2: G| cloned(at_y, k1) && cloned(u, u2) && apply_fn.ensures((k1, u2), r);
    assert(u1 == u && y1 == y && k1 == at_y && u2 == u);
    assert(u.ensures((y,), l));
    assert(at_y.ensures((u,), r));
    assert(u.ensures((y,), r));
}

/// `k` composes `u` after `v`: it returns `z` for `x` exactly when `v`
/// returns some `y` for `x` and `u` returns `z` for `y`.
pub open spec fn composes<A, B, C, U: Fn(B) -> C, V: Fn(A) -> B, K: Fn(A) -> C>(k: K, u: U, v: V) -> bool {
    forall|x: A, z: C| #[trigger] k.ensures((x,), z) ==> exists|y: B| v.ensures((x,), y) && u.ensures((y,), z)
}

/// `pc` is partially applied composition: for `u` it returns a `k1` that,
/// for any `v`, returns the composition of `u` after `v`.
pub open spec fn partially_composes<A, B, C, U: Fn(B) -> C, V: Fn(A) -> B, K2: Fn(A) -> C, K1: Fn(V) -> K2, PC: Fn(U) -> K1>(
    pc: PC,
) -> bool {
    forall|u: U, k1: K1, v: V, k2: K2|
        #[trigger] pc.ensures((u,), k1) && #[trigger] k1.ensures((v,), k2) ==> composes(k2, u, v)
}

/// Applicative law, composition: applying the constant composition to `u`,
/// then to `v`, then to `w` gives the same as applying `u` to `v` applied to
/// `w`.
pub proof fn law_applicative_composition<
    A: Clone,
    B: Clone,
    C,
    U: Fn(B) -> C + Clone,
    V: Fn(A) -> B + Clone,
    K2: Fn(A) -> C + Clone,
    K1: Fn(V) -> K2 + Clone,
    PC: Fn(U) -> K1 + Clone,
    P1: Fn(PC, U) -> K1,
    P2: Fn(K1, V) -> K2,
    P3: Fn(K2, A) -> C,
    P4: Fn(V, A) -> B,
    P5: Fn(U, B) -> C,
>(
    ap1: P1,
    ap2: P2,
    ap3: P3,
    ap4: P4,
    ap5: P5,
    pc: PC,
    u: U,
    v: V,
    w: A,
    spc: Signal<PC>,
    su: Signal<U>,
    sv: Signal<V>,
    sw: Signal<A>,
    l1: Signal<K1>,
    l2: Signal<K2>,
    left: Signal<C>,
    r1: Signal<B>,
    right: Signal<C>,
)
    requires
        forall|h: PC, y: U, r: K1| ap1.ensures((h, y), r) ==> h.ensures((y,), r),
        forall|h: K1, y: V, r: K2| ap2.ensures((h, y), r) ==> h.ensures((y,), r),
        forall|h: K2, y: A, r: C| ap3.ensures((h, y), r) ==> h.ensures((y,), r),
        forall|h: V, y: A, r: B| ap4.ensures((h, y), r) ==> h.ensures((y,), r),
        forall|h: U, y: B, r: C| ap5.ensures((h, y), r) ==> h.ensures((y,), r),
        partially_composes::<A, B, C, U, V, K2, K1, PC>(pc),
        is_functional(u),
        is_functional(v),
        clones_exactly::<A>(),
        clones_exactly::<B>(),
        clones_exactly::<U>(),
        clones_exactly::<V>(),
        clones_exactly::<K1>(),
        clones_exactly::<K2>(),
        clones_exactly::<PC>(),
        spc.constant() == Some(pc),
        su.constant() == Some(u),
        sv.constant() == Some(v),
        sw.constant() == Some(w),
        lift2_relation(ap1, spc, su, l1),
        lift2_relation(ap2, l1, sv, l2),
        lift2_relation(ap3, l2, sw, left),
        lift2_relation(ap4, sv, sw, r1),
        lift2_relation(ap5, su, r1, right),
    ensures
        left.constant() is Some,
        left.constant() == right.constant(),
{
    let k1 = l1.constant().unwrap();
    assert(applies2(ap1, pc, u, k1));
    let (pc1, u1) = choose|pc1: PC, u1: U| cloned(pc, pc1) && cloned(u, u1) && ap1.ensures((pc1, u1), k1);
    assert(pc1 == pc && u1 == u);
    assert(pc.ensures((u,), k1));
    let k2 = l2.constant().unwrap();
    assert(applies2(ap2, k1, v, k2));
    let (k1a, v1) = choose|k1a: K1, v1: V| cloned(k1, k1a) && cloned(v, v1) && ap2.ensures((k1a, v1), k2);
    assert(k1a == k1 && v1 == v);
    assert(k1.ensures((v,), k2));
    assert(composes(k2, u, v));
    let z1 = left.constant().unwrap();
    assert(applies2(ap3, k2, w, z1));
    let (k2a, w1) = choose|k2a: K2, w1: A| cloned(k2, k2a) && cloned(w, w1) && ap3.ensures((k2a, w1), z1);
    assert(k2a == k2 && w1 == w);
    assert(k2.ensures((w,), z1));
    let y = choose|y: B| v.ensures((w,), y) && u.ensures((y,), z1);
    let b = r1.constant().unwrap();
    assert(applies2(ap4, v, w, b));
    let (v2, w2) = choose|v2: V, w2: A| cloned(v, v2) && cloned(w, w2) && ap4.ensures((v2, w2), b);
    assert(v2 == v && w2 == w);
    assert(v.ensures((w,), b));
    assert(y == b);
    let z2 = right.constant().unwrap();
    assert(applies2(ap5, u, b, z2));
    let (u2, b2) = choose|u2: U, b2: B| cloned(u, u2) && cloned(b, b2) && ap5.ensures((u2, b2), z2);
    assert(u2 == u && b2 == b);
    assert(u.ensures((b,), z2));
}

} // verus!
