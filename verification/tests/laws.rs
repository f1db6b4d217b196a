//! The algebraic laws of signals, checked on generated signals.

use carboxyl::lift::{lift0, lift1, lift2};
use carboxyl::Signal;
use quickcheck::quickcheck;
use std::sync::{Arc, Mutex};

/// A boxed function.
type ArcFn<A, B> = Arc<dyn Fn(A) -> B + Send + Sync + 'static>;

/// The identity function.
fn id<T>(t: T) -> T { t }

/// Box a function to erase its type.
fn make_fn<A, B, F>(f: F) -> ArcFn<A, B>
    where A: 'static, B: 'static, F: Fn(A) -> B + Send + Sync + 'static,
{
    Arc::new(f)
}

/// Wrap a function into a constant signal of that function.
fn pure_fn<A, B, F>(f: F) -> Signal<ArcFn<A, B>>
    where A: 'static, B: 'static, F: Fn(A) -> B + Send + Sync + 'static,
{
    Signal::new(make_fn(f))
}

/// Function composition on boxed functions.
fn comp<A, B, C>(f: ArcFn<B, C>, g: ArcFn<A, B>) -> ArcFn<A, C>
    where A: 'static, B: 'static, C: 'static
{
    make_fn(move |a| f(g(a)))
}

/// Partially applied function composition.
fn partial_comp<A, B, C>(f: ArcFn<B, C>) -> ArcFn<ArcFn<A, B>, ArcFn<A, C>>
    where A: 'static, B: 'static, C: 'static
{
    make_fn(move |g| comp(f.clone(), g))
}

/// Applies a signal of functions to a signal of arguments.
fn apply<A, B>(sf: &Signal<ArcFn<A, B>>, sa: &Signal<A>) -> Signal<B>
    where A: Clone + 'static, B: Clone + 'static
{
    lift2(|f: ArcFn<A, B>, a: A| f(a), sf, sa)
}

/// Trace equality of two signals.
fn signal_eq<T>(a: &Signal<T>, b: &Signal<T>) -> Signal<bool>
    where T: PartialEq + Clone + 'static
{
    lift2(|a, b| a == b, a, b)
}

/// A signal made from generated values: a constant if there are none, else
/// a function cycling through them.
fn generated(values: Vec<i32>, fallback: i32) -> Signal<i32> {
    if values.is_empty() {
        Signal::new(fallback)
    } else {
        let n = Mutex::new(0);
        lift0(move || {
            let mut n = n.lock().unwrap();
            *n += 1;
            if *n >= values.len() { *n = 0 }
            values[*n]
        })
    }
}

#[test]
fn functor_identity() {
    fn check(values: Vec<i32>, fallback: i32) -> bool {
        let signal = generated(values, fallback);
        let eq = signal_eq(&signal, &lift1(id, &signal));
        (0..10).all(|_| eq.sample())
    }
    quickcheck(check as fn(Vec<i32>, i32) -> bool);
}

#[test]
fn functor_composition() {
    fn check(values: Vec<i32>, fallback: i32) -> bool {
        fn f(n: i32) -> i32 { 3 * n }
        fn g(n: i32) -> i32 { n + 2 }
        let signal = generated(values, fallback);
        let eq = signal_eq(
            &lift1(|n| f(g(n)), &signal),
            &lift1(f, &lift1(g, &signal))
        );
        (0..10).all(|_| eq.sample())
    }
    quickcheck(check as fn(Vec<i32>, i32) -> bool);
}

#[test]
fn applicative_identity() {
    fn check(values: Vec<i32>, fallback: i32) -> bool {
        let signal = generated(values, fallback);
        let eq = signal_eq(&apply(&pure_fn(id), &signal), &signal);
        (0..10).all(|_| eq.sample())
    }
    quickcheck(check as fn(Vec<i32>, i32) -> bool);
}

#[test]
fn applicative_composition() {
    fn check(values: Vec<i32>, fallback: i32) -> bool {
        fn f(n: i32) -> i32 { n * 4 }
        fn g(n: i32) -> i32 { n - 3 }
        let signal = generated(values, fallback);
        let u = pure_fn(f);
        let v = pure_fn(g);
        let eq = signal_eq(
            &apply(&apply(&apply(&pure_fn(partial_comp), &u), &v), &signal),
            &apply(&u, &apply(&v, &signal))
        );
        (0..10).all(|_| eq.sample())
    }
    quickcheck(check as fn(Vec<i32>, i32) -> bool);
}

#[test]
fn applicative_homomorphism() {
    fn check(x: i32) -> bool {
        fn f(x: i32) -> i32 { x * (-5) }
        let eq = signal_eq(
            &apply(&pure_fn(f), &Signal::new(x)),
            &Signal::new(f(x))
        );
        (0..10).all(|_| eq.sample())
    }
    quickcheck(check as fn(i32) -> bool);
}

#[test]
fn applicative_interchange() {
    fn check(x: i32) -> bool {
        fn f(x: i32) -> i32 { x * 2 - 7 }
        let u = pure_fn(f);
        let eq = signal_eq(
            &apply(&u, &Signal::new(x)),
            &apply(&pure_fn(move |f: ArcFn<i32, i32>| f(x)), &u)
        );
        (0..10).all(|_| eq.sample())
    }
    quickcheck(check as fn(i32) -> bool);
}
