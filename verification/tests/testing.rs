//! Trace equality of signals and streams, and its self-tests.

use carboxyl::lift::{lift0, lift1, lift2};
use carboxyl::{Signal, Sink, Stream};
use rand::random;
use std::fmt::Debug;

/// Trace equality of two signals.
fn signal_eq<T>(a: &Signal<T>, b: &Signal<T>) -> Signal<bool>
    where T: PartialEq + Clone + 'static
{
    lift2(|a, b| a == b, a, b)
}

/// Error of stream equivalence.
#[derive(Copy, Clone, PartialEq, Debug)]
enum EquivError<T> {
    Mismatch(T, T),
    OnlyOne(T),
}

/// Simple pairing function.
fn pair<T, U>(t: T, u: U) -> (T, U) {
    (t, u)
}

/// Trace equality of two streams.
fn stream_eq<T>(a: &Stream<T>, b: &Stream<T>) -> Signal<Result<(), String>>
    where T: PartialEq + Clone + 'static + Debug,
{
    let tagger = lift0(random::<u64>);
    let result = tagger.snapshot(a, pair)
        .merge(&tagger.snapshot(b, pair))
        .map(|x| Err(EquivError::OnlyOne(x)))
        .coalesce(|a, b| match (a, b) {
            (Err(EquivError::OnlyOne(a)), Err(EquivError::OnlyOne(b))) =>
                if &a == &b { Ok(()) }
                else { Err(EquivError::Mismatch(a, b)) },
            (Err(EquivError::Mismatch(a, b)), Err(EquivError::OnlyOne(_))) => Err(EquivError::Mismatch(a, b)),
            (Ok(()), Err(EquivError::OnlyOne(a))) => Err(EquivError::OnlyOne(a)),
            _ => unreachable!(),
        })
        .fold(Ok(()), |state, a| state.and(a));
    lift1(|r: Result<(), EquivError<(u64, T)>>| r.map_err(|e| format!("{:?}", e)), &result)
}

#[test]
fn signal_eq_const() {
    let a = Signal::new(3);
    let eq = signal_eq(&a, &a);
    assert!(eq.sample());
}

#[test]
fn signal_eq_piecewise_const() {
    let sink = Sink::new();
    let sig = sink.stream().hold(4);
    let eq = signal_eq(&sig, &sig);
    for &a in &[1, 2, 3] {
        sink.send(a);
        assert!(eq.sample());
    }
}

#[test]
fn signal_eq_algebraic() {
    let eq = signal_eq(&Stream::never().hold(3), &Signal::new(3));
    assert!(eq.sample());
}

#[test]
fn stream_eq_never() {
    let eq = stream_eq(&Stream::<()>::never(), &Stream::never());
    assert_eq!(eq.sample(), Ok(()));
}

#[test]
fn stream_eq_same_sink() {
    let sink = Sink::new();
    let eq = stream_eq(&sink.stream(), &sink.stream());
    for n in 0..20 { sink.send(n); }
    assert_eq!(eq.sample(), Ok(()));
}

#[test]
fn stream_eq_algebraic() {
    fn f(n: i32) -> i32 { n + 3 }
    fn g(n: i32) -> i32 { 2 * n }
    fn h(n: i32) -> i32 { f(g(n)) }

    let sink = Sink::new();
    let eq = stream_eq(&sink.stream().map(g).map(f), &sink.stream().map(h));
    for n in 0..20 { sink.send(n); }
    assert_eq!(eq.sample(), Ok(()));
}

#[test]
fn stream_eq_detects_difference() {
    let sink = Sink::new();
    let eq = stream_eq(&sink.stream(), &sink.stream().map(|n: i32| n + 1));
    sink.send(1);
    assert!(eq.sample().is_err());
}

#[test]
fn fold_accumulates() {
    let sink = Sink::new();
    let sum = sink.stream().fold(0, |s, a| s + a);
    assert_eq!(sum.sample(), 0);
    sink.send(4);
    sink.send(5);
    assert_eq!(sum.sample(), 9);
}
