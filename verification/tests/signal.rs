use carboxyl::lift::lift1;
use carboxyl::signal::{self, SignalCycle};
use carboxyl::{Signal, Sink};

#[test]
fn signal_clone() {
    let b = Signal::new(3);
    assert_eq!(b.clone().sample(), 3);
}

#[test]
fn signal_hold() {
    let sink = Sink::new();
    let signal = sink.stream().hold(3);
    assert_eq!(signal.sample(), 3);
    sink.send(4);
    assert_eq!(signal.sample(), 4);
}

#[test]
fn hold_implicit_stream() {
    let sink = Sink::new();
    let signal = signal::hold(0, &sink.stream().map(|n| 2 * n));
    assert_eq!(signal.sample(), 0);
    sink.send(4);
    assert_eq!(signal.sample(), 8);
}

#[test]
fn signal_snapshot() {
    let sink1: Sink<i32> = Sink::new();
    let sink2: Sink<f64> = Sink::new();
    let mut snap_events = sink1.stream().hold(1)
        .snapshot(&sink2.stream().map(|x| x + 3.0), |a, b| (a, b))
        .events();
    sink2.send(4.0);
    assert_eq!(snap_events.next(), Some((1, 7.0)));
}

#[test]
fn signal_snapshot_2() {
    let ev1 = Sink::new();
    let beh1 = ev1.stream().hold(5);
    let ev2 = Sink::new();
    let snap = beh1.snapshot(&ev2.stream(), |a, b| (a, b));
    let mut events = snap.events();
    ev2.send(4);
    assert_eq!(events.next(), Some((5, 4)));
    ev1.send(-2);
    ev2.send(6);
    assert_eq!(events.next(), Some((-2, 6)));
}

#[test]
fn signal_cyclic_snapshot_accum() {
    let sink = Sink::new();
    let stream = sink.stream();
    let accum = SignalCycle::new();
    let def = accum.snapshot(&stream, |a, s| a + s).hold(0);
    let accum = accum.define(def);
    assert_eq!(accum.sample(), 0);
    sink.send(3);
    assert_eq!(accum.sample(), 3);
    sink.send(7);
    assert_eq!(accum.sample(), 10);
    sink.send(-21);
    assert_eq!(accum.sample(), -11);
}

#[test]
fn signal_snapshot_order_standard() {
    let sink = Sink::new();
    let signal = sink.stream().hold(0);
    let mut events = signal
        .snapshot(&sink.stream(), |a, b| (a, b))
        .events();
    sink.send(1);
    assert_eq!(events.next(), Some((0, 1)));
}

#[test]
fn snapshot_lift_order_standard() {
    let sink = Sink::new();
    let signal = sink.stream().hold(0);
    let mut events = lift1(|x| x, &signal)
        .snapshot(&sink.stream(), |a, b| (a, b))
        .events();
    sink.send(1);
    assert_eq!(events.next(), Some((0, 1)));
}

#[test]
fn signal_snapshot_order_alternative() {
    let sink = Sink::new();
    // Invert the "natural" order of the registry by declaring the stream before
    // the signal, which are both used by the snapshot.
    let first = sink.stream().map(|x| x);
    let signal = sink.stream().hold(0);
    let mut events = signal.snapshot(&first, |a, b| (a, b)).events();
    sink.send(1);
    assert_eq!(events.next(), Some((0, 1)));
}

#[test]
fn cyclic_signal_intermediate() {
    let sink = Sink::new();
    let stream = sink.stream();
    let mut snap = None;
    let sum = Signal::cyclic(|a| {
        let my_snap = a.snapshot(&stream, |a, e| e + a);
        snap = Some(my_snap.clone());
        my_snap.hold(0)
    });
    let snap = snap.unwrap();
    let mut events = snap.events();

    sink.send(3);
    assert_eq!(sum.sample(), 3);
    assert_eq!(events.next(), Some(3));
}

#[test]
fn constant_signal_is_constant() {
    let s = Signal::new(7);
    assert!(s.is_constant());
    assert_eq!(s.map(|x| x * 3).sample(), 21);
    assert!(s.map(|x| x * 3).is_constant());
}

#[test]
fn functor_identity_on_samples() {
    let sink = Sink::new();
    let signal = sink.stream().hold(10);
    let same = lift1(|x| x, &signal);
    for k in 0..10 {
        assert_eq!(same.sample(), signal.sample());
        sink.send(k * 3 - 5);
    }
}

#[test]
fn functor_composition_on_samples() {
    fn f(n: i32) -> i32 { 3 * n }
    fn g(n: i32) -> i32 { n + 2 }
    let sink = Sink::new();
    let signal = sink.stream().hold(10);
    let composed = lift1(|n| f(g(n)), &signal);
    let chained = lift1(f, &lift1(g, &signal));
    for k in 0..10 {
        assert_eq!(composed.sample(), chained.sample());
        sink.send(k - 4);
    }
}
