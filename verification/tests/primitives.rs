use carboxyl::lift::lift2;
use carboxyl::Sink;

#[test]
fn primitives_sink() {
    let sink = Sink::new();
    let mut iter = sink.stream().events();
    sink.send(1);
    sink.send(2);
    assert_eq!(iter.next(), Some(1));
    assert_eq!(iter.next(), Some(2));
}

#[test]
fn primitives_map() {
    let sink = Sink::new();
    let triple = sink.stream().map(|x| 3 * x);
    let mut iter = triple.events();
    sink.send(1);
    assert_eq!(iter.next(), Some(3));
}

#[test]
fn primitives_filter() {
    let sink = Sink::new();
    let small = sink.stream().filter(|&x: &i32| x < 11);
    let mut iter = small.events();
    sink.send(12);
    sink.send(9);
    assert_eq!(iter.next(), Some(9));
}

#[test]
fn primitives_merge() {
    let sink1 = Sink::new();
    let sink2 = Sink::new();
    let mut iter = sink1.stream().merge(&sink2.stream()).events();
    sink1.send(12);
    sink2.send(9);
    assert_eq!(iter.next(), Some(12));
    assert_eq!(iter.next(), Some(9));
}

#[test]
fn primitives_hold() {
    let ea = Sink::new();
    let ba = ea.stream().hold(3);
    assert_eq!(ba.sample(), 3);
    ea.send(4);
    assert_eq!(ba.sample(), 4);
}

#[test]
fn primitives_chain_1() {
    let sink = Sink::new();
    let chain = sink.stream().filter(|&x: &i32| x < 20).map(|x| x / 2);
    let mut iter = chain.events();
    sink.send(4);
    assert_eq!(iter.next(), Some(2));
}

#[test]
fn primitives_chain_2() {
    let sink: Sink<i32> = Sink::new();
    let chain = sink.stream().map(|x| x / 2).filter(|&x| x < 3);
    let mut iter = chain.events();
    sink.send(4);
    assert_eq!(iter.next(), Some(2));
}

#[test]
fn chain_3() {
    let sink1: Sink<i32> = Sink::new();
    let sink2: Sink<i32> = Sink::new();
    let mut iter = sink1.stream().map(|x| x + 4)
        .merge(&sink2.stream().filter(|&x| x < 4).map(|x| x * 5))
        .events();
    sink1.send(12);
    sink2.send(3);
    assert_eq!(iter.next(), Some(16));
    assert_eq!(iter.next(), Some(15));
}

#[test]
fn primitives_snapshot() {
    let sink1: Sink<i32> = Sink::new();
    let sink2: Sink<f64> = Sink::new();
    let mut snap_iter = sink1.stream().hold(1)
        .snapshot(&sink2.stream().map(|x| x + 3.0), |a, b| (a, b))
        .events();
    sink2.send(4.0);
    assert_eq!(snap_iter.next(), Some((1, 7.0)));
}

#[test]
fn primitives_snapshot_2() {
    let ev1 = Sink::new();
    let beh1 = ev1.stream().hold(5);
    let ev2 = Sink::new();
    let snap = beh1.snapshot(&ev2.stream(), |a, b| (a, b));
    let mut iter = snap.events();
    assert_eq!(iter.next(), None);
    ev2.send(4);
    assert_eq!(iter.next(), Some((5, 4)));
    ev1.send(-2);
    assert_eq!(iter.next(), None);
    ev2.send(6);
    assert_eq!(iter.next(), Some((-2, 6)));
}

#[test]
fn lift2_test() {
    let sink1 = Sink::new();
    let sink2 = Sink::new();
    let lifted = lift2(|a, b| a + b, &sink1.stream().hold(0), &sink2.stream().hold(3));
    assert_eq!(lifted.sample(), 3);
    sink1.send(1);
    assert_eq!(lifted.sample(), 4);
    sink2.send(11);
    assert_eq!(lifted.sample(), 12);
}

#[test]
fn primitives_switch() {
    let stream1 = Sink::<Option<i32>>::new();
    let stream2 = Sink::<Option<i32>>::new();
    let button1 = Sink::<()>::new();
    let button2 = Sink::<()>::new();
    let output = {
        let stream1 = stream1.stream().hold(Some(-1));
        let stream2 = stream2.stream().hold(Some(-2));
        button1.stream()
            .map(move |_| stream1.clone())
            .merge(&button2.stream()
                .map(move |_| stream2.clone())
            )
            .hold(Sink::new().stream().hold(Some(-3)))
            .switch()
    };
    assert_eq!(output.sample(), Some(-3));
    button1.send(());
    assert_eq!(output.sample(), Some(-1));
    button2.send(());
    assert_eq!(output.sample(), Some(-2));
    button1.send(());
    stream1.send(Some(6));
    assert_eq!(output.sample(), Some(6));
    stream1.send(Some(12));
    assert_eq!(output.sample(), Some(12));
}

#[test]
fn primitives_clone() {
    let sink = Sink::new();
    let b = sink.stream().hold(1);
    sink.clone().send(3);
    assert_eq!(b.sample(), 3);
}

#[test]
fn primitives_move_closure() {
    let sink = Sink::<i32>::new();
    let x = 3;
    sink.stream().map(move |y| y + x);
}
