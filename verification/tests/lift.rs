use carboxyl::lift;
use carboxyl::{Signal, Sink};
use rand::random;

#[test]
fn lift0() {
    let signal = lift::lift0(|| 3);
    assert_eq!(signal.sample(), 3);
}

#[test]
fn lift1() {
    let sig2 = lift::lift1(|n| n + 2, &Signal::new(3));
    assert_eq!(sig2.sample(), 5);
}

#[test]
fn lift2() {
    let sink1 = Sink::new();
    let sink2 = Sink::new();
    let lifted = lift::lift2(|a, b| a + b, &sink1.stream().hold(0), &sink2.stream().hold(3));
    assert_eq!(lifted.sample(), 3);
    sink1.send(1);
    assert_eq!(lifted.sample(), 4);
    sink2.send(11);
    assert_eq!(lifted.sample(), 12);
}

#[test]
fn lift2_identical() {
    let sig = Signal::new(16);
    let sig2 = lift::lift2(|a, b| a + b, &sig, &sig);
    assert_eq!(sig2.sample(), 32);
}

#[test]
fn lift3() {
    let sink = Sink::new();
    assert_eq!(
        lift::lift3(|x, y, z| x + 2 * y + z,
            &sink.stream().hold(5),
            &sink.stream().hold(3),
            &sink.stream().hold(-4)
        ).sample(),
        7
    );
}

#[test]
fn lift4() {
    let sink = Sink::new();
    assert_eq!(
        lift::lift4(|w, x, y, z| 4 * w + x + 2 * y + z,
            &sink.stream().hold(-2),
            &sink.stream().hold(5),
            &sink.stream().hold(3),
            &sink.stream().hold(-4)
        ).sample(),
        -1
    );
}

#[test]
fn lift0_equal_within_transaction() {
    let rnd = lift::lift0(random::<i64>);
    let gather = lift::lift2(|a, b| (a, b), &rnd, &rnd);
    let (a, b) = gather.sample();
    assert_eq!(a, b);
}

#[test]
fn lift_of_constants_is_constant() {
    let a = Signal::new(2);
    let b = Signal::new(5);
    assert!(lift::lift2(|x: i32, y: i32| x * y, &a, &b).is_constant());
    assert_eq!(lift::lift2(|x: i32, y: i32| x * y, &a, &b).sample(), 10);
    let sink = Sink::new();
    assert!(!lift::lift2(|x: i32, y: i32| x * y, &a, &sink.stream().hold(1)).is_constant());
}

#[test]
fn lift_over_computed_signals() {
    let three = lift::lift0(|| 3);
    let four = lift::lift1(|x: i32| x + 1, &three);
    assert_eq!(four.sample(), 4);
    let seven = lift::lift2(|a: i32, b: i32| a + b, &three, &four);
    assert_eq!(seven.sample(), 7);
    let ten = lift::lift2(|a: i32, b: i32| a + b, &seven, &Signal::new(3));
    assert_eq!(ten.sample(), 10);
}
