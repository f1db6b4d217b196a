use carboxyl::signal::Behaviour;
use carboxyl::Sink;

#[test]
fn behaviour_hold() {
    let ea = Sink::new();
    let ba = ea.stream().hold(3);
    assert_eq!(Behaviour::sample(&ba), 3);
    ea.send(4);
    assert_eq!(Behaviour::sample(&ba), 4);
}

#[test]
fn behaviour_snapshot() {
    let ev1 = Sink::new();
    let beh1 = ev1.stream().hold(5);
    let ev2 = Sink::new();
    let snap = beh1.snapshot(&ev2.stream(), |a, b| (a, b));
    let mut iter = snap.events();
    assert_eq!(iter.next(), None);
    ev2.send(4);
    assert_eq!(iter.next(), Some((5, 4)));
    ev1.send(-2);
    assert_eq!(iter.next(), None);
    ev2.send(6);
    assert_eq!(iter.next(), Some((-2, 6)));
}
