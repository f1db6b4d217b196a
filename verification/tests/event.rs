use carboxyl::event::Event;

#[test]
fn event_sink() {
    let sink = Event::new();
    let mut r = sink.listen();
    sink.send(1);
    assert_eq!(r.recv(), Ok(1))
}

#[test]
fn event_map() {
    let sink = Event::new();
    let triple = sink.map(|x| 3 * x);
    let mut r = triple.listen();
    sink.send(1);
    assert_eq!(r.recv(), Ok(3));
}

#[test]
fn event_filter() {
    let sink: Event<i32> = Event::new();
    let positive = sink.filter(|&x| x > 0);
    let mut r = positive.listen();
    sink.send(-2);
    sink.send(3);
    assert_eq!(r.recv(), Ok(3));
}

#[test]
fn event_merge() {
    let sink1 = Event::new();
    let sink2 = Event::new();
    let merge = sink1.merge(&sink2);
    let mut r = merge.listen();
    sink1.send(3);
    sink2.send(4);
    let result = (r.recv(), r.recv());
    assert!((result == (Ok(3), Ok(4))) || (result == (Ok(4), Ok(3))));
}

#[test]
fn chain() {
    let sink: Event<i32> = Event::new();
    let chain = sink.map(|x| x + 2).filter(|&x| x > 10);
    let mut r = chain.listen();
    sink.send(9);
    assert_eq!(r.recv(), Ok(11));
}

#[test]
fn event_recv_without_occurrence() {
    let sink: Event<i32> = Event::new();
    let mut r = sink.listen();
    assert!(r.recv().is_err());
}
