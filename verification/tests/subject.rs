use carboxyl::subject::{
    ChannelBuffer, Filter, Holder, Lift2, Listener, ListenerBox, LoopCellEntry, Mapper, Sample,
    Snapper, Source, Subject, WeakSnapperWrapper,
};
use carboxyl::shared::Shared;
use carboxyl::transaction::Transaction;

#[test]
fn src_recv() {
    let mut src = Source::new();
    let (buffer, mut rx) = ChannelBuffer::new();
    src.listen(ListenerBox::new(buffer));
    src.send(3);
    assert_eq!(rx.recv(), Ok(3));
}

#[test]
fn subject_map() {
    let mut src = Source::new();
    let mut map = Mapper::new(|x: i32| x + 3);
    let (buffer, mut rx) = ChannelBuffer::new();
    map.listen(ListenerBox::new(buffer));
    src.listen(ListenerBox::new(map));
    src.send(3);
    assert_eq!(rx.recv(), Ok(6));
}

#[test]
fn fork() {
    let mut src = Source::new();
    let mut map = Mapper::new(|x: i32| x + 3);
    let (buffer1, mut rx1) = ChannelBuffer::new();
    map.listen(ListenerBox::new(buffer1));
    src.listen(ListenerBox::new(map));
    let (buffer2, mut rx2) = ChannelBuffer::new();
    src.listen(ListenerBox::new(buffer2));
    src.send(4);
    assert_eq!(rx1.recv(), Ok(7));
    assert_eq!(rx2.recv(), Ok(4));
}

#[test]
fn subject_filter() {
    let mut src = Source::new();
    let mut filter = Filter::new();
    let (buffer, mut rx) = ChannelBuffer::new();
    filter.listen(ListenerBox::new(buffer));
    src.listen(ListenerBox::new(filter));
    src.send(None);
    src.send(Some(3));
    assert_eq!(rx.recv(), Ok(3));
}

#[test]
fn holder() {
    let mut holder = Holder::new(1);
    assert_eq!(holder.sample(), 1);
    assert!(holder.accept(3).is_ok());
    assert_eq!(holder.sample(), 3);
}

#[test]
fn snapper() {
    let mut src1 = Source::<i32>::new();
    let snapper = Shared::new(Snapper::new(3));
    src1.listen(WeakSnapperWrapper::boxed(&snapper));
    let (buffer, mut rx) = ChannelBuffer::new();
    snapper.with(|s| s.listen(ListenerBox::new(buffer)));
    assert!(snapper.with(|s| s.accept(6.0)).is_ok());
    assert_eq!(rx.recv(), Ok((3, 6.0)));
    src1.send(5);
    assert!(snapper.with(|s| s.accept(-4.0)).is_ok());
    assert_eq!(rx.recv(), Ok((5, -4.0)));
}

#[test]
fn lift2_node_combines_both_sides() {
    let mut lift = Lift2::new((1, 10), |a: i32, b: i32| a * b);
    let (buffer, mut rx) = ChannelBuffer::new();
    lift.listen(ListenerBox::new(buffer));
    assert_eq!(lift.sample(), 10);
    assert!(lift.accept(2).is_ok());
    assert_eq!(rx.recv(), Ok(20));
    assert!(lift.accept_second(7).is_ok());
    assert_eq!(rx.recv(), Ok(14));
    assert_eq!(lift.sample(), 14);
}

#[test]
fn dropped_receiver_unsubscribes() {
    let mut src = Source::new();
    let (buffer, rx) = ChannelBuffer::new();
    src.listen(ListenerBox::new(buffer));
    drop(rx);
    assert_eq!(src.len(), 1);
    src.send(1);
    assert_eq!(src.len(), 0);
}

#[test]
fn loop_entry_holds_last() {
    let mut entry = LoopCellEntry::new(0);
    assert!(entry.accept(9).is_ok());
    assert_eq!(entry.sample(), 9);
}

#[test]
fn weak_snapper_wrapper_defers_to_commit() {
    let snapper = Shared::new(Snapper::new(3));
    let (buffer, mut rx) = ChannelBuffer::new();
    snapper.with(|s| s.listen(ListenerBox::new(buffer)));
    let wrapper = WeakSnapperWrapper::new(&snapper);
    let mut trans = Transaction::new();
    wrapper.defer(5, &mut trans);
    assert!(snapper.with(|s| s.accept(1.0)).is_ok());
    assert_eq!(rx.recv(), Ok((3, 1.0)));
    trans.run_finalizers();
    assert!(snapper.with(|s| s.accept(2.0)).is_ok());
    assert_eq!(rx.recv(), Ok((5, 2.0)));
}
