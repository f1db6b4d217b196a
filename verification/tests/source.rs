use carboxyl::shared::Shared;
use carboxyl::source::{with_upgraded, with_weak, CallbackError, Source};
use carboxyl::transaction::Transaction;

#[test]
fn with_weak_no_error() {
    let a = Shared::new(3);
    let weak = a.downgrade();
    assert_eq!(with_weak(&weak, |a| { *a = 4; }), Ok(()));
    assert_eq!(a.get(), 4);
}

#[test]
fn with_weak_disappeared() {
    let weak = Shared::new(3).downgrade();
    assert_eq!(with_weak(&weak, |_| ()), Err(CallbackError::Disappeared));
}

#[test]
fn source_register_and_send() {
    let mut src = Source::new();
    let a = Shared::new(3);
    {
        let a = a.clone();
        src.register_fn(move |x| {
            a.set(x);
            Ok(())
        });
    }
    assert_eq!(src.len(), 1);
    let mut trans = Transaction::new();
    src.send(4, &mut trans);
    assert_eq!(a.get(), 4);
}

#[test]
fn source_unregister() {
    let mut src = Source::new();
    src.register_fn(|_| Err(CallbackError::Disappeared));
    assert_eq!(src.len(), 1);
    let mut trans = Transaction::new();
    src.send((), &mut trans);
    assert_eq!(src.len(), 0);
}

#[test]
fn source_keeps_order_of_remaining_callbacks() {
    let mut src = Source::new();
    let log = Shared::new(Vec::new());
    for k in 0..4 {
        let log = log.clone();
        src.register_fn(move |x: i32| {
            let mut v = log.get();
            v.push(k * 10 + x);
            log.set(v);
            if k % 2 == 0 { Ok(()) } else { Err(CallbackError::Disappeared) }
        });
    }
    let mut trans = Transaction::new();
    src.send(1, &mut trans);
    assert_eq!(src.len(), 2);
    src.send(2, &mut trans);
    assert_eq!(log.get(), vec![1, 11, 21, 31, 2, 22]);
}

#[test]
fn with_upgraded_answers_by_outcome() {
    let gone: Option<Shared<i32>> = None;
    assert_eq!(with_upgraded(gone, |x: &mut i32| *x + 1), Err(CallbackError::Disappeared));
    let cell = Shared::new(4);
    assert_eq!(with_upgraded(Some(cell.clone()), |x: &mut i32| { *x += 1; *x }), Ok(5));
    assert_eq!(cell.get(), 5);
}
