use carboxyl::transaction::{commit, later, with_current, Finalizer, FnBox, Transaction};
use carboxyl::shared::Shared;

#[test]
fn commit_single() {
    let mut v = 3;
    commit(|_| v += 5);
    assert_eq!(v, 8);
}

#[test]
fn commit_nested() {
    let mut v = 3;
    commit(|_| {
        commit(|_| v *= 2);
        v += 4;
    });
    assert_eq!(v, 10);
}

struct Record {
    log: Shared<Vec<i32>>,
    tag: i32,
    ran: bool,
}

impl FnBox for Record {
    fn has_run(&self) -> bool {
        self.ran
    }

    fn call_box(&mut self) {
        let mut v = self.log.get();
        v.push(self.tag);
        self.log.set(v);
        self.ran = true;
    }
}

#[test]
fn finalizers_run_in_order_after_body() {
    let log = Shared::new(vec![]);
    let seen = commit(|t| {
        later(t, Finalizer::new(Record { log: log.clone(), tag: 1, ran: false }));
        with_current(t, |t| t.later(Finalizer::new(Record { log: log.clone(), tag: 2, ran: false })));
        log.get()
    });
    assert_eq!(seen, Vec::<i32>::new());
    assert_eq!(log.get(), vec![1, 2]);
}

#[test]
fn finalizers_are_taken_once() {
    let mut t = Transaction::new();
    t.later(Finalizer::new(Record { log: Shared::new(vec![]), tag: 0, ran: false }));
    assert_eq!(t.len(), 1);
    assert_eq!(t.finalizers().len(), 1);
    assert_eq!(t.len(), 0);
}
