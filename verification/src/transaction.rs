//! Transactions: the unit of atomic change in the dependency graph.
//!
//! Everything that happens in reaction to one event runs inside one
//! transaction. Work that must only happen once the reaction has settled,
//! such as moving queued signal values into place, is registered as a
//! finalizer and run when the transaction commits.

use vstd::prelude::*;

verus! {

/// A deferred piece of work, run once when a transaction commits.
pub trait FnBox {
    /// Whether the callback has run.
    spec fn has_run(&self) -> bool;

    /// Run the callback.
    fn call_box(&mut self)
        ensures
            final(self).has_run(),
    ;
}

/// A registered finalizer.
pub struct Finalizer {
    callback: Box<dyn FnBox>,
}

impl Finalizer {
    /// Whether the finalizer has run.
    pub closed spec fn has_run(&self) -> bool {
        self.callback.has_run()
    }

    /// Wrap a callback as a finalizer.
    pub fn new<F: FnBox + 'static>(f: F) -> Finalizer {
        Finalizer { callback: Box::new(f) }
    }

    /// Run the finalizer.
    pub fn run(&mut self)
        ensures
            final(self).has_run(),
    {
        self.callback.call_box();
    }
}

/// A transaction: the finalizers registered while it was open, and those
/// it has run.
pub struct Transaction {
    finalizers: Vec<Finalizer>,
    ran: Ghost<Seq<Finalizer>>,
}

impl Transaction {
    /// The finalizers registered so far and not yet run, oldest first.
    pub closed spec fn pending(&self) -> Seq<Finalizer> {
        self.finalizers@
    }

    /// The finalizers run so far, in the order they ran, each as it was
    /// left by its run.
    pub closed spec fn ran(&self) -> Seq<Finalizer> {
        self.ran@
    }

    /// Create a new transaction with no finalizers.
    pub fn new() -> (t: Transaction)
        ensures
            t.pending() == Seq::<Finalizer>::empty(),
            t.ran() == Seq::<Finalizer>::empty(),
    {
        Transaction { finalizers: Vec::new(), ran: Ghost(Seq::empty()) }
    }

    /// Add a finalizing callback. It should not have far reaching side
    /// effects; typical finalizers execute queued state updates.
    pub fn later(&mut self, callback: Finalizer)
        ensures
            final(self).pending() == old(self).pending().push(callback),
            final(self).ran() == old(self).ran(),
    {
        self.finalizers.push(callback);
    }

    /// Advance the transaction by moving out the finalizers registered so
    /// far, leaving none behind.
    pub fn finalizers(&mut self) -> (r: Vec<Finalizer>)
        ensures
            r@ == old(self).pending(),
            final(self).pending() == Seq::<Finalizer>::empty(),
            final(self).ran() == old(self).ran(),
    {
        let mut taken = Vec::new();
        std::mem::swap(&mut taken, &mut self.finalizers);
        taken
    }

    /// Run every finalizer registered so far, oldest first, each once,
    /// leaving none behind. The run log grows by one entry per finalizer,
    /// each of them run.
    pub fn run_finalizers(&mut self)
        ensures
            final(self).pending() == Seq::<Finalizer>::empty(),
            final(self).ran().len() == old(self).ran().len() + old(self).pending().len(),
            final(self).ran().subrange(0, old(self).ran().len() as int) == old(self).ran(),
            forall|k: int|
                old(self).ran().len() <= k < final(self).ran().len() ==> (#[trigger] final(self).ran()[k]).has_run(),
    {
        let ghost before = self.ran@;
        let mut callbacks = self.finalizers();
        let n = callbacks.len();
        let mut i: usize = 0;
        while i < n
            invariant
                n == callbacks.len(),
                i <= n,
                forall|k: int| 0 <= k < i ==> (#[trigger] callbacks@[k]).has_run(),
            decreases n - i,
        {
            callbacks[i].run();
            i = i + 1;
        }
        self.ran = Ghost(before + callbacks@);
    }

    /// Number of finalizers registered so far.
    pub fn len(&self) -> (n: usize)
        ensures
            n == self.pending().len(),
    {
        self.finalizers.len()
    }
}

impl Default for Transaction {
    fn default() -> (t: Transaction)
        ensures
            t.pending() == Seq::<Finalizer>::empty(),
    {
        Transaction::new()
    }
}

/// Commit a transaction: run `body` inside a fresh transaction, then run
/// every finalizer it left registered, once each, oldest first, and return
/// what `body` returned.
pub fn commit<A, F: FnOnce(&mut Transaction) -> A>(body: F) -> (r: A)
    requires
        forall|t: &mut Transaction| body.requires((t,)),
    ensures
        exists|t: &mut Transaction, ran: Seq<Finalizer>|
            {
                &&& body.ensures((t,), r)
                &&& (*t).pending() == Seq::<Finalizer>::empty()
                &&& (*t).ran() == Seq::<Finalizer>::empty()
                &&& committed(*final(t), ran)
            },
{
    let mut trans = Transaction::new();
    let result = body(&mut trans);
    let ghost after_body = trans;
    assert(exists|t: &mut Transaction| body.ensures((t,), result) && *final(t) == after_body);
    trans.run_finalizers();
    let ghost ran = trans.ran().subrange(after_body.ran().len() as int, trans.ran().len() as int);
    assert(committed(after_body, ran));
    result
}

/// `ran` are the finalizers left registered in `t`, each of them run: one
/// for each, in the order they were registered.
pub open spec fn committed(t: Transaction, ran: Seq<Finalizer>) -> bool {
    &&& ran.len() == t.pending().len()
    &&& forall|k: int| 0 <= k < ran.len() ==> (#[trigger] ran[k]).has_run()
}

/// Run `action` on the transaction that is currently open.
pub fn with_current<A, F: FnOnce(&mut Transaction) -> A>(trans: &mut Transaction, action: F) -> (r: A)
    requires
        forall|t: &mut Transaction| action.requires((t,)),
    ensures
        exists|t: &mut Transaction| action.ensures((t,), r) && *t == *old(trans) && *final(t) == *final(trans),
{
    action(trans)
}

/// Register a finalizer with the transaction that is currently open.
pub fn later(trans: &mut Transaction, action: Finalizer)
    ensures
        final(trans).pending() == old(trans).pending().push(action),
{
    trans.later(action);
}

} // verus!
