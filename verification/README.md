# carboxyl

Functional reactive programming with streams of discrete events and
signals, values that change over time, verified with Verus.

- `pending`: a value with one queued replacement, the unit of deferred
  signal updates.
- `transaction`: transactions and their finalizers.
- `shared`: reference-counted cells behind verified reader-writer locks.
- `source`: event sources and callbacks (the observer pattern).
- `signal`, `lift`: signals, their sampling, holding, switching and cycles,
  and lifting of functions to signals. A signal's contracts describe its
  values when it is constant, or when it never changes its state but
  computes its value (as `lift0` and lifts over such signals do); the
  functor laws, and the applicative identity law, are proved for both
  kinds, the other applicative laws for constants.
- `stream`, `stream::coalesce`: sinks, streams and their combinators.
- `subject`: low-level push nodes as plain state machines.
- `event`, `readonly`: an event with receivers, and read-only handles.

Every event sent into a sink is handled in one transaction: it is pushed
through the dependent streams, signal changes are queued, and they become
visible when the transaction commits.

A signal's state and a stream's callbacks live in reference-counted cells
shared by every handle to them, so for signals that change and for streams
the contracts describe each operation's own step (what a callback answers,
what a source keeps, which finalizers a transaction runs) rather than the
values taken over time.
Handles are not `Send`: there is no global transaction, and each sink opens
its own transaction per value sent.
