//! Events: a stream together with the sink that feeds it.

use vstd::prelude::*;
use crate::shared::Shared;
use crate::source::Source;
use crate::stream::{Events, Sink, Stream};

verus! {

/// An event that can be fired directly and observed through receivers.
#[verifier::reject_recursive_types(A)]
pub struct Event<A> {
    sink: Sink<A>,
    stream: Stream<A>,
}

impl<A> Event<A> {
    #[verifier::type_invariant]
    spec fn hears_itself(self) -> bool {
        self.stream.inputs().contains(self.sink.cell())
    }

    /// Every value fired directly into the event is an occurrence its
    /// receivers observe.
    pub closed spec fn fires_what_is_sent(&self) -> bool {
        self.stream.inputs().contains(self.sink.cell())
    }

    /// The sources whose every value the event's receivers observe.
    pub closed spec fn heard(&self) -> Set<Shared<Source<A>>> {
        self.stream.inputs()
    }

    /// The source that the values fired directly enter.
    pub closed spec fn input(&self) -> Shared<Source<A>> {
        self.sink.cell()
    }

    /// The source whose events the receivers observe.
    pub closed spec fn output(&self) -> Shared<Source<A>> {
        self.stream.cell()
    }
}

impl<A: Clone + 'static> Event<A> {
    /// Create a new event with nothing derived from it yet: its receivers
    /// observe exactly the values fired into it.
    pub fn new() -> (r: Event<A>)
        ensures
            r.output() == r.input(),
            r.fires_what_is_sent(),
    {
        let sink = Sink::new();
        let stream = sink.stream();
        Event { sink, stream }
    }

    /// The event fed by the occurrences of `stream`, and by the values fired
    /// into it directly.
    fn derived(stream: Stream<A>) -> (r: Event<A>)
        ensures
            r.fires_what_is_sent(),
            stream.inputs().subset_of(r.heard()),
    {
        let sink = Sink::new();
        let own = sink.stream();
        let merged = own.merge(&stream);
        Event { sink, stream: merged }
    }

    /// Fire the event with value `a`.
    pub fn send(&self, a: A) {
        self.sink.send(a);
    }

    /// A receiver of every occurrence from now on: of every value fired into
    /// the event, among others.
    pub fn listen(&self) -> (r: Events<A>)
        ensures
            r.fed_by() == self.heard(),
            r.fed_by().contains(self.input()),
    {
        proof {
            use_type_invariant(self);
        }
        self.stream.events()
    }

    /// The event that fires `f(a)` whenever this one fires `a`.
    pub fn map<B: Clone + 'static, F: Fn(A) -> B + 'static>(&self, f: F) -> (r: Event<B>)
        requires
            forall|a: A| f.requires((a,)),
        ensures
            r.fires_what_is_sent(),
    {
        Event::derived(self.stream.map(f))
    }

    /// The event that fires the occurrences of this one that satisfy `f`.
    pub fn filter<F: Fn(&A) -> bool + 'static>(&self, f: F) -> (r: Event<A>)
        requires
            forall|a: &A| f.requires((a,)),
        ensures
            r.fires_what_is_sent(),
    {
        Event::derived(self.stream.filter(f))
    }

    /// The event that fires the occurrences of both events.
    pub fn merge(&self, other: &Event<A>) -> (r: Event<A>)
        ensures
            r.fires_what_is_sent(),
            self.heard().subset_of(r.heard()),
            other.heard().subset_of(r.heard()),
    {
        Event::derived(self.stream.merge(&other.stream))
    }
}

/// Every value fired into an event reaches the receivers of that event,
/// whether the event is fresh or derived by `map`, `filter` or `merge`:
/// `ev` is such an event and `rx` one of its receivers.
pub proof fn law_event_receivers_observe_what_is_sent<A>(ev: Event<A>, rx: Events<A>)
    requires
        ev.fires_what_is_sent(),
        rx.fed_by() == ev.heard(),
    ensures
        rx.fed_by().contains(ev.input()),
{
}

/// A merged event's receivers observe everything the receivers of either
/// operand observe: `m` is `a.merge(&b)`, `rx` a receiver of `m`.
pub proof fn law_merged_event_observes_both<A>(a: Event<A>, b: Event<A>, m: Event<A>, rx: Events<A>)
    requires
        a.heard().subset_of(m.heard()),
        b.heard().subset_of(m.heard()),
        rx.fed_by() == m.heard(),
        a.fires_what_is_sent(),
        b.fires_what_is_sent(),
    ensures
        rx.fed_by().contains(a.input()),
        rx.fed_by().contains(b.input()),
{
}

} // verus!
