//! A value with at most one queued replacement.

use vstd::prelude::*;

verus! {

/// A pending value. One new value can be queued without overwriting the
/// current one; a later `update` moves the most recently queued value in.
pub struct Pending<T> {
    current: T,
    update: Option<T>,
}

impl<T> Pending<T> {
    /// The value that is visible now.
    pub closed spec fn current_spec(&self) -> T {
        self.current
    }

    /// The value waiting to replace the current one, if any.
    pub closed spec fn queued_spec(&self) -> Option<T> {
        self.update
    }

    /// The value that will be visible after the next update.
    pub open spec fn future_spec(&self) -> T {
        match self.queued_spec() {
            Some(t) => t,
            None => self.current_spec(),
        }
    }

    /// Create a new pending value with nothing queued.
    pub fn new(t: T) -> (p: Pending<T>)
        ensures
            p.current_spec() == t,
            p.queued_spec() == None::<T>,
    {
        Pending { current: t, update: None }
    }

    /// Queue a new value, replacing anything queued before.
    pub fn queue(&mut self, new: T)
        ensures
            final(self).current_spec() == old(self).current_spec(),
            final(self).queued_spec() == Some(new),
    {
        self.update = Some(new);
    }

    /// Move the queued value, if any, into the current one.
    pub fn update(&mut self)
        ensures
            final(self).current_spec() == old(self).future_spec(),
            final(self).queued_spec() == None::<T>,
    {
        if let Some(t) = self.update.take() {
            self.current = t;
        }
    }

    /// The value that will be visible after the next update.
    pub fn future(&self) -> (r: &T)
        ensures
            *r == self.future_spec(),
    {
        match &self.update {
            Some(t) => t,
            None => &self.current,
        }
    }

    /// The value that is visible now.
    pub fn current(&self) -> (r: &T)
        ensures
            *r == self.current_spec(),
    {
        &self.current
    }
}

impl<T> std::ops::Deref for Pending<T> {
    type Target = T;

    fn deref(&self) -> (r: &T)
        ensures
            *r == self.current_spec(),
    {
        &self.current
    }
}

/// Two pending values are the same when they agree on what is visible now
/// and on what is queued.
pub proof fn lemma_pending_ext<T>(p: Pending<T>, q: Pending<T>)
    requires
        p.current_spec() == q.current_spec(),
        p.queued_spec() == q.queued_spec(),
    ensures
        p == q,
{
}

/// Queue, then update: while `x` is queued the visible value is still the
/// old one, and the update makes `x` visible with nothing left queued.
/// `q` is `p` after `queue(x)`, `r` is `q` after `update()`.
pub proof fn law_queue_hides_until_update<T>(p: Pending<T>, q: Pending<T>, r: Pending<T>, x: T)
    requires
        q.current_spec() == p.current_spec(),
        q.queued_spec() == Some(x),
        r.current_spec() == q.future_spec(),
        r.queued_spec() == None::<T>,
    ensures
        q.current_spec() == p.current_spec(),
        r.current_spec() == x,
        r.future_spec() == x,
{
}

/// A second update changes nothing: `q` is `p` after `update()`, `r` is `q`
/// after another `update()`.
pub proof fn law_update_settles<T>(p: Pending<T>, q: Pending<T>, r: Pending<T>)
    requires
        q.current_spec() == p.future_spec(),
        q.queued_spec() == None::<T>,
        r.current_spec() == q.future_spec(),
        r.queued_spec() == None::<T>,
    ensures
        r == q,
        r.current_spec() == p.future_spec(),
{
    lemma_pending_ext(r, q);
}

} // verus!
