//! A value made once, on first use, by a function.
//!
//! Several threads may make a value at the same time; the first to publish
//! it wins, the others drop theirs, and every use sees the published one.
use vstd::prelude::*;

verus! {

/// The slot after a candidate is offered: the first value published stays.
pub open spec fn offer_spec<T>(slot: Option<T>, candidate: T) -> Option<T> {
    if slot is Some {
        slot
    } else {
        Some(candidate)
    }
}

/// Whether a maker whose publishing compare-and-swap found the slot empty
/// won the race (and keeps its value) or lost it (and drops its value).
pub fn publish_step(found_empty: bool) -> (won: bool)
    ensures
        won == found_empty,
{
    found_empty
}

/// A value computed by `f` on first use and kept from then on.
pub struct OnceData<F, T> {
    f: F,
    data: Option<T>,
}

impl<F: Fn() -> T, T> OnceData<F, T> {
    pub closed spec fn value(&self) -> Option<T> {
        self.data
    }

    pub closed spec fn maker(&self) -> F {
        self.f
    }

    /// `f` makes the value; it may run more than once when uses race, but
    /// every use sees the same value.
    pub fn new(f: F) -> (o: Self)
        ensures
            o.value() is None,
            o.maker() == f,
    {
        OnceData { f, data: None }
    }

    /// Publishes `candidate` unless a value was published already; returns
    /// the published value.
    pub fn offer(&mut self, candidate: T) -> (r: &T)
        ensures
            final(self).value() == offer_spec(old(self).value(), candidate),
            final(self).maker() == old(self).maker(),
            Some(*r) == final(self).value(),
    {
        let won = publish_step(self.data.is_none());
        if won {
            self.data = Some(candidate);
        }
        self.data.as_ref().unwrap()
    }

    /// The value, made by `f` on the first call.
    pub fn get(&mut self) -> (r: &T)
        requires
            old(self).maker().requires(()),
        ensures
            old(self).value() is Some ==> final(self).value() == old(self).value(),
            old(self).value() is None ==> old(self).maker().ensures((), final(self).value()->Some_0),
            final(self).maker() == old(self).maker(),
            Some(*r) == final(self).value(),
    {
        if self.data.is_none() {
            let v = (self.f)();
            self.data = Some(v);
        }
        self.data.as_ref().unwrap()
    }
}

/// Once a value is published, later candidates change nothing: every use
/// returns the first published value.
pub proof fn lemma_first_value_stays<T>(slot: Option<T>, a: T, b: T)
    ensures
        offer_spec(offer_spec(slot, a), b) == offer_spec(slot, a),
        slot is None ==> offer_spec(offer_spec(slot, a), b) == Some(a),
{
}

} // verus!
