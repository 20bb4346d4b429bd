use vstd::prelude::*;

use crate::producer::DoubleEndedProducer;
use crate::producer::Producer;

verus! {

/// Producer wrapper that releases the wrapped producer on the first
/// end-of-sequence signal and refuses any request after that.
///
/// While the producer is held, `next` and `next_back` forward to it; the
/// first `None` observed from either end drops the producer for good.
/// Asking for another value after that is a misuse of the adapter: the
/// precondition of `next` and `next_back` (`ready()`) rules it out, so
/// verified callers can never request a value past exhaustion.
#[derive(Clone, Copy, Debug, Eq, Hash, PartialEq)]
pub struct Fuze<I> {
    inner: Option<I>,
}

impl<I> Fuze<I> {
    /// Whether the wrapped producer is still held. It is released — and
    /// this becomes false forever — the first time it signals exhaustion.
    pub closed spec fn is_live(&self) -> bool {
        self.inner is Some
    }

    /// The wrapped producer, while it is still held.
    pub closed spec fn producer(&self) -> I
        recommends
            self.is_live(),
    {
        self.inner->0
    }
}

impl<I> From<I> for Fuze<I> {
    /// An adapter holding `iter`.
    fn from(iter: I) -> (r: Self)
        ensures
            r.is_live(),
            r.producer() == iter,
    {
        Fuze { inner: Some(iter) }
    }
}

impl<I> vstd::std_specs::convert::FromSpecImpl<I> for Fuze<I> {
    open spec fn obeys_from_spec() -> bool {
        true
    }

    closed spec fn from_spec(v: I) -> Self {
        Fuze { inner: Some(v) }
    }
}

impl<I: Default> Default for Fuze<I> {
    /// An adapter holding a freshly default-constructed producer, with
    /// nothing consumed: the held producer is one that `I::default()`
    /// could have returned.
    fn default() -> (r: Self)
        ensures
            r.is_live(),
            call_ensures(I::default, (), r.producer()),
    {
        Fuze { inner: Some(Default::default()) }
    }
}

impl<I: Producer> Producer for Fuze<I> {
    type Item = I::Item;

    closed spec fn model(&self) -> Seq<I::Item> {
        match self.inner {
            Some(p) => p.model(),
            None => Seq::empty(),
        }
    }

    closed spec fn ready(&self) -> bool {
        match self.inner {
            Some(p) => p.ready(),
            None => false,
        }
    }

    closed spec fn lower_estimate(&self) -> usize {
        match self.inner {
            Some(p) => p.lower_estimate(),
            None => 0,
        }
    }

    closed spec fn upper_estimate(&self) -> Option<usize> {
        match self.inner {
            Some(p) => p.upper_estimate(),
            None => Some(0),
        }
    }

    /// Forwards the request to the wrapped producer; on the first `None`
    /// the producer is dropped, and the adapter is no longer ready.
    ///
    /// The precondition rejects a request after release at verification
    /// time; a caller outside verified code that asks anyway gets a
    /// panic whose message names the forward direction, and the adapter
    /// stays released.
    fn next(&mut self) -> (r: Option<I::Item>)
        ensures
            r is Some <==> final(self).is_live(),
            r is Some ==> final(self).ready(),
    {
        let mut p = self.inner.take().expect("called `Fuze::next` after it returned `None`");
        let item = p.next();
        if item.is_some() {
            self.inner = Some(p);
        }
        proof {
            if old(self).model().len() == 0 {
                assert(self.model() =~= old(self).model());
            }
        }
        item
    }

    /// While the producer is held its own estimate is passed through
    /// unchanged; once it has been released the estimate is exactly zero.
    fn size_hint(&self) -> (r: (usize, Option<usize>)) {
        match &self.inner {
            Some(p) => p.size_hint(),
            None => (0, Some(0)),
        }
    }
}

impl<I: DoubleEndedProducer> DoubleEndedProducer for Fuze<I> {
    /// Forwards the request to the back of the wrapped producer; on the
    /// first `None` the producer is dropped, exactly as for `next`.
    ///
    /// As for `next`, a request after release is rejected at
    /// verification time; a caller outside verified code gets a panic
    /// whose message names the backward direction.
    fn next_back(&mut self) -> (r: Option<I::Item>)
        ensures
            r is Some <==> final(self).is_live(),
            r is Some ==> final(self).ready(),
    {
        let mut p = self.inner.take().expect(
            "called `Fuze::next_back` after it returned `None`",
        );
        let item = p.next_back();
        if item.is_some() {
            self.inner = Some(p);
        }
        proof {
            if old(self).model().len() == 0 {
                assert(self.model() =~= old(self).model());
            }
        }
        item
    }
}

/// An extension trait that adds the `fuze` method to producers.
pub trait IteratorExt: Producer {
    /// Converts `self` into a `Fuze`, which yields the same values and
    /// reports the same estimates but releases `self` on the first
    /// end-of-sequence signal.
    fn fuze(self) -> (r: Fuze<Self>)
        ensures
            r.is_live(),
            r.producer() == self,
            r.model() == self.model(),
            r.ready() == self.ready(),
            r.lower_estimate() == self.lower_estimate(),
            r.upper_estimate() == self.upper_estimate(),
    ;
}

impl<I: Producer> IteratorExt for I {
    fn fuze(self) -> (r: Fuze<I>) {
        Fuze { inner: Some(self) }
    }
}

/// No spurious failure: a run of forward requests issued strictly before
/// the first end-of-sequence signal never violates the guard. This loop
/// issues exactly such a run against an arbitrary producer — every value
/// it has left, then the one final `None` — and verifying it shows each
/// of those requests is in contract. It returns the values yielded, and
/// leaves the adapter released.
pub fn drain<I: Producer>(f: &mut Fuze<I>) -> (r: Vec<I::Item>)
    requires
        old(f).ready(),
    ensures
        r@ == old(f).model(),
        !final(f).is_live(),
{
    let mut out: Vec<I::Item> = Vec::new();
    proof {
        assert(out@ + f.model() =~= f.model());
    }
    loop
        invariant_except_break
            f.ready(),
        invariant
            out@ + f.model() == old(f).model(),
        ensures
            f.model().len() == 0,
            !f.is_live(),
        decreases f.model().len(),
    {
        match f.next() {
            Some(x) => {
                out.push(x);
                proof {
                    assert(out@ + f.model() =~= old(f).model());
                }
            },
            None => {
                break ;
            },
        }
    }
    proof {
        assert(out@ =~= old(f).model());
    }
    out
}

/// Pass-through: while the producer is held, the adapter's model,
/// readiness and size estimates are exactly the wrapped producer's own.
pub proof fn lemma_live_view<I: Producer>(f: Fuze<I>)
    requires
        f.is_live(),
    ensures
        f.model() == f.producer().model(),
        f.ready() == f.producer().ready(),
        f.lower_estimate() == f.producer().lower_estimate(),
        f.upper_estimate() == f.producer().upper_estimate(),
{
}

/// The guard is sticky: only a live adapter is ever ready. `next` and
/// `next_back` both require readiness, so once the producer has been
/// released — after exhaustion was observed from either end — neither
/// request is ever again in contract, and no call can reach the dropped
/// producer or make the adapter live again. The requests are the only
/// operations that change the adapter, so the released state is final.
pub proof fn lemma_ready_implies_live<I: Producer>(f: Fuze<I>)
    ensures
        f.ready() ==> f.is_live(),
{
}

/// The released state is terminal: an adapter that no longer holds a
/// producer is not ready — no further request may be made from either
/// end, so nothing can ever reach a released producer — and it models
/// the empty sequence with an estimate of exactly zero remaining.
pub proof fn lemma_released_is_terminal<I: Producer>(f: Fuze<I>)
    requires
        !f.is_live(),
    ensures
        !f.ready(),
        f.model() == Seq::<I::Item>::empty(),
        f.lower_estimate() == 0,
        f.upper_estimate() == Some(0usize),
{
}

} // verus!
