use vstd::prelude::*;

use crate::producer::DoubleEndedProducer;
use crate::producer::Producer;

verus! {

/// Producer wrapper that stops calling the wrapped producer after the
/// first end-of-sequence signal and keeps answering `None` itself.
///
/// Unlike [`Fuze`](crate::adapter::Fuze), this adapter never stops being
/// ready: `new` returns it ready, and `next` and `next_back` leave it
/// ready again, so it may be driven past exhaustion any number of times.
/// Wrapping a `Fuze` in a `Fused` therefore composes safely — the outer
/// adapter intercepts every request that arrives after exhaustion, so no
/// second request ever reaches the guard of the inner adapter.
pub struct Fused<P> {
    inner: Option<P>,
}

impl<P: Producer> Fused<P> {
    /// Wraps a ready producer.
    pub fn new(p: P) -> (r: Self)
        requires
            p.ready(),
        ensures
            r.ready(),
            r.model() == p.model(),
            r.lower_estimate() == p.lower_estimate(),
            r.upper_estimate() == p.upper_estimate(),
    {
        Fused { inner: Some(p) }
    }
}

impl<P: Producer> Producer for Fused<P> {
    type Item = P::Item;

    closed spec fn model(&self) -> Seq<P::Item> {
        match self.inner {
            Some(p) => p.model(),
            None => Seq::empty(),
        }
    }

    /// The wrapper is ready while the producer it still holds is; once
    /// it has let the producer go it answers every request itself and
    /// stays ready forever.
    closed spec fn ready(&self) -> bool {
        match self.inner {
            Some(p) => p.ready(),
            None => true,
        }
    }

    closed spec fn lower_estimate(&self) -> usize {
        match self.inner {
            Some(p) => p.lower_estimate(),
            None => 0,
        }
    }

    closed spec fn upper_estimate(&self) -> Option<usize> {
        match self.inner {
            Some(p) => p.upper_estimate(),
            None => Some(0),
        }
    }

    /// Every request leaves the wrapper ready, however many requests
    /// have already come back empty.
    fn next(&mut self) -> (r: Option<P::Item>)
        ensures
            final(self).ready(),
    {
        match self.inner.take() {
            Some(mut p) => {
                let item = p.next();
                if item.is_some() {
                    self.inner = Some(p);
                }
                proof {
                    if old(self).model().len() == 0 {
                        assert(self.model() =~= old(self).model());
                    }
                }
                item
            },
            None => None,
        }
    }

    fn size_hint(&self) -> (r: (usize, Option<usize>)) {
        match &self.inner {
            Some(p) => p.size_hint(),
            None => (0, Some(0)),
        }
    }
}

impl<P: DoubleEndedProducer> DoubleEndedProducer for Fused<P> {
    /// Every request leaves the wrapper ready, exactly as for `next`.
    fn next_back(&mut self) -> (r: Option<P::Item>)
        ensures
            final(self).ready(),
    {
        match self.inner.take() {
            Some(mut p) => {
                let item = p.next_back();
                if item.is_some() {
                    self.inner = Some(p);
                }
                proof {
                    if old(self).model().len() == 0 {
                        assert(self.model() =~= old(self).model());
                    }
                }
                item
            },
            None => None,
        }
    }
}

} // verus!
