use vstd::prelude::*;

verus! {

/// A source of values handed out one at a time from the front.
///
/// `model()` is the mathematical sequence of values the producer has left
/// to yield, front first. `ready()` gates every request: a producer whose
/// `ready()` is false may not be asked for another value, and asking
/// anyway is a contract violation caught at verification time.
pub trait Producer: Sized {
    type Item;

    /// The values the producer has left to yield, front first.
    spec fn model(&self) -> Seq<Self::Item>;

    /// Whether the producer may be asked for another value.
    spec fn ready(&self) -> bool;

    /// The lower bound on remaining values that `size_hint` reports.
    spec fn lower_estimate(&self) -> usize;

    /// The upper bound on remaining values that `size_hint` reports.
    spec fn upper_estimate(&self) -> Option<usize>;

    /// Yields the front value, or `None` once no value is left.
    ///
    /// A producer that still has values stays ready, so a caller that
    /// stops at the first `None` never violates the precondition.
    fn next(&mut self) -> (r: Option<Self::Item>)
        requires
            old(self).ready(),
        ensures
            old(self).model().len() == 0 ==> r is None && final(self).model()
                == old(self).model(),
            old(self).model().len() > 0 ==> r == Some(old(self).model()[0])
                && final(self).model() == old(self).model().drop_first()
                && final(self).ready(),
    ;

    /// Reports bounds on how many values are left: a sound lower bound
    /// and, when present, a sound upper bound.
    fn size_hint(&self) -> (r: (usize, Option<usize>))
        ensures
            r.0 == self.lower_estimate(),
            r.1 == self.upper_estimate(),
            r.0 <= self.model().len(),
            r.1 matches Some(u) ==> self.model().len() <= u,
    ;
}

/// A producer that can also hand values out from the back.
pub trait DoubleEndedProducer: Producer {
    /// Yields the back value, or `None` once no value is left.
    fn next_back(&mut self) -> (r: Option<Self::Item>)
        requires
            old(self).ready(),
        ensures
            old(self).model().len() == 0 ==> r is None && final(self).model()
                == old(self).model(),
            old(self).model().len() > 0 ==> r == Some(old(self).model().last())
                && final(self).model() == old(self).model().drop_last()
                && final(self).ready(),
    ;
}

/// A producer backed by a vector, yielding its elements in order and
/// reporting exact size estimates. It is always ready: once empty it
/// keeps answering `None`.
pub struct VecProducer<T> {
    items: Vec<T>,
}

impl<T> VecProducer<T> {
    /// Wraps a vector; its elements are yielded front first.
    pub fn new(items: Vec<T>) -> (r: Self)
        ensures
            r.model() == items@,
            r.ready(),
    {
        VecProducer { items }
    }
}

impl<T> Default for VecProducer<T> {
    /// An empty producer.
    fn default() -> (r: Self)
        ensures
            r.model() == Seq::<T>::empty(),
            r.ready(),
    {
        let r = VecProducer { items: Vec::new() };
        proof {
            assert(r.model() =~= Seq::<T>::empty());
        }
        r
    }
}

impl<T> Producer for VecProducer<T> {
    type Item = T;

    closed spec fn model(&self) -> Seq<T> {
        self.items@
    }

    closed spec fn ready(&self) -> bool {
        true
    }

    closed spec fn lower_estimate(&self) -> usize {
        self.items.len()
    }

    closed spec fn upper_estimate(&self) -> Option<usize> {
        Some(self.items.len())
    }

    fn next(&mut self) -> (r: Option<T>) {
        if self.items.len() > 0 {
            let item = self.items.remove(0);
            proof {
                assert(self.items@ =~= old(self).items@.drop_first());
            }
            Some(item)
        } else {
            None
        }
    }

    fn size_hint(&self) -> (r: (usize, Option<usize>)) {
        let n = self.items.len();
        (n, Some(n))
    }
}

/// A vector-backed producer is exact: in every state it is ready, and
/// both of its size estimates equal the number of values it has left.
pub proof fn lemma_vec_producer_exact<T>(p: VecProducer<T>)
    ensures
        p.ready(),
        p.lower_estimate() == p.model().len(),
        p.upper_estimate() == Some(p.lower_estimate()),
{
}

impl<T> DoubleEndedProducer for VecProducer<T> {
    fn next_back(&mut self) -> (r: Option<T>) {
        let item = self.items.pop();
        proof {
            if old(self).items@.len() > 0 {
                assert(self.items@ =~= old(self).items@.drop_last());
            }
        }
        item
    }
}

} // verus!
