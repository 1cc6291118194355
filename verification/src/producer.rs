//! The sequence-producer contract that `Peepable` wraps, and a basic
//! vector-backed producer.

use vstd::prelude::*;

verus! {

/// A source of items, yielded one at a time, front to back.
///
/// `remaining` is the abstract view: the items the producer has yet to
/// yield, in order. `pull` consumes the head of that sequence, or signals
/// exhaustion with `None` once nothing remains. A producer that has
/// signalled exhaustion keeps signalling it: its remaining sequence is
/// empty and stays empty.
pub trait Producer: Sized {
    type Item;

    /// The items this producer has yet to yield, in order.
    spec fn remaining(&self) -> Seq<Self::Item>;

    /// Yields the next item, or `None` once the producer is exhausted.
    fn pull(&mut self) -> (r: Option<Self::Item>)
        ensures
            old(self).remaining().len() == 0 ==> {
                &&& r is None
                &&& final(self).remaining() == old(self).remaining()
            },
            old(self).remaining().len() > 0 ==> {
                &&& r == Some(old(self).remaining()[0])
                &&& final(self).remaining() == old(self).remaining().skip(1)
            },
    ;
}

/// A producer that yields the elements of a vector, front to back.
pub struct VecProducer<T> {
    items: Vec<T>,
}

impl<T> VecProducer<T> {
    /// Takes ownership of `items`; the producer will yield them in order.
    pub fn new(items: Vec<T>) -> (p: VecProducer<T>)
        ensures
            p.remaining() == items@,
    {
        VecProducer { items }
    }
}

impl<T> Producer for VecProducer<T> {
    type Item = T;

    closed spec fn remaining(&self) -> Seq<T> {
        self.items@
    }

    fn pull(&mut self) -> (r: Option<T>) {
        if self.items.len() == 0 {
            None
        } else {
            let x = self.items.remove(0);
            proof {
                assert(self.items@ =~= old(self).items@.skip(1));
            }
            Some(x)
        }
    }
}

} // verus!
