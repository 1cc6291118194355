//! An eager one-item lookahead over a sequence producer.
//!
//! `Peepable` wraps a [`Producer`] and buffers its next item at
//! construction time and after every advance. Because the lookahead slot is
//! always already filled, inspecting the next item (`peep`) is a pure read
//! that needs only shared access; only advancing (`next`) needs exclusive
//! access.

use vstd::prelude::*;

pub mod producer;

use producer::Producer;

verus! {

/// The head of an upcoming sequence: the item a peek observes, or `None`
/// when the sequence is exhausted.
pub open spec fn first_of<T>(s: Seq<T>) -> Option<T> {
    if s.len() > 0 {
        Some(s[0])
    } else {
        None
    }
}

/// The upcoming sequence after one advance: the head is consumed, and an
/// exhausted sequence stays exhausted.
pub open spec fn rest_of<T>(s: Seq<T>) -> Seq<T> {
    if s.len() > 0 {
        s.skip(1)
    } else {
        s
    }
}

/// The upcoming sequence after `n` advances.
pub open spec fn after_advances<T>(s: Seq<T>, n: nat) -> Seq<T>
    decreases n,
{
    if n == 0 {
        s
    } else {
        rest_of(after_advances(s, (n - 1) as nat))
    }
}

/// A wrapper over a sequence producer that holds the producer's next item
/// in a buffered slot, filled eagerly, so the next item can be inspected
/// through a shared reference.
pub struct Peepable<P: Producer> {
    /// The underlying producer.
    iter: P,

    /// The buffered next item. Filled at construction and refilled on every
    /// advance; empty exactly when the producer is exhausted.
    next: Option<P::Item>,
}

impl<P: Producer> Peepable<P> {
    /// The buffered slot is empty only once the producer has nothing left:
    /// the invariant every constructor establishes and every advance keeps.
    pub closed spec fn wf(&self) -> bool {
        self.next is None ==> self.iter.remaining().len() == 0
    }

    /// The items this wrapper has yet to yield: the buffered item, if any,
    /// followed by whatever the producer still holds.
    pub closed spec fn upcoming(&self) -> Seq<P::Item> {
        match self.next {
            Some(x) => seq![x] + self.iter.remaining(),
            None => Seq::empty(),
        }
    }

    /// Wraps `source`, immediately pulling one item into the buffered slot.
    /// The wrapper goes on to yield exactly the items `source` held.
    pub fn new(source: P) -> (p: Peepable<P>)
        ensures
            p.wf(),
            p.upcoming() =~= source.remaining(),
    {
        let mut iter = source;
        let next = iter.pull();
        Peepable { iter, next }
    }

    /// Shows the next item without consuming it. Needs only shared access:
    /// the result is a read of the buffered slot, determined by the
    /// wrapper's state alone, so repeated peeps observe the same item.
    pub fn peep(&self) -> (r: Option<&P::Item>)
        ensures
            r is Some <==> self.upcoming().len() > 0,
            r matches Some(x) ==> Some(*x) == first_of(self.upcoming()),
    {
        self.next.as_ref()
    }

    /// Consumes and returns the buffered item, refilling the slot from the
    /// producer, or returns `None` once the wrapper is exhausted.
    pub fn next(&mut self) -> (r: Option<P::Item>)
        requires
            old(self).wf(),
        ensures
            final(self).wf(),
            r == first_of(old(self).upcoming()),
            final(self).upcoming() =~= rest_of(old(self).upcoming()),
    {
        let mut pulled = self.iter.pull();
        core::mem::swap(&mut pulled, &mut self.next);
        pulled
    }

    /// Drains the wrapper, returning every item it would still yield, in
    /// order. This is the bridge to ordinary sequence processing: anything
    /// computed from the returned vector is computed from exactly the items
    /// the wrapped producer held.
    pub fn into_vec(self) -> (v: Vec<P::Item>)
        requires
            self.wf(),
        ensures
            v@ =~= self.upcoming(),
    {
        let ghost orig = self;
        let mut p = self;
        let mut v: Vec<P::Item> = Vec::new();
        loop
            invariant
                p.wf(),
                v@ + p.upcoming() =~= orig.upcoming(),
            ensures
                v@ =~= orig.upcoming(),
            decreases p.upcoming().len(),
        {
            match p.next() {
                Some(x) => v.push(x),
                None => {
                    proof {
                        assert(v@ =~= orig.upcoming());
                    }
                    break;
                },
            }
        }
        v
    }
}

/// Law: lookahead is eager. A wrapper freshly built over a producer that
/// still held at least one item already buffers that item: the very first
/// peek observes it, before any advance has been called.
pub proof fn lemma_eager_priming<P: Producer>(p: Peepable<P>, produced: Seq<P::Item>)
    requires
        p.upcoming() =~= produced,
        produced.len() > 0,
    ensures
        first_of(p.upcoming()) == Some(produced[0]),
{
}

/// Law: peeking is idempotent. Any two peeks on the same wrapper state,
/// with no advance in between, observe the same result: each is pinned to
/// the head of the same upcoming sequence.
pub proof fn lemma_peep_idempotent<P: Producer>(
    p: &Peepable<P>,
    r1: Option<P::Item>,
    r2: Option<P::Item>,
)
    requires
        r1 == first_of(p.upcoming()),
        r2 == first_of(p.upcoming()),
    ensures
        r1 == r2,
{
}

/// Law: advance agrees with peek. The item a peek shows on some wrapper
/// state is exactly the item an advance from that same state returns: both
/// are the head of the state's upcoming sequence.
pub proof fn lemma_advance_returns_peeped<P: Producer>(
    p: &Peepable<P>,
    peeked: Option<P::Item>,
    advanced: Option<P::Item>,
)
    requires
        peeked == first_of(p.upcoming()),
        advanced == first_of(p.upcoming()),
    ensures
        advanced == peeked,
{
}

/// Law: advancing shifts the lookahead. After an advance that returned an
/// item, a peek observes the subsequent item of the original upcoming
/// sequence, or nothing when that item was the last.
pub proof fn lemma_shift<P: Producer>(pre: &Peepable<P>, post: &Peepable<P>, x: P::Item)
    requires
        first_of(pre.upcoming()) == Some(x),
        post.upcoming() =~= rest_of(pre.upcoming()),
    ensures
        pre.upcoming().len() > 1 ==> first_of(post.upcoming()) == Some(pre.upcoming()[1]),
        pre.upcoming().len() == 1 ==> first_of(post.upcoming()) is None,
{
}

/// Law: exhaustion is terminal. Once the upcoming sequence is empty, it
/// stays empty through any number of further advances, and every peek along
/// the way observes nothing.
pub proof fn lemma_exhaustion_terminal<T>(s: Seq<T>, n: nat)
    requires
        s.len() == 0,
    ensures
        after_advances(s, n).len() == 0,
        first_of(after_advances(s, n)) is None,
    decreases n,
{
    if n > 0 {
        lemma_exhaustion_terminal::<T>(s, (n - 1) as nat);
    }
}

/// Law: the wrapper is sequence-transparent. Draining a freshly built
/// wrapper yields exactly the items its producer held, so any operation on
/// the drained sequence agrees with the same operation applied to the
/// producer's own items.
pub proof fn lemma_transparent<P: Producer>(
    p: &Peepable<P>,
    produced: Seq<P::Item>,
    drained: Seq<P::Item>,
)
    requires
        p.upcoming() =~= produced,
        drained =~= p.upcoming(),
    ensures
        drained == produced,
{
}

} // verus!
