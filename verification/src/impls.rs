//! Forwarding of the well-known consumer interfaces: when the interface behind
//! a handle can be resumed or produces a sequence, so can the handle, and it
//! adds nothing of its own.

use crate::handle::DynPtr;
use crate::pointee::Pointee;
use vstd::prelude::*;

verus! {

/// What one resumption of a computation gives.
pub enum Poll<T> {
    Ready(T),
    Pending,
}

/// A computation that is resumed until it is ready. All of its state is the
/// value itself, so it has no place of its own that moving its owner could
/// take from under it: it is fixed wherever it is held.
pub trait Resumable: Pointee {
    type Output;

    /// What the next resumption gives, and the computation after it.
    spec fn resumed(&self) -> (Poll<Self::Output>, Self);

    /// Resumes the computation.
    fn poll(&mut self) -> (step: Poll<Self::Output>)
        ensures
            (step, *final(self)) == old(self).resumed(),
            final(self).metadata() == old(self).metadata(),
    ;
}

/// One step from the front: where something remained, `item` is the first
/// of it and the rest remains; where nothing did, there is no item, and after
/// a fused producer's step nothing remains either.
pub open spec fn front_step<T>(before: Seq<T>, after: Seq<T>, fused: bool, item: Option<T>) -> bool {
    &&& before.len() > 0 ==> item == Some(before.first()) && after == before.drop_first()
    &&& before.len() == 0 ==> item is None
    &&& before.len() == 0 && fused ==> after.len() == 0
}

/// A skip of `n` items from the front: where more than `n` remained, `item`
/// is the one at `n` and what followed it remains; where not, there is no
/// item, and after a fused producer's skip nothing remains.
pub open spec fn front_skip<T>(
    before: Seq<T>,
    after: Seq<T>,
    fused: bool,
    n: usize,
    item: Option<T>,
) -> bool {
    &&& n < before.len() ==> item == Some(before[n as int]) && after == before.skip(n + 1)
    &&& n >= before.len() ==> item is None
    &&& n >= before.len() && fused ==> after.len() == 0
}

/// One step from the back: as `front_step`, with the last item in place of
/// the first.
pub open spec fn back_step<T>(before: Seq<T>, after: Seq<T>, fused: bool, item: Option<T>) -> bool {
    &&& before.len() > 0 ==> item == Some(before.last()) && after == before.drop_last()
    &&& before.len() == 0 ==> item is None
    &&& before.len() == 0 && fused ==> after.len() == 0
}

/// A skip of `n` items from the back: as `front_skip`, counted from the end.
pub open spec fn back_skip<T>(
    before: Seq<T>,
    after: Seq<T>,
    fused: bool,
    n: usize,
    item: Option<T>,
) -> bool {
    &&& n < before.len() ==> item == Some(before[before.len() - 1 - n]) && after == before.take(
        before.len() - 1 - n,
    )
    &&& n >= before.len() ==> item is None
    &&& n >= before.len() && fused ==> after.len() == 0
}

/// Exhaustion is permanent: once a fused producer has given no item, every
/// later step gives none, and nothing remains.
pub proof fn end_stays_the_end<T>(
    first: Seq<T>,
    second: Seq<T>,
    third: Seq<T>,
    ended: Option<T>,
    later: Option<T>,
)
    requires
        front_step(first, second, true, ended),
        ended is None,
        front_step(second, third, true, later),
    ensures
        later is None,
        third.len() == 0,
{
}

/// A producer of a finite sequence, one item at a time from the front.
pub trait Sequence: Pointee {
    type Item;

    /// The items still to come, in order.
    spec fn remaining(&self) -> Seq<Self::Item>;

    /// The bounds that `size_hint` reports.
    spec fn hint(&self) -> (usize, Option<usize>);

    /// Exhaustion is permanent: once nothing remains, nothing ever does.
    spec fn fused() -> bool;

    /// Produces the next item, if any remains.
    fn next(&mut self) -> (item: Option<Self::Item>)
        ensures
            final(self).metadata() == old(self).metadata(),
            front_step(old(self).remaining(), final(self).remaining(), Self::fused(), item),
    ;

    /// Bounds on the number of items that remain.
    fn size_hint(&self) -> (bounds: (usize, Option<usize>))
        ensures
            bounds == self.hint(),
    ;

    /// Skips `n` items and produces the one after them. Where too few remain,
    /// there is no item.
    fn nth(&mut self, n: usize) -> (item: Option<Self::Item>)
        ensures
            final(self).metadata() == old(self).metadata(),
            front_skip(
                old(self).remaining(),
                final(self).remaining(),
                Self::fused(),
                n,
                item,
            ),
    ;
}

/// A producer that also gives its items from the back.
pub trait DoubleEndedSequence: Sequence {
    /// Produces the last item that remains, if any.
    fn next_back(&mut self) -> (item: Option<Self::Item>)
        ensures
            final(self).metadata() == old(self).metadata(),
            back_step(old(self).remaining(), final(self).remaining(), Self::fused(), item),
    ;

    /// Skips `n` items from the back and produces the one before them. Where
    /// too few remain, there is no item.
    fn nth_back(&mut self, n: usize) -> (item: Option<Self::Item>)
        ensures
            final(self).metadata() == old(self).metadata(),
            back_skip(
                old(self).remaining(),
                final(self).remaining(),
                Self::fused(),
                n,
                item,
            ),
    ;
}

/// A producer that knows how many items remain.
pub trait ExactSizeSequence: Sequence {
    /// The number of items that remain.
    fn len(&self) -> (count: usize)
        ensures
            count == self.remaining().len(),
    ;

    /// Nothing remains.
    fn is_empty(&self) -> (empty: bool)
        ensures
            empty == (self.remaining().len() == 0),
    ;
}

impl<F: Resumable> DynPtr<F> {
    /// Resumes the owned computation in its place.
    pub fn poll(&mut self) -> (step: Poll<F::Output>)
        requires
            old(self).wf(),
        ensures
            final(self).wf(),
            final(self).parts().1 == old(self).parts().1,
            (step, final(self)@) == old(self)@.resumed(),
    {
        let mut inner = self.deref();
        let step = inner.poll();
        self.deref_mut(inner);
        step
    }
}

impl<I: Sequence> DynPtr<I> {
    /// Produces the owned producer's next item.
    pub fn next(&mut self) -> (item: Option<I::Item>)
        requires
            old(self).wf(),
        ensures
            final(self).wf(),
            final(self).parts().1 == old(self).parts().1,
            front_step(old(self)@.remaining(), final(self)@.remaining(), I::fused(), item),
    {
        let mut inner = self.deref();
        let item = inner.next();
        self.deref_mut(inner);
        item
    }

    /// The owned producer's bounds.
    pub fn size_hint(&self) -> (bounds: (usize, Option<usize>))
        requires
            self.wf(),
        ensures
            bounds == self@.hint(),
    {
        self.deref().size_hint()
    }

    /// Consumes the handle and gives the last item that remained: the
    /// producer is driven from the front until it is exhausted, and only the
    /// item produced last is kept. The owned value, as the exhausted producer
    /// that it then is, is destroyed into the ledger.
    pub fn last(self, ledger: &mut I::Ledger) -> (item: Option<I::Item>)
        requires
            self.wf(),
        ensures
            self@.remaining().len() > 0 ==> item == Some(self@.remaining().last()),
            self@.remaining().len() == 0 ==> item is None,
            exists|end: I|
                {
                    &&& I::fused() ==> end.remaining().len() == 0
                    &&& *final(ledger) == #[trigger] end.released(*old(ledger))
                },
    {
        let ghost all = self@.remaining();
        let ghost mut taken: int = 0;
        let mut this = self;
        let mut kept: Option<I::Item> = None;
        loop
            invariant_except_break
                this@.remaining() == all.skip(taken),
            invariant
                this.wf(),
                0 <= taken <= all.len(),
                taken == 0 ==> kept is None,
                taken > 0 ==> kept == Some(all[taken - 1]),
            ensures
                taken == all.len(),
                I::fused() ==> this@.remaining().len() == 0,
            decreases all.len() - taken,
        {
            match this.next() {
                Some(item) => {
                    proof {
                        assert(all.skip(taken).drop_first() == all.skip(taken + 1));
                        taken = taken + 1;
                    }
                    kept = Some(item);
                },
                None => {
                    break ;
                },
            }
        }
        this.drop(ledger);
        kept
    }

    /// Skips `n` of the owned producer's items and produces the one after
    /// them.
    pub fn nth(&mut self, n: usize) -> (item: Option<I::Item>)
        requires
            old(self).wf(),
        ensures
            final(self).wf(),
            final(self).parts().1 == old(self).parts().1,
            front_skip(
                old(self)@.remaining(),
                final(self)@.remaining(),
                I::fused(),
                n,
                item,
            ),
    {
        let mut inner = self.deref();
        let item = inner.nth(n);
        self.deref_mut(inner);
        item
    }
}

impl<I: DoubleEndedSequence> DynPtr<I> {
    /// Produces the owned producer's last remaining item.
    pub fn next_back(&mut self) -> (item: Option<I::Item>)
        requires
            old(self).wf(),
        ensures
            final(self).wf(),
            final(self).parts().1 == old(self).parts().1,
            back_step(old(self)@.remaining(), final(self)@.remaining(), I::fused(), item),
    {
        let mut inner = self.deref();
        let item = inner.next_back();
        self.deref_mut(inner);
        item
    }

    /// Skips `n` of the owned producer's items from the back and produces the
    /// one before them.
    pub fn nth_back(&mut self, n: usize) -> (item: Option<I::Item>)
        requires
            old(self).wf(),
        ensures
            final(self).wf(),
            final(self).parts().1 == old(self).parts().1,
            back_skip(
                old(self)@.remaining(),
                final(self)@.remaining(),
                I::fused(),
                n,
                item,
            ),
    {
        let mut inner = self.deref();
        let item = inner.nth_back(n);
        self.deref_mut(inner);
        item
    }
}

impl<I: ExactSizeSequence> DynPtr<I> {
    /// The number of items that the owned producer has left.
    pub fn len(&self) -> (count: usize)
        requires
            self.wf(),
        ensures
            count == self@.remaining().len(),
    {
        self.deref().len()
    }

    /// The owned producer has nothing left.
    pub fn is_empty(&self) -> (empty: bool)
        requires
            self.wf(),
        ensures
            empty == (self@.remaining().len() == 0),
    {
        self.deref().is_empty()
    }
}

} // verus!
