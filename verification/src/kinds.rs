//! The handle kind that the library itself knows, the bare word, and two
//! small interfaces whose values a bare word can hold.

use crate::impls::{DoubleEndedSequence, ExactSizeSequence, Poll, Resumable, Sequence};
use crate::pointee::{faith_metadata, PointerLike, Pointee, Unsize};
use crate::repr::PtrRepr;
use vstd::prelude::*;

verus! {

/// A bare word is eligible behind every interface that it can be seen through.
impl<Dyn: Pointee> PointerLike<Dyn> for usize where usize: Unsize<Dyn> {
    proof fn same_ptr() {
    }

    fn meta_repr(self) -> (parts: (PtrRepr, Dyn::Metadata)) {
        faith_metadata::<usize, Dyn>(self)
    }
}

/// The descriptor of an interface with a single kind: it says nothing.
#[derive(Clone, Copy, Debug)]
pub struct Thin;

/// The numbers from `lo` up to, not including, `hi`, produced from either
/// end. A span fits in one word: `lo` in the low sixteen bits, `hi` in the
/// sixteen above them.
#[derive(Clone, Copy, Debug)]
pub struct Span {
    pub lo: u16,
    pub hi: u16,
}

impl Span {
    /// How many numbers the span holds.
    pub open spec fn count(&self) -> nat {
        if self.lo < self.hi {
            (self.hi - self.lo) as nat
        } else {
            0
        }
    }

    /// The span that a word holds.
    pub open spec fn unpack_spec(word: usize) -> Span {
        Span { lo: (word % 0x1_0000) as u16, hi: ((word / 0x1_0000) % 0x1_0000) as u16 }
    }

    /// The word that holds the span.
    pub fn pack(self) -> (word: usize)
        ensures
            word == self.lo + self.hi * 0x1_0000,
            Self::unpack_spec(word) == self,
    {
        self.lo as usize + (self.hi as usize) * 0x1_0000
    }

    /// The span that a word holds.
    pub fn unpack(word: usize) -> (span: Span)
        ensures
            span == Self::unpack_spec(word),
    {
        Span { lo: (word % 0x1_0000) as u16, hi: ((word / 0x1_0000) % 0x1_0000) as u16 }
    }

    fn left(&self) -> (count: usize)
        ensures
            count == self.count(),
    {
        if self.lo < self.hi {
            (self.hi - self.lo) as usize
        } else {
            0
        }
    }
}

impl Pointee for Span {
    type Metadata = Thin;

    type Ledger = ();

    open spec fn live(repr: PtrRepr, meta: Thin) -> bool {
        true
    }

    open spec fn assemble(repr: PtrRepr, meta: Thin) -> Span {
        Span::unpack_spec(repr@)
    }

    open spec fn metadata(&self) -> Thin {
        Thin
    }

    open spec fn released(self, ledger: ()) -> () {
        ledger
    }

    fn from_raw_parts(repr: PtrRepr, meta: Thin) -> (value: Span) {
        Span::unpack(repr.word())
    }

    fn to_raw_parts(self) -> (parts: (PtrRepr, Thin)) {
        (PtrRepr::from_word(self.pack()), Thin)
    }

    /// A span holds nothing that has to be released.
    fn drop_in_place(repr: PtrRepr, meta: Thin, ledger: &mut ()) {
    }
}

impl Unsize<Span> for usize {
    open spec fn coerced(self) -> Span {
        Span::unpack_spec(self)
    }

    fn coerce(self) -> (value: Span) {
        Span::unpack(self)
    }
}

impl Sequence for Span {
    type Item = u16;

    open spec fn remaining(&self) -> Seq<u16> {
        Seq::new(self.count(), |i: int| (self.lo + i) as u16)
    }

    open spec fn hint(&self) -> (usize, Option<usize>) {
        (self.count() as usize, Some(self.count() as usize))
    }

    open spec fn fused() -> bool {
        true
    }

    fn next(&mut self) -> (item: Option<u16>) {
        if self.lo < self.hi {
            let item: u16 = self.lo;
            self.lo = item + 1;
            assert(self.remaining() =~= old(self).remaining().drop_first());
            Some(item)
        } else {
            None
        }
    }

    fn size_hint(&self) -> (bounds: (usize, Option<usize>)) {
        let count: usize = self.left();
        (count, Some(count))
    }

    fn nth(&mut self, n: usize) -> (item: Option<u16>) {
        if n < self.left() {
            let item: u16 = self.lo + n as u16;
            self.lo = item + 1;
            assert(self.remaining() =~= old(self).remaining().skip(n + 1));
            Some(item)
        } else {
            self.lo = self.hi;
            None
        }
    }
}

impl DoubleEndedSequence for Span {
    fn next_back(&mut self) -> (item: Option<u16>) {
        if self.lo < self.hi {
            let item: u16 = self.hi - 1;
            self.hi = item;
            assert(self.remaining() =~= old(self).remaining().drop_last());
            Some(item)
        } else {
            None
        }
    }

    fn nth_back(&mut self, n: usize) -> (item: Option<u16>) {
        if n < self.left() {
            let item: u16 = self.hi - 1 - n as u16;
            self.hi = item;
            assert(self.remaining() =~= old(self).remaining().take(
                old(self).remaining().len() - 1 - n,
            ));
            Some(item)
        } else {
            self.hi = self.lo;
            None
        }
    }
}

impl ExactSizeSequence for Span {
    fn len(&self) -> (count: usize) {
        self.left()
    }

    fn is_empty(&self) -> (empty: bool) {
        self.left() == 0
    }
}

/// A computation that is ready after it has been resumed `left` times more.
/// It fits in one word: the count.
#[derive(Clone, Copy, Debug)]
pub struct Delay {
    pub left: usize,
}

impl Pointee for Delay {
    type Metadata = Thin;

    type Ledger = ();

    open spec fn live(repr: PtrRepr, meta: Thin) -> bool {
        true
    }

    open spec fn assemble(repr: PtrRepr, meta: Thin) -> Delay {
        Delay { left: repr@ }
    }

    open spec fn metadata(&self) -> Thin {
        Thin
    }

    open spec fn released(self, ledger: ()) -> () {
        ledger
    }

    fn from_raw_parts(repr: PtrRepr, meta: Thin) -> (value: Delay) {
        Delay { left: repr.word() }
    }

    fn to_raw_parts(self) -> (parts: (PtrRepr, Thin)) {
        (PtrRepr::from_word(self.left), Thin)
    }

    /// A delay holds nothing that has to be released.
    fn drop_in_place(repr: PtrRepr, meta: Thin, ledger: &mut ()) {
    }
}

impl Unsize<Delay> for usize {
    open spec fn coerced(self) -> Delay {
        Delay { left: self }
    }

    fn coerce(self) -> (value: Delay) {
        Delay { left: self }
    }
}

impl Resumable for Delay {
    type Output = ();

    open spec fn resumed(&self) -> (Poll<()>, Delay) {
        if self.left == 0 {
            (Poll::Ready(()), *self)
        } else {
            (Poll::Pending, Delay { left: (self.left - 1) as usize })
        }
    }

    fn poll(&mut self) -> (step: Poll<()>) {
        if self.left == 0 {
            Poll::Ready(())
        } else {
            self.left = self.left - 1;
            Poll::Pending
        }
    }
}

} // verus!
