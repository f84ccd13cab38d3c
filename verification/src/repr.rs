//! The representation unit and the test that a handle kind is laid out like it.

use vstd::layout::{align_of, size_of};
use vstd::prelude::*;

verus! {

/// One machine word of opaque bits: either an address or a value that fits
/// in a word by itself. Its view is the word.
#[derive(Clone, Copy)]
pub struct PtrRepr {
    word: usize,
}

impl View for PtrRepr {
    type V = usize;

    closed spec fn view(&self) -> usize {
        self.word
    }
}

impl PtrRepr {
    /// Takes a word as the bits of a handle.
    pub fn from_word(word: usize) -> (repr: Self)
        ensures
            repr@ == word,
    {
        PtrRepr { word }
    }

    /// The bits, as a word.
    pub fn word(&self) -> (word: usize)
        ensures
            word == self@,
    {
        self.word
    }
}

/// A handle kind `Ptr` is laid out like the representation unit: it has the
/// size and the alignment of one machine word.
pub open spec fn same_ptr_spec<Ptr>() -> bool {
    &&& size_of::<Ptr>() == size_of::<usize>()
    &&& align_of::<Ptr>() == align_of::<usize>()
}

/// Decides [`same_ptr_spec`] for a handle kind.
pub fn same_ptr<Ptr>() -> (same: bool)
    ensures
        same == same_ptr_spec::<Ptr>(),
{
    core::mem::size_of::<Ptr>() == core::mem::size_of::<usize>() && core::mem::align_of::<Ptr>()
        == core::mem::align_of::<usize>()
}

/// A handle kind whose size or whose alignment is not that of the
/// representation unit is not laid out like it, so nothing can take it apart.
pub proof fn other_layout_is_rejected<Ptr>()
    requires
        size_of::<Ptr>() != size_of::<usize>() || align_of::<Ptr>() != align_of::<usize>(),
    ensures
        !same_ptr_spec::<Ptr>(),
{
}

} // verus!
