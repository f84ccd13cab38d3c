//! The owning erased handle.

use crate::pointee::{PointerLike, Pointee};
use crate::repr::PtrRepr;
use core::marker::PhantomData;
use vstd::prelude::*;

verus! {

/// An owning handle on one value behind the interface `Dyn`: the bits of the
/// value's handle and the interface's descriptor, side by side.
pub struct DynPtr<Dyn: Pointee> {
    repr: PtrRepr,
    meta: Dyn::Metadata,
    interface: PhantomData<Dyn>,
}

/// The handle under its short name.
pub type Dyn<Trait> = DynPtr<Trait>;

impl<Dyn: Pointee> View for DynPtr<Dyn> {
    type V = Dyn;

    /// The value that the handle owns.
    open spec fn view(&self) -> Dyn {
        Dyn::assemble(self.parts().0, self.parts().1)
    }
}

impl<Dyn: Pointee> DynPtr<Dyn> {
    /// The stored pair.
    pub closed spec fn parts(&self) -> (PtrRepr, Dyn::Metadata) {
        (self.repr, self.meta)
    }

    /// The stored pair denotes a live value.
    pub open spec fn wf(&self) -> bool {
        Dyn::live(self.parts().0, self.parts().1)
    }

    /// Erases an eligible handle.
    pub fn new<T>(val: T) -> (handle: Self) where T: PointerLike<Dyn>
        ensures
            handle.wf(),
            handle@ == val.coerced(),
            handle.parts().1 == val.coerced().metadata(),
    {
        Self::from_parts(val.meta_repr())
    }

    /// Wraps a pair that the caller knows to denote a live value which nothing
    /// else owns.
    pub fn from_parts(parts: (PtrRepr, Dyn::Metadata)) -> (handle: Self)
        requires
            Dyn::live(parts.0, parts.1),
        ensures
            handle.wf(),
            handle.parts() == parts,
    {
        DynPtr { repr: parts.0, meta: parts.1, interface: PhantomData }
    }

    /// The shared fat reference: the place of the stored bits, and the
    /// descriptor.
    pub fn const_ptr(&self) -> (fat: (&PtrRepr, Dyn::Metadata))
        ensures
            (*fat.0, fat.1) == self.parts(),
    {
        (&self.repr, self.meta)
    }

    /// The exclusive fat reference: the place of the stored bits, and the
    /// descriptor. What is written to the place is what the handle holds
    /// afterwards; the descriptor stays.
    pub fn mut_ptr(&mut self) -> (fat: (&mut PtrRepr, Dyn::Metadata))
        ensures
            (*fat.0, fat.1) == old(self).parts(),
            final(self).parts() == (*final(fat.0), fat.1),
    {
        (&mut self.repr, self.meta)
    }

    /// Borrows the owned value. The handle stays as it is.
    pub fn deref(&self) -> (value: Dyn)
        requires
            self.wf(),
        ensures
            value == self@,
            value.metadata() == self.parts().1,
    {
        let fat = self.const_ptr();
        Dyn::from_raw_parts(*fat.0, fat.1)
    }

    /// Ends an exclusive borrow: writes back, through the exclusive fat
    /// reference, a value that was borrowed with `deref` and then changed
    /// under the same descriptor.
    pub fn deref_mut(&mut self, value: Dyn)
        requires
            value.metadata() == old(self).parts().1,
        ensures
            final(self).wf(),
            final(self)@ == value,
            final(self).parts().1 == old(self).parts().1,
    {
        let parts = value.to_raw_parts();
        let fat = self.mut_ptr();
        *fat.0 = parts.0;
    }

    /// Destroys the owned value through the interface, once, and gives the
    /// handle up: the ledger records one destruction, that of the owned value.
    pub fn drop(self, ledger: &mut Dyn::Ledger)
        requires
            self.wf(),
        ensures
            *final(ledger) == self@.released(*old(ledger)),
    {
        let mut this = self;
        let fat = this.mut_ptr();
        Dyn::drop_in_place(*fat.0, fat.1, ledger);
    }
}

/// Round trip: a handle that holds the pair into which a value was taken
/// apart lends that very value, under the descriptor it was taken apart with.
pub proof fn lends_what_was_erased<Dyn: Pointee>(
    handle: DynPtr<Dyn>,
    value: Dyn,
    parts: (PtrRepr, Dyn::Metadata),
)
    requires
        Dyn::assemble(parts.0, parts.1) == value,
        handle.parts() == parts,
    ensures
        handle@ == value,
        handle.parts().1 == parts.1,
{
}


/// A handle is its pair and nothing more: two handles that store the same
/// bits under the same descriptor are the same handle.
pub proof fn handle_is_its_pair<Dyn: Pointee>(left: DynPtr<Dyn>, right: DynPtr<Dyn>)
    requires
        left.parts() == right.parts(),
    ensures
        left == right,
{
}

} // verus!
