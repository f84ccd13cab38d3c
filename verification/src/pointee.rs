//! What an interface, and a handle kind that can be seen through it, provide.

use crate::handle::DynPtr;
use crate::repr::{same_ptr_spec, PtrRepr};
use vstd::prelude::*;

verus! {

/// An interface through which erased values are used. A value of the
/// implementing type is one of the interface's handle kinds, seen through the
/// interface; it can be taken apart into the bits of the handle and the
/// interface's dispatch descriptor, and put together again from the two.
pub trait Pointee: Sized {
    /// The dispatch descriptor: what says how the bits are to be read.
    type Metadata: Copy;

    /// The record of what the interface's values hold on to: destruction
    /// releases into it.
    type Ledger;

    /// The pair denotes a value that is still owned and not yet destroyed.
    spec fn live(repr: PtrRepr, meta: Self::Metadata) -> bool;

    /// The value that a live pair denotes.
    spec fn assemble(repr: PtrRepr, meta: Self::Metadata) -> Self;

    /// The descriptor under which this value is dispatched.
    spec fn metadata(&self) -> Self::Metadata;

    /// The ledger after this value has been destroyed.
    spec fn released(self, ledger: Self::Ledger) -> Self::Ledger;

    /// Reads a live pair as the value it denotes. The pair stays the owner:
    /// what is returned is a way to use the value, and dropping it releases
    /// nothing.
    fn from_raw_parts(repr: PtrRepr, meta: Self::Metadata) -> (value: Self)
        requires
            Self::live(repr, meta),
        ensures
            value == Self::assemble(repr, meta),
            value.metadata() == meta,
    ;

    /// Takes the value apart. Ownership goes over to the pair; no destructor
    /// runs.
    fn to_raw_parts(self) -> (parts: (PtrRepr, Self::Metadata))
        ensures
            Self::live(parts.0, parts.1),
            Self::assemble(parts.0, parts.1) == self,
            parts.1 == self.metadata(),
    ;

    /// Destroys the value that a live pair denotes and releases what it
    /// holds. Afterwards the pair must not be read again.
    fn drop_in_place(repr: PtrRepr, meta: Self::Metadata, ledger: &mut Self::Ledger)
        requires
            Self::live(repr, meta),
        ensures
            *final(ledger) == Self::assemble(repr, meta).released(*old(ledger)),
    ;
}

/// A handle kind that can be seen through the interface `Dyn`.
pub trait Unsize<Dyn: Pointee>: Sized {
    /// The handle as the interface sees it.
    spec fn coerced(self) -> Dyn;

    /// Views the handle through the interface.
    fn coerce(self) -> (value: Dyn)
        ensures
            value == self.coerced(),
    ;
}

/// Takes an owning handle apart into its bits and the descriptor under which
/// `Dyn` dispatches it. The handle must be laid out like the representation
/// unit; ownership goes over to the pair that is returned.
pub fn faith_metadata<Ptr, Dyn: Pointee>(val: Ptr) -> (parts: (PtrRepr, Dyn::Metadata)) where
    Ptr: Unsize<Dyn>,

    requires
        same_ptr_spec::<Ptr>(),
    ensures
        Dyn::live(parts.0, parts.1),
        Dyn::assemble(parts.0, parts.1) == val.coerced(),
        parts.1 == val.coerced().metadata(),
{
    val.coerce().to_raw_parts()
}

/// An owning handle kind that is eligible for erasure behind `Dyn`: one that
/// can be seen through `Dyn` and is proved to be laid out like the
/// representation unit.
pub trait PointerLike<Dyn: Pointee>: Unsize<Dyn> {
    /// The proof of eligibility. A kind of another size or alignment has
    /// none, so it cannot be given this trait.
    proof fn same_ptr()
        ensures
            same_ptr_spec::<Self>(),
    ;

    /// Takes the handle apart into its bits and its descriptor. For a kind
    /// that says nothing else, the proof of eligibility is all it takes.
    fn meta_repr(self) -> (parts: (PtrRepr, Dyn::Metadata))
        ensures
            Dyn::live(parts.0, parts.1),
            Dyn::assemble(parts.0, parts.1) == self.coerced(),
            parts.1 == self.coerced().metadata(),
    {
        proof {
            Self::same_ptr();
        }
        faith_metadata::<Self, Dyn>(self)
    }

    /// Erases the handle: takes it apart and wraps the pair.
    fn do_dyn(self) -> (handle: DynPtr<Dyn>)
        ensures
            handle.wf(),
            handle@ == self.coerced(),
            handle.parts().1 == self.coerced().metadata(),
    {
        DynPtr::from_parts(self.meta_repr())
    }
}

/// Every kind that can be erased has the size and the alignment of the
/// representation unit.
pub proof fn erasable_is_same_ptr<Ptr, Dyn: Pointee>() where Ptr: PointerLike<Dyn>
    ensures
        same_ptr_spec::<Ptr>(),
{
    Ptr::same_ptr();
}

} // verus!
