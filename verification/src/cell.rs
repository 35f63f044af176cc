//! The garbage-collected cell behind every object handle.
//!
//! An [`ObjectCell`] is one allocation of a `gc_arena` arena. It is a pointer:
//! copies of it name the same allocation, and what the allocation holds can
//! change while the pointer stays the same. Contracts therefore never speak of
//! the contents of a cell, only of the cell itself and of the guards that the
//! arena's borrow discipline hands out.
use vstd::prelude::*;
use gc_arena::{GcCell, MutationContext, StaticCollect};
use std::cell::{BorrowError, BorrowMutError, Ref, RefMut};

verus! {

/// `gc_arena::MutationContext`, the token that an arena passes to the code it
/// runs: only its holder can allocate in the arena or write to a cell of it.
#[verifier::external_type_specification]
#[verifier::external_body]
pub struct ExMutationContext<'gc, 'context>(MutationContext<'gc, 'context>);

/// `gc_arena::StaticCollect`, the wrapper under which a value that holds no
/// pointer into the arena is stored in it.
#[verifier::external_type_specification]
#[verifier::external_body]
#[verifier::reject_recursive_types(T)]
pub struct ExStaticCollect<T>(StaticCollect<T>);

/// `std::cell::Ref`, the guard of a shared borrow.
#[verifier::external_type_specification]
#[verifier::external_body]
#[verifier::reject_recursive_types(T)]
pub struct ExRef<'b, T: ?Sized>(Ref<'b, T>);

/// `std::cell::RefMut`, the guard of an exclusive borrow.
#[verifier::external_type_specification]
#[verifier::external_body]
#[verifier::reject_recursive_types(T)]
pub struct ExRefMut<'b, T: ?Sized + 'b>(RefMut<'b, T>);

/// `std::cell::BorrowError`, returned when a shared borrow is refused.
#[verifier::external_type_specification]
#[verifier::external_body]
pub struct ExBorrowError(BorrowError);

/// `std::cell::BorrowMutError`, returned when an exclusive borrow is refused.
#[verifier::external_type_specification]
#[verifier::external_body]
pub struct ExBorrowMutError(BorrowMutError);

/// A `gc_arena::GcCell` that holds a `T` free of pointers into the arena.
///
/// `GcCell` bounds its parameter by the `Collect` trait of its crate and so
/// cannot be declared to the verifier as it stands; it is held in this struct
/// instead. The struct is opaque: a value of it stands for the identity of
/// the allocation and for nothing else.
#[verifier::external_body]
#[verifier::reject_recursive_types(T)]
pub struct ObjectCell<'gc, T: 'static>(GcCell<'gc, StaticCollect<T>>);

impl<'gc, T: 'static> Clone for ObjectCell<'gc, T> {
    /// `GcCell` is `Copy`: the result is the same pointer once more.
    #[verifier::external_body]
    fn clone(&self) -> (copy: Self)
        ensures
            copy == *self,
    {
        ObjectCell(self.0)
    }
}

impl<'gc, T: 'static> Copy for ObjectCell<'gc, T> {}

impl<'gc, T: 'static> ObjectCell<'gc, T> {
    /// `GcCell::allocate`: a new allocation in the arena of `mc`, holding
    /// `value`. Nothing is claimed of the result: which allocation comes back
    /// is for the arena to choose.
    #[verifier::external_body]
    pub(crate) fn allocate(mc: MutationContext<'gc, '_>, value: T) -> (cell: Self) {
        ObjectCell(GcCell::allocate(mc, StaticCollect(value)))
    }

    /// `GcCell::ptr_eq`: compares the addresses of the two allocations. A cell
    /// is the identity of its allocation, so the result tells whether the two
    /// are the same cell.
    #[verifier::external_body]
    pub(crate) fn ptr_eq(this: Self, other: Self) -> (same: bool)
        ensures
            same == (this == other),
    {
        GcCell::ptr_eq(this.0, other.0)
    }

    /// `GcCell::try_read`: a shared guard, or the error of the inner
    /// `RefCell` while an exclusive guard is held. Which of the two comes
    /// back depends on the guards alive at the call, so nothing is claimed.
    #[verifier::external_body]
    pub(crate) fn try_read<'a>(
        &'a self,
    ) -> (outcome: Result<Ref<'a, StaticCollect<T>>, BorrowError>) {
        self.0.try_read()
    }

    /// `GcCell::try_write`: an exclusive guard, with the write barrier that
    /// `mc` allows, or the error of the inner `RefCell` while any guard is
    /// held. Nothing is claimed of which comes back.
    #[verifier::external_body]
    pub(crate) fn try_write<'a>(
        &'a self,
        mc: MutationContext<'gc, '_>,
    ) -> (outcome: Result<RefMut<'a, StaticCollect<T>>, BorrowMutError>) {
        self.0.try_write(mc)
    }
}

/// `Ref::deref`: the value that a shared guard gives access to, without its
/// wrapper.
#[verifier::external_body]
pub(crate) fn guarded<'r, 'a, T>(guard: &'r Ref<'a, StaticCollect<T>>) -> (value: &'r T) {
    &guard.0
}

} // verus!
