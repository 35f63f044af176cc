//! The object that keeps the event handlers of an event dispatcher.
//!
//! Script code never gets to use such an object: it can neither construct
//! from it, nor derive from it, nor turn it into a primitive value. Internal
//! code reaches the handlers through [`DispatchObject::as_dispatch`] and
//! [`DispatchObject::as_dispatch_mut`].
use vstd::prelude::*;
use gc_arena::{MutationContext, StaticCollect};
use std::cell::{Ref, RefMut};
use crate::cell::{guarded, ObjectCell};
use crate::error::Error;
use crate::events::{DispatchList, EventHandlerView};
use crate::object::{conflict_as_error, Activation, Object, TObject, Value};
use crate::script_object::{Class, Scope, ScriptObjectClass, ScriptObjectData};

verus! {

/// Text of the refusal to construct from a dispatch object.
pub open spec fn construct_refusal() -> Seq<char> {
    "cannot construct internal dispatch structures"@
}

/// Text of the refusal to derive from a dispatch object, or to take its
/// primitive value.
pub open spec fn subclass_refusal() -> Seq<char> {
    "Cannot subclass internal event dispatcher structures."@
}

/// What the cell of a dispatch object holds.
#[derive(Debug)]
pub struct DispatchObjectData {
    /// Base script object
    base: ScriptObjectData,
    /// The dispatch list this object holds.
    dispatch: DispatchList,
}

impl DispatchObjectData {
    /// No dispatch object is ever linked to a class.
    #[verifier::type_invariant]
    spec fn classless(self) -> bool {
        self.base.class_link() is NoClass
    }

    /// The class link of the base storage.
    pub closed spec fn class_link(self) -> ScriptObjectClass {
        self.base.class_link()
    }

    /// The handlers held, in the order in which they were attached.
    pub closed spec fn handlers(self) -> Seq<EventHandlerView> {
        self.dispatch@
    }

    /// Base storage without a class, and no handlers.
    pub fn new() -> (data: DispatchObjectData)
        ensures
            data.class_link() is NoClass,
            data.handlers() == Seq::<EventHandlerView>::empty(),
    {
        DispatchObjectData {
            base: ScriptObjectData::base_new(ScriptObjectClass::NoClass),
            dispatch: DispatchList::new(),
        }
    }

    /// The base storage.
    pub fn base(&self) -> (base: &ScriptObjectData)
        ensures
            base.class_link() == self.class_link(),
            base.class_link() is NoClass,
    {
        proof {
            use_type_invariant(self);
        }
        &self.base
    }

    /// The dispatch list.
    pub fn dispatch(&self) -> (list: &DispatchList)
        ensures
            list@ == self.handlers(),
    {
        &self.dispatch
    }
}

impl Clone for DispatchObjectData {
    fn clone(&self) -> (copy: Self)
        ensures
            copy.class_link() == self.class_link(),
            copy.handlers() == self.handlers(),
    {
        proof {
            use_type_invariant(self);
        }
        DispatchObjectData { base: self.base, dispatch: self.dispatch.clone() }
    }
}

/// `Ref::map`: narrows a shared guard on the whole payload to one on its
/// dispatch list.
#[verifier::external_body]
fn dispatch_of<'a>(
    guard: Ref<'a, StaticCollect<DispatchObjectData>>,
) -> (list: Ref<'a, DispatchList>) {
    Ref::map(guard, |data| &data.0.dispatch)
}

/// `RefMut::map`: narrows an exclusive guard on the whole payload to one on
/// its dispatch list.
#[verifier::external_body]
fn dispatch_of_mut<'a>(
    guard: RefMut<'a, StaticCollect<DispatchObjectData>>,
) -> (list: RefMut<'a, DispatchList>) {
    RefMut::map(guard, |data| &mut data.0.dispatch)
}

/// Handle to a dispatch object.
#[derive(Clone, Copy)]
pub struct DispatchObject<'gc> {
    cell: ObjectCell<'gc, DispatchObjectData>,
    made_with: Ghost<DispatchObjectData>,
}

impl<'gc> DispatchObject<'gc> {
    /// What the object was allocated with. What the object holds later is
    /// not a property of the handle.
    pub closed spec fn allocated_with(self) -> DispatchObjectData {
        self.made_with@
    }

    /// The allocation that the handle names.
    pub closed spec fn allocation(self) -> ObjectCell<'gc, DispatchObjectData> {
        self.cell
    }

    /// Whether the two handles name the same allocation.
    pub open spec fn same_object(self, other: Self) -> bool {
        self.allocation() == other.allocation()
    }

    /// Construct an empty dispatch list.
    pub fn empty_list(mc: MutationContext<'gc, '_>) -> (object: Object<'gc>)
        ensures
            object is DispatchObject,
            object->DispatchObject_0.allocated_with().class_link() is NoClass,
            object->DispatchObject_0.allocated_with().handlers()
                == Seq::<EventHandlerView>::empty(),
    {
        let data = DispatchObjectData::new();
        let ghost made_with = data;
        Object::DispatchObject(
            DispatchObject { cell: ObjectCell::allocate(mc, data), made_with: Ghost(made_with) },
        )
    }

    /// Whether the two handles name the same allocation.
    pub fn ptr_eq(this: DispatchObject<'gc>, other: DispatchObject<'gc>) -> (same: bool)
        ensures
            same == this.same_object(other),
    {
        ObjectCell::ptr_eq(this.cell, other.cell)
    }
}

impl<'gc> TObject<'gc> for DispatchObject<'gc> {
    open spec fn internal_only(&self) -> bool {
        true
    }

    open spec fn embeds_dispatch_list(&self) -> bool {
        true
    }

    /// Always refused.
    fn construct(
        &self,
        activation: &mut Activation<'_, 'gc>,
        _args: &[Value<'gc>],
    ) -> (made: Result<Object<'gc>, Error>)
        ensures
            made is Err,
            made->Err_0.is_unsupported(construct_refusal()),
            *final(activation) == *old(activation),
    {
        Err(Error::unsupported("cannot construct internal dispatch structures"))
    }

    /// Always refused.
    fn derive(
        &self,
        activation: &mut Activation<'_, 'gc>,
        _class: Class,
        _scope: Option<Scope>,
    ) -> (made: Result<Object<'gc>, Error>)
        ensures
            made is Err,
            made->Err_0.is_unsupported(subclass_refusal()),
            *final(activation) == *old(activation),
    {
        Err(Error::unsupported("Cannot subclass internal event dispatcher structures."))
    }

    /// Always refused.
    fn value_of(&self, _mc: MutationContext<'gc, '_>) -> (value: Result<Value<'gc>, Error>)
        ensures
            value is Err,
            value->Err_0.is_unsupported(subclass_refusal()),
    {
        Err(Error::unsupported("Cannot subclass internal event dispatcher structures."))
    }

    /// The class the object was made for: none, whenever it can be read.
    fn as_class(&self) -> (class: Result<Option<Class>, Error>)
        ensures
            class is Ok ==> class->Ok_0 is None,
    {
        match conflict_as_error(self.cell.try_read()) {
            Ok(guard) => Ok(guarded(&guard).base().as_class()),
            Err(conflict) => Err(conflict),
        }
    }

    /// Unwrap this object as a list of event handlers.
    fn as_dispatch(&self) -> (list: Option<Result<Ref<'_, DispatchList>, Error>>)
        ensures
            list is Some,
    {
        match conflict_as_error(self.cell.try_read()) {
            Ok(guard) => Some(Ok(dispatch_of(guard))),
            Err(conflict) => Some(Err(conflict)),
        }
    }

    /// Unwrap this object as a mutable list of event handlers.
    fn as_dispatch_mut(
        &self,
        mc: MutationContext<'gc, '_>,
    ) -> (list: Option<Result<RefMut<'_, DispatchList>, Error>>)
        ensures
            list is Some,
    {
        match conflict_as_error(self.cell.try_write(mc)) {
            Ok(guard) => Some(Ok(dispatch_of_mut(guard))),
            Err(conflict) => Some(Err(conflict)),
        }
    }
}

} // verus!
