//! What the evaluator holds: handles, values, the context of a call, and the
//! operations that every representation answers.
use vstd::prelude::*;
use gc_arena::MutationContext;
use std::cell::{Ref, RefMut};
use crate::dispatch_object::{construct_refusal, subclass_refusal, DispatchObject};
use crate::error::Error;
use crate::events::DispatchList;
use crate::script_object::{Class, Scope, ScriptObject, ScriptObjectClass};

verus! {

/// The context of the call that the evaluator is executing. It carries the
/// mutation token of the arena the call runs in.
pub struct Activation<'a, 'gc> {
    mc: MutationContext<'gc, 'a>,
}

impl<'a, 'gc> Activation<'a, 'gc> {
    /// The mutation token that the call runs under.
    pub closed spec fn context(self) -> MutationContext<'gc, 'a> {
        self.mc
    }

    /// The context of a call that runs under `mc`.
    pub fn from_context(mc: MutationContext<'gc, 'a>) -> (activation: Self)
        ensures
            activation.context() == mc,
    {
        Activation { mc }
    }

    /// The mutation token of the call.
    pub fn gc_context(&self) -> (mc: MutationContext<'gc, 'a>)
        ensures
            mc == self.context(),
    {
        self.mc
    }
}

/// A value of the script language.
#[derive(Clone, Copy)]
pub enum Value<'gc> {
    Undefined,
    Null,
    Bool(bool),
    Integer(i32),
    Object(Object<'gc>),
}

/// What the request for a guard comes to: the guard where the cell granted
/// it, `BorrowConflict` where it refused.
pub fn conflict_as_error<G, E>(outcome: Result<G, E>) -> (guard: Result<G, Error>)
    ensures
        outcome is Ok ==> guard == Ok::<G, Error>(outcome->Ok_0),
        outcome is Err ==> guard == Err::<G, Error>(Error::BorrowConflict),
{
    match outcome {
        Ok(guard) => Ok(guard),
        Err(_) => Err(Error::BorrowConflict),
    }
}

/// The operations that the evaluator may ask of any object, whatever its
/// representation.
///
/// `as_dispatch` and `as_dispatch_mut` are optional: a representation that
/// keeps no dispatch list leaves them as they are here, and they answer
/// `None`.
pub trait TObject<'gc>: Copy {
    /// Whether the representation is for internal use only: script code must
    /// not get anything out of such an object.
    spec fn internal_only(&self) -> bool;

    /// Whether the representation keeps a dispatch list.
    spec fn embeds_dispatch_list(&self) -> bool;

    /// Makes a new instance with this object as the constructor. An object
    /// for internal use refuses and leaves the call as it was. No guard is
    /// taken, so the call never ends in a borrow conflict.
    fn construct(
        &self,
        activation: &mut Activation<'_, 'gc>,
        args: &[Value<'gc>],
    ) -> (made: Result<Object<'gc>, Error>)
        ensures
            self.internal_only() ==> made is Err && *final(activation) == *old(activation),
            made is Err ==> made->Err_0 is UnsupportedOperation,
    ;

    /// Makes an object bound to `class` and `scope`, with this object as its
    /// base. An object for internal use refuses and leaves the call as it
    /// was. No guard is taken, so the call never ends in a borrow conflict.
    fn derive(
        &self,
        activation: &mut Activation<'_, 'gc>,
        class: Class,
        scope: Option<Scope>,
    ) -> (made: Result<Object<'gc>, Error>)
        ensures
            self.internal_only() ==> made is Err && *final(activation) == *old(activation),
            made is Err ==> made->Err_0 is UnsupportedOperation,
    ;

    /// The primitive value of the object. An object for internal use
    /// refuses. No guard is taken, so the call never ends in a borrow
    /// conflict.
    fn value_of(&self, mc: MutationContext<'gc, '_>) -> (value: Result<Value<'gc>, Error>)
        ensures
            self.internal_only() ==> value is Err,
            value is Err ==> value->Err_0 is UnsupportedOperation,
    ;

    /// The class the object was made for, read under a shared guard that is
    /// released before the call returns. The cell refuses that guard while an
    /// exclusive guard on the object is held; no other failure exists.
    fn as_class(&self) -> (class: Result<Option<Class>, Error>)
        ensures
            class is Err ==> class->Err_0 == Error::BorrowConflict,
    ;

    /// The event handlers of the object, for reading: `None` where the
    /// representation keeps none, else what the cell answers to the request
    /// for a shared guard. The cell refuses while an exclusive guard on the
    /// object is held.
    fn as_dispatch(&self) -> (list: Option<Result<Ref<'_, DispatchList>, Error>>)
        ensures
            list is Some ==> self.embeds_dispatch_list(),
            list is Some && list->Some_0 is Err ==> list->Some_0->Err_0 == Error::BorrowConflict,
    {
        None
    }

    /// The event handlers of the object, for writing: `None` where the
    /// representation keeps none, else what the cell answers to the request
    /// for an exclusive guard. The cell refuses while any guard on the object
    /// is held.
    fn as_dispatch_mut(
        &self,
        mc: MutationContext<'gc, '_>,
    ) -> (list: Option<Result<RefMut<'_, DispatchList>, Error>>)
        ensures
            list is Some ==> self.embeds_dispatch_list(),
            list is Some && list->Some_0 is Err ==> list->Some_0->Err_0 == Error::BorrowConflict,
    {
        None
    }
}

/// Handle to an object of any representation. Copies of a handle name the
/// same object.
#[derive(Clone, Copy)]
pub enum Object<'gc> {
    ScriptObject(ScriptObject<'gc>),
    DispatchObject(DispatchObject<'gc>),
}

impl<'gc> Object<'gc> {
    /// Whether the two handles name the same allocation: they are of one
    /// representation, and that representation takes them for the same.
    pub open spec fn same_object(self, other: Self) -> bool {
        match (self, other) {
            (Object::ScriptObject(a), Object::ScriptObject(b)) => a.same_object(b),
            (Object::DispatchObject(a), Object::DispatchObject(b)) => a.same_object(b),
            _ => false,
        }
    }

    /// Whether the two handles name the same object.
    pub fn ptr_eq(this: Object<'gc>, other: Object<'gc>) -> (same: bool)
        ensures
            same == this.same_object(other),
    {
        match (this, other) {
            (Object::ScriptObject(a), Object::ScriptObject(b)) => ScriptObject::ptr_eq(a, b),
            (Object::DispatchObject(a), Object::DispatchObject(b)) => DispatchObject::ptr_eq(a, b),
            _ => false,
        }
    }
}

impl<'gc> PartialEq for Object<'gc> {
    /// Handles are equal where they name the same object, whatever that
    /// object holds.
    fn eq(&self, other: &Self) -> (same: bool) {
        Object::ptr_eq(*self, *other)
    }
}

impl<'gc> vstd::std_specs::cmp::PartialEqSpecImpl for Object<'gc> {
    open spec fn obeys_eq_spec() -> bool {
        true
    }

    open spec fn eq_spec(&self, other: &Self) -> bool {
        self.same_object(*other)
    }
}

impl<'gc> TObject<'gc> for Object<'gc> {
    open spec fn internal_only(&self) -> bool {
        self is DispatchObject
    }

    open spec fn embeds_dispatch_list(&self) -> bool {
        self is DispatchObject
    }

    fn construct(
        &self,
        activation: &mut Activation<'_, 'gc>,
        args: &[Value<'gc>],
    ) -> (made: Result<Object<'gc>, Error>)
        ensures
            *final(activation) == *old(activation),
            self is DispatchObject ==> made is Err && made->Err_0.is_unsupported(
                construct_refusal(),
            ),
            self is ScriptObject ==> made is Ok && made->Ok_0 is ScriptObject
                && made->Ok_0->ScriptObject_0.allocated_with().class_link() is NoClass,
    {
        match self {
            Object::ScriptObject(object) => object.construct(activation, args),
            Object::DispatchObject(object) => object.construct(activation, args),
        }
    }

    fn derive(
        &self,
        activation: &mut Activation<'_, 'gc>,
        class: Class,
        scope: Option<Scope>,
    ) -> (made: Result<Object<'gc>, Error>)
        ensures
            *final(activation) == *old(activation),
            self is DispatchObject ==> made is Err && made->Err_0.is_unsupported(
                subclass_refusal(),
            ),
            self is ScriptObject ==> made is Ok && made->Ok_0 is ScriptObject
                && made->Ok_0->ScriptObject_0.allocated_with().class_link()
                == ScriptObjectClass::InstancePrototype(class, scope),
    {
        match self {
            Object::ScriptObject(object) => object.derive(activation, class, scope),
            Object::DispatchObject(object) => object.derive(activation, class, scope),
        }
    }

    fn value_of(&self, mc: MutationContext<'gc, '_>) -> (value: Result<Value<'gc>, Error>)
        ensures
            self is DispatchObject ==> value is Err && value->Err_0.is_unsupported(
                subclass_refusal(),
            ),
            self is ScriptObject ==> value == Ok::<Value<'gc>, Error>(Value::Object(*self)),
    {
        match self {
            Object::ScriptObject(object) => object.value_of(mc),
            Object::DispatchObject(object) => object.value_of(mc),
        }
    }

    fn as_class(&self) -> (class: Result<Option<Class>, Error>)
        ensures
            self is DispatchObject && class is Ok ==> class->Ok_0 is None,
    {
        match self {
            Object::ScriptObject(object) => object.as_class(),
            Object::DispatchObject(object) => object.as_class(),
        }
    }

    fn as_dispatch(&self) -> (list: Option<Result<Ref<'_, DispatchList>, Error>>)
        ensures
            list is Some <==> self is DispatchObject,
    {
        match self {
            Object::ScriptObject(object) => object.as_dispatch(),
            Object::DispatchObject(object) => object.as_dispatch(),
        }
    }

    fn as_dispatch_mut(
        &self,
        mc: MutationContext<'gc, '_>,
    ) -> (list: Option<Result<RefMut<'_, DispatchList>, Error>>)
        ensures
            list is Some <==> self is DispatchObject,
    {
        match self {
            Object::ScriptObject(object) => object.as_dispatch_mut(mc),
            Object::DispatchObject(object) => object.as_dispatch_mut(mc),
        }
    }
}

} // verus!
