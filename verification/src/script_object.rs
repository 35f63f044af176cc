//! The storage that every representation carries, and the plain script
//! object, which carries nothing else.
use vstd::prelude::*;
use gc_arena::MutationContext;
use crate::cell::{guarded, ObjectCell};
use crate::error::Error;
use crate::object::{conflict_as_error, Activation, Object, TObject, Value};

verus! {

/// A class, as the class system names it. Objects store the name and never
/// look behind it.
#[derive(Debug, Clone, Copy, PartialEq, Eq)]
pub struct Class {
    pub id: u32,
}

/// A lexical scope, as the scope resolver names it.
#[derive(Debug, Clone, Copy, PartialEq, Eq)]
pub struct Scope {
    pub id: u32,
}

/// The link from an object to the class it was made for.
#[derive(Debug, Clone, Copy)]
pub enum ScriptObjectClass {
    /// The object is an instance of the class, made in the scope.
    InstancePrototype(Class, Option<Scope>),
    /// The object was made without any class.
    NoClass,
}

impl ScriptObjectClass {
    /// The class that the link names, if it names one.
    pub open spec fn class(self) -> Option<Class> {
        match self {
            ScriptObjectClass::InstancePrototype(class, _) => Some(class),
            ScriptObjectClass::NoClass => None,
        }
    }
}

/// Base storage: the state that the evaluator may use of any object,
/// whatever its representation.
#[derive(Debug, Clone, Copy)]
pub struct ScriptObjectData {
    class: ScriptObjectClass,
}

impl ScriptObjectData {
    /// The class link that the storage holds.
    pub closed spec fn class_link(self) -> ScriptObjectClass {
        self.class
    }

    /// Base storage for an object with the given class link.
    pub fn base_new(class: ScriptObjectClass) -> (data: ScriptObjectData)
        ensures
            data.class_link() == class,
    {
        ScriptObjectData { class }
    }

    /// The class the object was made for, if any.
    pub fn as_class(&self) -> (class: Option<Class>)
        ensures
            class == self.class_link().class(),
    {
        match self.class {
            ScriptObjectClass::InstancePrototype(class, _) => Some(class),
            ScriptObjectClass::NoClass => None,
        }
    }
}

/// Handle to a plain script object: base storage and nothing else.
#[derive(Clone, Copy)]
pub struct ScriptObject<'gc> {
    cell: ObjectCell<'gc, ScriptObjectData>,
    made_with: Ghost<ScriptObjectData>,
}

impl<'gc> ScriptObject<'gc> {
    /// The storage that the object was allocated with. What the object holds
    /// later is not a property of the handle.
    pub closed spec fn allocated_with(self) -> ScriptObjectData {
        self.made_with@
    }

    /// The allocation that the handle names.
    pub closed spec fn allocation(self) -> ObjectCell<'gc, ScriptObjectData> {
        self.cell
    }

    /// Whether the two handles name the same allocation.
    pub open spec fn same_object(self, other: Self) -> bool {
        self.allocation() == other.allocation()
    }

    /// Allocates an object with the given class link.
    fn allocate(mc: MutationContext<'gc, '_>, class: ScriptObjectClass) -> (object: Self)
        ensures
            object.allocated_with().class_link() == class,
    {
        let base = ScriptObjectData::base_new(class);
        ScriptObject { cell: ObjectCell::allocate(mc, base), made_with: Ghost(base) }
    }

    /// Allocates an object without a class.
    pub fn bare_object(mc: MutationContext<'gc, '_>) -> (object: Object<'gc>)
        ensures
            object is ScriptObject,
            object->ScriptObject_0.allocated_with().class_link() is NoClass,
    {
        Object::ScriptObject(ScriptObject::allocate(mc, ScriptObjectClass::NoClass))
    }

    /// Whether the two handles name the same allocation.
    pub fn ptr_eq(this: ScriptObject<'gc>, other: ScriptObject<'gc>) -> (same: bool)
        ensures
            same == this.same_object(other),
    {
        ObjectCell::ptr_eq(this.cell, other.cell)
    }
}

impl<'gc> TObject<'gc> for ScriptObject<'gc> {
    open spec fn internal_only(&self) -> bool {
        false
    }

    open spec fn embeds_dispatch_list(&self) -> bool {
        false
    }

    /// A new instance, made with this object as the constructor. The new
    /// object has no class of its own.
    fn construct(
        &self,
        activation: &mut Activation<'_, 'gc>,
        _args: &[Value<'gc>],
    ) -> (made: Result<Object<'gc>, Error>)
        ensures
            made is Ok,
            made->Ok_0 is ScriptObject,
            made->Ok_0->ScriptObject_0.allocated_with().class_link() is NoClass,
            *final(activation) == *old(activation),
    {
        Ok(ScriptObject::bare_object(activation.gc_context()))
    }

    /// A new object bound to `class` and `scope`.
    fn derive(
        &self,
        activation: &mut Activation<'_, 'gc>,
        class: Class,
        scope: Option<Scope>,
    ) -> (made: Result<Object<'gc>, Error>)
        ensures
            made is Ok,
            made->Ok_0 is ScriptObject,
            made->Ok_0->ScriptObject_0.allocated_with().class_link()
                == ScriptObjectClass::InstancePrototype(class, scope),
            *final(activation) == *old(activation),
    {
        let link = ScriptObjectClass::InstancePrototype(class, scope);
        Ok(Object::ScriptObject(ScriptObject::allocate(activation.gc_context(), link)))
    }

    /// A plain object has no primitive value of its own: it stands for itself.
    fn value_of(&self, _mc: MutationContext<'gc, '_>) -> (value: Result<Value<'gc>, Error>)
        ensures
            value == Ok::<Value<'gc>, Error>(Value::Object(Object::ScriptObject(*self))),
    {
        Ok(Value::Object(Object::ScriptObject(*self)))
    }

    /// The class that the cell holds at the time of the call.
    fn as_class(&self) -> (class: Result<Option<Class>, Error>) {
        match conflict_as_error(self.cell.try_read()) {
            Ok(guard) => Ok(guarded(&guard).as_class()),
            Err(conflict) => Err(conflict),
        }
    }
}

} // verus!
