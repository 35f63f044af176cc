//! Object representations of a script interpreter, held in garbage-collected
//! cells.
//!
//! Every object the evaluator sees is an [`object::Object`]: a copyable handle
//! to one allocation in a `gc_arena` arena. The evaluator drives every handle
//! through the same operations; a representation that keeps private native
//! data offers it through an optional accessor that the others answer with
//! `None`. [`dispatch_object::DispatchObject`] is such a representation: it
//! holds the list of event handlers of an event dispatcher and refuses
//! everything script code could ask of it.
pub mod cell;
pub mod dispatch_object;
pub mod error;
pub mod events;
pub mod object;
pub mod script_object;

pub use crate::dispatch_object::{DispatchObject, DispatchObjectData};
pub use crate::error::Error;
pub use crate::events::{DispatchList, EventHandler};
pub use crate::object::{Activation, Object, TObject, Value};
pub use crate::script_object::{Class, Scope, ScriptObject, ScriptObjectClass, ScriptObjectData};
