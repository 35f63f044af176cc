use dispatch_object::{Activation, Class, DispatchObject, DispatchObjectData, Error, EventHandler, Object, Scope, ScriptObject, TObject, Value};
use gc_arena::rootless_arena;

fn handler(event: &str, priority: i32, handler: u32, use_capture: bool) -> EventHandler {
    EventHandler { event: event.to_string(), priority, handler, use_capture }
}

fn is_unsupported<T>(result: &Result<T, Error>, reason: &str) -> bool {
    matches!(result, Err(Error::UnsupportedOperation(text)) if text == reason)
}

#[test]
fn empty_list_is_a_dispatch_object() {
    rootless_arena(|mc| {
        let object = DispatchObject::empty_list(mc);
        assert!(matches!(object, Object::DispatchObject(_)));
    });
}

#[test]
fn empty_list_has_no_class_and_no_handlers() {
    rootless_arena(|mc| {
        let object = DispatchObject::empty_list(mc);
        assert_eq!(object.as_class(), Ok(None));
        let list = object.as_dispatch().unwrap().unwrap();
        assert!(list.is_empty());
        assert_eq!(list.len(), 0);
        assert_eq!(list.get(0), None);
    });
}

#[test]
fn construct_is_refused() {
    rootless_arena(|mc| {
        let object = DispatchObject::empty_list(mc);
        let mut activation = Activation::from_context(mc);
        let made = object.construct(&mut activation, &[]);
        assert!(is_unsupported(&made, "cannot construct internal dispatch structures"));
        let with_args =
            object.construct(&mut activation, &[Value::Integer(1), Value::Null, Value::Bool(true)]);
        assert!(is_unsupported(&with_args, "cannot construct internal dispatch structures"));
    });
}

#[test]
fn derive_is_refused() {
    rootless_arena(|mc| {
        let object = DispatchObject::empty_list(mc);
        let mut activation = Activation::from_context(mc);
        let made = object.derive(&mut activation, Class { id: 1 }, None);
        assert!(is_unsupported(&made, "Cannot subclass internal event dispatcher structures."));
        let scoped = object.derive(&mut activation, Class { id: 1 }, Some(Scope { id: 2 }));
        assert!(is_unsupported(&scoped, "Cannot subclass internal event dispatcher structures."));
    });
}

#[test]
fn value_of_is_refused() {
    rootless_arena(|mc| {
        let object = DispatchObject::empty_list(mc);
        let value = object.value_of(mc);
        assert!(is_unsupported(&value, "Cannot subclass internal event dispatcher structures."));
    });
}

#[test]
fn refused_operations_leave_the_object_as_it_was() {
    rootless_arena(|mc| {
        let object = DispatchObject::empty_list(mc);
        object.as_dispatch_mut(mc).unwrap().unwrap().add_event_listener(handler("click", 0, 1, false));
        let mut activation = Activation::from_context(mc);
        assert!(object.construct(&mut activation, &[Value::Undefined]).is_err());
        assert!(object.derive(&mut activation, Class { id: 9 }, Some(Scope { id: 9 })).is_err());
        assert!(object.value_of(mc).is_err());
        assert_eq!(object.as_class(), Ok(None));
        let list = object.as_dispatch().unwrap().unwrap();
        assert_eq!(list.len(), 1);
        assert_eq!(list.get(0), Some(&handler("click", 0, 1, false)));
    });
}

#[test]
fn refused_operations_do_not_need_a_free_cell() {
    rootless_arena(|mc| {
        let object = DispatchObject::empty_list(mc);
        let writer = object.as_dispatch_mut(mc).unwrap().unwrap();
        let mut activation = Activation::from_context(mc);
        assert!(is_unsupported(
            &object.construct(&mut activation, &[]),
            "cannot construct internal dispatch structures",
        ));
        assert!(is_unsupported(
            &object.derive(&mut activation, Class { id: 0 }, None),
            "Cannot subclass internal event dispatcher structures.",
        ));
        assert!(is_unsupported(
            &object.value_of(mc),
            "Cannot subclass internal event dispatcher structures.",
        ));
        assert!(writer.is_empty());
    });
}

#[test]
fn the_methods_of_the_representation_refuse_too() {
    rootless_arena(|mc| {
        let object = match DispatchObject::empty_list(mc) {
            Object::DispatchObject(object) => object,
            Object::ScriptObject(_) => panic!("not a dispatch object"),
        };
        let mut activation = Activation::from_context(mc);
        assert!(is_unsupported(
            &object.construct(&mut activation, &[]),
            "cannot construct internal dispatch structures",
        ));
        assert!(is_unsupported(
            &object.derive(&mut activation, Class { id: 3 }, None),
            "Cannot subclass internal event dispatcher structures.",
        ));
        assert!(is_unsupported(
            &object.value_of(mc),
            "Cannot subclass internal event dispatcher structures.",
        ));
        assert_eq!(object.as_class(), Ok(None));
        assert!(matches!(object.as_dispatch(), Some(Ok(_))));
        assert!(matches!(object.as_dispatch_mut(mc), Some(Ok(_))));
    });
}

#[test]
fn the_list_is_present_whatever_it_holds() {
    rootless_arena(|mc| {
        let object = DispatchObject::empty_list(mc);
        assert!(matches!(object.as_dispatch(), Some(Ok(_))));
        assert!(matches!(object.as_dispatch_mut(mc), Some(Ok(_))));
        object.as_dispatch_mut(mc).unwrap().unwrap().add_event_listener(handler("click", 0, 1, false));
        assert!(matches!(object.as_dispatch(), Some(Ok(_))));
        assert!(matches!(object.as_dispatch_mut(mc), Some(Ok(_))));
    });
}

#[test]
fn a_plain_object_has_no_list() {
    rootless_arena(|mc| {
        let object = ScriptObject::bare_object(mc);
        assert!(object.as_dispatch().is_none());
        assert!(object.as_dispatch_mut(mc).is_none());
    });
}

#[test]
fn a_plain_object_has_no_list_while_it_is_read() {
    rootless_arena(|mc| {
        let plain = ScriptObject::bare_object(mc);
        let internal = DispatchObject::empty_list(mc);
        let reader = internal.as_dispatch().unwrap().unwrap();
        assert!(plain.as_dispatch().is_none());
        assert!(plain.as_dispatch_mut(mc).is_none());
        assert!(reader.is_empty());
    });
}

#[test]
fn handles_to_one_object_see_each_others_writes() {
    rootless_arena(|mc| {
        let first = DispatchObject::empty_list(mc);
        let second = first;
        let third = first.clone();
        first.as_dispatch_mut(mc).unwrap().unwrap().add_event_listener(handler("click", 0, 1, false));
        {
            let seen = second.as_dispatch().unwrap().unwrap();
            assert_eq!(seen.len(), 1);
            assert_eq!(seen.get(0), Some(&handler("click", 0, 1, false)));
        }
        second.as_dispatch_mut(mc).unwrap().unwrap().add_event_listener(handler("move", 2, 5, true));
        let seen = third.as_dispatch().unwrap().unwrap();
        assert_eq!(seen.len(), 2);
        assert_eq!(seen.get(0), Some(&handler("click", 0, 1, false)));
        assert_eq!(seen.get(1), Some(&handler("move", 2, 5, true)));
    });
}

#[test]
fn objects_do_not_share_their_lists() {
    rootless_arena(|mc| {
        let first = DispatchObject::empty_list(mc);
        let second = DispatchObject::empty_list(mc);
        first.as_dispatch_mut(mc).unwrap().unwrap().add_event_listener(handler("click", 0, 1, false));
        assert_eq!(first.as_dispatch().unwrap().unwrap().len(), 1);
        assert!(second.as_dispatch().unwrap().unwrap().is_empty());
    });
}

#[test]
fn detaching_through_one_handle_shows_through_another() {
    rootless_arena(|mc| {
        let first = DispatchObject::empty_list(mc);
        let second = first;
        {
            let mut list = first.as_dispatch_mut(mc).unwrap().unwrap();
            list.add_event_listener(handler("a", 1, 10, false));
            list.add_event_listener(handler("b", 2, 20, true));
        }
        let removed = second.as_dispatch_mut(mc).unwrap().unwrap().remove_event_listener(0);
        assert_eq!(removed, Some(handler("a", 1, 10, false)));
        let seen = first.as_dispatch().unwrap().unwrap();
        assert_eq!(seen.len(), 1);
        assert_eq!(seen.get(0), Some(&handler("b", 2, 20, true)));
    });
}

#[test]
fn writing_while_reading_is_a_borrow_conflict() {
    rootless_arena(|mc| {
        let object = DispatchObject::empty_list(mc);
        let alias = object;
        let reader = object.as_dispatch().unwrap().unwrap();
        assert!(matches!(alias.as_dispatch_mut(mc), Some(Err(Error::BorrowConflict))));
        assert!(matches!(object.as_dispatch_mut(mc), Some(Err(Error::BorrowConflict))));
        drop(reader);
        assert!(matches!(alias.as_dispatch_mut(mc), Some(Ok(_))));
        assert!(matches!(object.as_dispatch_mut(mc), Some(Ok(_))));
    });
}

#[test]
fn reading_while_writing_is_a_borrow_conflict() {
    rootless_arena(|mc| {
        let object = DispatchObject::empty_list(mc);
        let alias = object;
        let writer = object.as_dispatch_mut(mc).unwrap().unwrap();
        assert!(matches!(alias.as_dispatch(), Some(Err(Error::BorrowConflict))));
        assert_eq!(alias.as_class(), Err(Error::BorrowConflict));
        drop(writer);
        assert!(matches!(alias.as_dispatch(), Some(Ok(_))));
        assert_eq!(alias.as_class(), Ok(None));
    });
}

#[test]
fn writing_while_writing_is_a_borrow_conflict() {
    rootless_arena(|mc| {
        let object = DispatchObject::empty_list(mc);
        let alias = object;
        let writer = object.as_dispatch_mut(mc).unwrap().unwrap();
        assert!(matches!(alias.as_dispatch_mut(mc), Some(Err(Error::BorrowConflict))));
        drop(writer);
        assert!(matches!(alias.as_dispatch_mut(mc), Some(Ok(_))));
    });
}

#[test]
fn readers_do_not_exclude_each_other() {
    rootless_arena(|mc| {
        let object = DispatchObject::empty_list(mc);
        let alias = object;
        let first = object.as_dispatch().unwrap().unwrap();
        let second = alias.as_dispatch().unwrap().unwrap();
        assert_eq!(object.as_class(), Ok(None));
        assert!(first.is_empty());
        assert!(second.is_empty());
        assert!(matches!(object.as_dispatch_mut(mc), Some(Err(Error::BorrowConflict))));
        drop(first);
        assert!(matches!(object.as_dispatch_mut(mc), Some(Err(Error::BorrowConflict))));
        drop(second);
        assert!(matches!(object.as_dispatch_mut(mc), Some(Ok(_))));
    });
}

#[test]
fn a_guard_on_one_object_does_not_lock_another() {
    rootless_arena(|mc| {
        let first = DispatchObject::empty_list(mc);
        let second = DispatchObject::empty_list(mc);
        let writer = first.as_dispatch_mut(mc).unwrap().unwrap();
        assert!(matches!(second.as_dispatch_mut(mc), Some(Ok(_))));
        assert!(matches!(second.as_dispatch(), Some(Ok(_))));
        assert!(writer.is_empty());
    });
}

#[test]
fn dispatch_list_end_to_end() {
    rootless_arena(|mc| {
        let object = DispatchObject::empty_list(mc);
        let mut activation = Activation::from_context(mc);
        let made = object.construct(&mut activation, &[]);
        assert!(is_unsupported(&made, "cannot construct internal dispatch structures"));
        {
            let mut list = object.as_dispatch_mut(mc).unwrap().unwrap();
            list.add_event_listener(handler("click", 0, 1, false));
        }
        let second = object;
        let seen = second.as_dispatch().unwrap().unwrap();
        assert_eq!(seen.len(), 1);
        assert_eq!(
            seen.get(0),
            Some(&EventHandler {
                event: "click".to_string(),
                priority: 0,
                handler: 1,
                use_capture: false,
            })
        );
        assert_eq!(seen.get(1), None);
    });
}

#[test]
fn fresh_data_is_empty() {
    let data = DispatchObjectData::new();
    assert_eq!(data.base().as_class(), None);
    assert!(data.dispatch().is_empty());
    assert_eq!(data.dispatch().len(), 0);
}

#[test]
fn cloned_data_is_alike() {
    let data = DispatchObjectData::new();
    let copy = data.clone();
    assert_eq!(copy.base().as_class(), None);
    assert!(copy.dispatch().is_empty());
}
