//! The list of event handlers that an event dispatcher keeps.
use vstd::prelude::*;

verus! {

/// One handler attached to a dispatcher.
#[derive(Debug, PartialEq, Eq)]
pub struct EventHandler {
    /// Name of the event the handler listens for.
    pub event: String,
    /// Priority the handler was attached with.
    pub priority: i32,
    /// Which callable object is to be invoked.
    pub handler: u32,
    /// `true` for the capture phase, `false` for target and bubble.
    pub use_capture: bool,
}

/// What an [`EventHandler`] is in contracts.
pub struct EventHandlerView {
    pub event: Seq<char>,
    pub priority: int,
    pub handler: int,
    pub use_capture: bool,
}

impl View for EventHandler {
    type V = EventHandlerView;

    open spec fn view(&self) -> EventHandlerView {
        EventHandlerView {
            event: self.event@,
            priority: self.priority as int,
            handler: self.handler as int,
            use_capture: self.use_capture,
        }
    }
}

impl Clone for EventHandler {
    fn clone(&self) -> (copy: Self)
        ensures
            copy == *self,
    {
        EventHandler {
            event: self.event.clone(),
            priority: self.priority,
            handler: self.handler,
            use_capture: self.use_capture,
        }
    }
}

/// The handlers of one dispatcher, in the order in which they were attached.
#[derive(Debug)]
pub struct DispatchList {
    handlers: Vec<EventHandler>,
}

impl View for DispatchList {
    type V = Seq<EventHandlerView>;

    closed spec fn view(&self) -> Seq<EventHandlerView> {
        Seq::new(self.handlers@.len(), |i: int| self.handlers@[i]@)
    }
}

impl Clone for DispatchList {
    fn clone(&self) -> (copy: Self)
        ensures
            copy@ == self@,
    {
        let mut handlers: Vec<EventHandler> = Vec::new();
        let mut i: usize = 0;
        while i < self.handlers.len()
            invariant
                i <= self.handlers.len(),
                handlers@.len() == i,
                forall|k: int| 0 <= k < i ==> handlers@[k] == self.handlers@[k],
            decreases self.handlers.len() - i,
        {
            handlers.push(self.handlers[i].clone());
            i += 1;
        }
        let copy = DispatchList { handlers };
        assert(copy@ =~= self@);
        copy
    }
}

impl DispatchList {
    /// A list without handlers.
    pub fn new() -> (list: DispatchList)
        ensures
            list@ == Seq::<EventHandlerView>::empty(),
    {
        let list = DispatchList { handlers: Vec::new() };
        assert(list@ =~= Seq::<EventHandlerView>::empty());
        list
    }

    /// Number of handlers attached.
    pub fn len(&self) -> (n: usize)
        ensures
            n == self@.len(),
    {
        self.handlers.len()
    }

    /// Whether no handler is attached.
    pub fn is_empty(&self) -> (b: bool)
        ensures
            b == (self@.len() == 0),
    {
        self.handlers.len() == 0
    }

    /// Attaches `handler` behind the handlers already there.
    pub fn add_event_listener(&mut self, handler: EventHandler)
        ensures
            final(self)@ == old(self)@.push(handler@),
    {
        self.handlers.push(handler);
        assert(self@ =~= old(self)@.push(handler@));
    }

    /// The handler at `index`, counted from the one attached first.
    pub fn get(&self, index: usize) -> (found: Option<&EventHandler>)
        ensures
            index < self@.len() ==> found.is_some() && found.unwrap()@ == self@[index as int],
            index >= self@.len() ==> found.is_none(),
    {
        if index < self.handlers.len() {
            Some(&self.handlers[index])
        } else {
            None
        }
    }

    /// Detaches the handler at `index` and hands it back; the others keep
    /// their order. Nothing happens where there is no such handler.
    pub fn remove_event_listener(&mut self, index: usize) -> (removed: Option<EventHandler>)
        ensures
            index < old(self)@.len() ==> removed.is_some()
                && removed.unwrap()@ == old(self)@[index as int]
                && final(self)@ == old(self)@.remove(index as int),
            index >= old(self)@.len() ==> removed.is_none() && final(self)@ == old(self)@,
    {
        if index < self.handlers.len() {
            let handler = self.handlers.remove(index);
            assert(self@ =~= old(self)@.remove(index as int));
            Some(handler)
        } else {
            None
        }
    }
}

} // verus!
