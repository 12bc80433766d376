//! Arena-style node handles.
//!
//! The external DOM owns its nodes; this engine refers to one purely by its
//! integer arena id, so that the listener registry can key on (id, kind)
//! without any cyclic ownership between nodes and their listeners.

use vstd::prelude::*;
use crate::EngineError;
use crate::events::spec_kind_of_name;
use crate::registry::{ListenerRegistry, NODE_ID_LIMIT, remove_all};

verus! {

/// A node of the external DOM, by its arena id.
#[derive(Clone, Copy, Debug, PartialEq, Eq, Structural)]
pub struct BlitzNode(pub usize);

impl BlitzNode {
    /// This node's id as a registry key component.
    pub open spec fn spec_id(self) -> u64 {
        self.0 as u64
    }

    /// Register `func` for events of the named kind on this node; fails only
    /// on a name outside the fixed recognized set.
    pub fn add_event_listener(
        &self,
        events: &mut ListenerRegistry,
        listener: &str,
        func: u64,
    ) -> (r: Result<(), EngineError>)
        requires
            self.spec_id() < NODE_ID_LIMIT,
        ensures
            r is Ok <==> spec_kind_of_name(listener@) is Some,
            r is Err ==> r == Err::<(), EngineError>(EngineError::InvalidEventKind),
            spec_kind_of_name(listener@) matches Some(k) ==> final(events).spec_listeners(
                self.spec_id(),
                k,
            ) == old(events).spec_listeners(self.spec_id(), k).push(func),
    {
        events.add_listener(self.0 as u64, listener, func)
    }

    /// Remove every registration of `func` for the named kind on this node;
    /// fails only on a name outside the fixed recognized set.
    pub fn remove_event_listener(
        &self,
        events: &mut ListenerRegistry,
        listener: &str,
        func: u64,
    ) -> (r: Result<(), EngineError>)
        requires
            self.spec_id() < NODE_ID_LIMIT,
        ensures
            r is Ok <==> spec_kind_of_name(listener@) is Some,
            r is Err ==> r == Err::<(), EngineError>(EngineError::InvalidEventKind),
            spec_kind_of_name(listener@) matches Some(k) ==> final(events).spec_listeners(
                self.spec_id(),
                k,
            ) == remove_all(old(events).spec_listeners(self.spec_id(), k), func),
    {
        events.remove_listener(self.0 as u64, listener, func)
    }
}

} // verus!
