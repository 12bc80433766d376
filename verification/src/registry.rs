//! The listener registry: a mapping from (node id, event kind) to the ordered
//! list of registered callback handles.
//!
//! Callback handles are equality-comparable identity tokens handed out by the
//! host; the registry never interprets them. Insertion order is preserved and
//! duplicate handles are permitted; removal deletes every entry equal to the
//! given handle.

use vstd::prelude::*;
use std::collections::HashMap;
use crate::EngineError;
use crate::events::{EventKind, spec_kind_of_name, str_to_kind};

verus! {

broadcast use {vstd::std_specs::hash::group_hash_axioms, vstd::seq_lib::group_seq_lib_default};

/// Node ids must stay below this bound so that (node, kind) pairs can be
/// packed injectively into a single 64-bit registry key.
pub const NODE_ID_LIMIT: u64 = 0x0800_0000_0000_0000;

/// The packed registry key of a (node, kind) slot.
pub open spec fn slot_key(node: u64, k: EventKind) -> u64 {
    (node * 32 + k.spec_discriminant()) as u64
}

/// Packing is injective on node ids below `NODE_ID_LIMIT`.
pub proof fn lemma_slot_key_injective(n1: u64, k1: EventKind, n2: u64, k2: EventKind)
    requires
        n1 < NODE_ID_LIMIT,
        n2 < NODE_ID_LIMIT,
        slot_key(n1, k1) == slot_key(n2, k2),
    ensures
        n1 == n2 && k1 == k2,
{
    crate::events::lemma_discriminant_bound(k1);
    crate::events::lemma_discriminant_bound(k2);
    assert(n1 * 32 + k1.spec_discriminant() <= (NODE_ID_LIMIT - 1) * 32 + 31) by (nonlinear_arith)
        requires n1 < NODE_ID_LIMIT && k1.spec_discriminant() < 32;
    assert(n2 * 32 + k2.spec_discriminant() <= (NODE_ID_LIMIT - 1) * 32 + 31) by (nonlinear_arith)
        requires n2 < NODE_ID_LIMIT && k2.spec_discriminant() < 32;
    assert(n1 * 32 + k1.spec_discriminant() == n2 * 32 + k2.spec_discriminant());
    assert(n1 == n2 && k1.spec_discriminant() == k2.spec_discriminant()) by (nonlinear_arith)
        requires
            n1 * 32 + k1.spec_discriminant() == n2 * 32 + k2.spec_discriminant(),
            k1.spec_discriminant() < 32,
            k2.spec_discriminant() < 32;
    crate::events::lemma_discriminant_injective(k1, k2);
}

/// Drop every occurrence of `callback` from a slot, keeping the order of the
/// remaining entries.
pub open spec fn remove_all(slot: Seq<u64>, callback: u64) -> Seq<u64>
    decreases slot.len(),
{
    if slot.len() == 0 {
        Seq::empty()
    } else {
        let rest = remove_all(slot.drop_last(), callback);
        if slot.last() != callback {
            rest.push(slot.last())
        } else {
            rest
        }
    }
}

/// Removal commutes with appending one entry.
pub proof fn lemma_remove_all_push(slot: Seq<u64>, x: u64, callback: u64)
    ensures
        remove_all(slot.push(x), callback) == if x != callback {
            remove_all(slot, callback).push(x)
        } else {
            remove_all(slot, callback)
        },
{
    assert(slot.push(x).drop_last() =~= slot);
}

/// No occurrence of the removed callback survives a removal.
pub proof fn lemma_remove_all_no_callback(slot: Seq<u64>, callback: u64)
    ensures
        !remove_all(slot, callback).contains(callback),
    decreases slot.len(),
{
    if slot.len() > 0 {
        lemma_remove_all_no_callback(slot.drop_last(), callback);
        let rest = remove_all(slot.drop_last(), callback);
        if slot.last() != callback {
            assert forall|i: int|
                0 <= i < rest.push(slot.last()).len() implies rest.push(slot.last())[i]
                != callback by {
                if i < rest.len() {
                    assert(!rest.contains(callback));
                }
            }
        }
    }
}

pub struct ListenerRegistry {
    map: HashMap<u64, Vec<u64>>,
}

impl ListenerRegistry {
    /// The ordered callback handles registered for a (node, kind) slot.
    pub closed spec fn spec_listeners(&self, node: u64, k: EventKind) -> Seq<u64> {
        if self.map@.contains_key(slot_key(node, k)) {
            self.map@[slot_key(node, k)]@
        } else {
            Seq::empty()
        }
    }

    pub fn new() -> (r: Self)
        ensures
            forall|node: u64, k: EventKind| #[trigger] r.spec_listeners(node, k) == Seq::<u64>::empty(),
    {
        ListenerRegistry { map: HashMap::new() }
    }

    /// Append `callback` to the slot named by `kind_name`; fails only on a
    /// name outside the fixed recognized set, leaving the registry unchanged.
    pub fn add_listener(&mut self, node: u64, kind_name: &str, callback: u64) -> (r: Result<
        (),
        EngineError,
    >)
        requires
            node < NODE_ID_LIMIT,
        ensures
            r is Ok <==> spec_kind_of_name(kind_name@) is Some,
            r is Err ==> r == Err::<(), EngineError>(EngineError::InvalidEventKind)
                && forall|n2: u64, k2: EventKind|
                    #[trigger] final(self).spec_listeners(n2, k2) == old(self).spec_listeners(n2, k2),
            spec_kind_of_name(kind_name@) matches Some(k) ==> {
                &&& final(self).spec_listeners(node, k) == old(self).spec_listeners(
                    node,
                    k,
                ).push(callback)
                &&& forall|n2: u64, k2: EventKind|
                    n2 < NODE_ID_LIMIT && !(n2 == node && k2 == k)
                        ==> #[trigger] final(self).spec_listeners(n2, k2) == old(
                        self,
                    ).spec_listeners(n2, k2)
            },
    {
        match str_to_kind(kind_name) {
            None => Err(EngineError::InvalidEventKind),
            Some(k) => {
                let key = node * 32 + (k.discriminant() as u64);
                proof {
                    crate::events::lemma_discriminant_bound(k);
                }
                let mut slot: Vec<u64> = match self.map.remove(&key) {
                    Some(v) => v,
                    None => Vec::new(),
                };
                slot.push(callback);
                self.map.insert(key, slot);
                proof {
                    assert(self.spec_listeners(node, k) == old(self).spec_listeners(
                        node,
                        k,
                    ).push(callback));
                    assert forall|n2: u64, k2: EventKind|
                        n2 < NODE_ID_LIMIT && !(n2 == node && k2 == k) implies #[trigger] self
                        .spec_listeners(n2, k2) == old(self).spec_listeners(n2, k2) by {
                        if slot_key(n2, k2) == slot_key(node, k) {
                            lemma_slot_key_injective(n2, k2, node, k);
                        }
                    }
                }
                Ok(())
            },
        }
    }

    /// Remove every entry equal to `callback` from the slot named by
    /// `kind_name`; a no-op if none match. Fails only on a name outside the
    /// fixed recognized set, leaving the registry unchanged.
    pub fn remove_listener(&mut self, node: u64, kind_name: &str, callback: u64) -> (r: Result<
        (),
        EngineError,
    >)
        requires
            node < NODE_ID_LIMIT,
        ensures
            r is Ok <==> spec_kind_of_name(kind_name@) is Some,
            r is Err ==> r == Err::<(), EngineError>(EngineError::InvalidEventKind)
                && forall|n2: u64, k2: EventKind|
                    #[trigger] final(self).spec_listeners(n2, k2) == old(self).spec_listeners(n2, k2),
            spec_kind_of_name(kind_name@) matches Some(k) ==> {
                &&& final(self).spec_listeners(node, k) == remove_all(
                    old(self).spec_listeners(node, k),
                    callback,
                )
                &&& forall|n2: u64, k2: EventKind|
                    n2 < NODE_ID_LIMIT && !(n2 == node && k2 == k)
                        ==> #[trigger] final(self).spec_listeners(n2, k2) == old(
                        self,
                    ).spec_listeners(n2, k2)
            },
    {
        match str_to_kind(kind_name) {
            None => Err(EngineError::InvalidEventKind),
            Some(k) => {
                let key = node * 32 + (k.discriminant() as u64);
                proof {
                    crate::events::lemma_discriminant_bound(k);
                }
                match self.map.remove(&key) {
                    None => {
                        Ok(())
                    },
                    Some(v) => {
                        let mut kept: Vec<u64> = Vec::new();
                        let mut j: usize = 0;
                        proof {
                            assert(v@.take(0) =~= Seq::<u64>::empty());
                        }
                        while j < v.len()
                            invariant
                                j <= v.len(),
                                kept@ == remove_all(v@.take(j as int), callback),
                            decreases v.len() - j,
                        {
                            let c = v[j];
                            proof {
                                assert(v@.take(j + 1) =~= v@.take(j as int).push(v@[j as int]));
                                lemma_remove_all_push(v@.take(j as int), v@[j as int], callback);
                            }
                            if c != callback {
                                kept.push(c);
                            }
                            j += 1;
                        }
                        proof {
                            assert(v@.take(v@.len() as int) =~= v@);
                        }
                        self.map.insert(key, kept);
                        proof {
                            assert forall|n2: u64, k2: EventKind|
                                n2 < NODE_ID_LIMIT && !(n2 == node && k2 == k) implies #[trigger] self
                                .spec_listeners(n2, k2) == old(self).spec_listeners(n2, k2) by {
                                if slot_key(n2, k2) == slot_key(node, k) {
                                    lemma_slot_key_injective(n2, k2, node, k);
                                }
                            }
                        }
                        Ok(())
                    },
                }
            },
        }
    }

    /// A copy of the slot contents, in registration order.
    pub fn listeners_of(&self, node: u64, k: EventKind) -> (r: Vec<u64>)
        requires
            node < NODE_ID_LIMIT,
        ensures
            r@ == self.spec_listeners(node, k),
    {
        let key = node * 32 + (k.discriminant() as u64);
        proof {
            crate::events::lemma_discriminant_bound(k);
        }
        match self.map.get(&key) {
            None => Vec::new(),
            Some(v) => {
                let mut out: Vec<u64> = Vec::new();
                let mut j: usize = 0;
                while j < v.len()
                    invariant
                        j <= v.len(),
                        out@ == v@.take(j as int),
                    decreases v.len() - j,
                {
                    out.push(v[j]);
                    j += 1;
                }
                proof {
                    assert(v@.take(v@.len() as int) =~= v@);
                }
                out
            },
        }
    }
}

/// Registering a callback and then removing it leaves the slot without that
/// callback: removal deletes every entry equal to it, including the one just
/// appended.
pub proof fn lemma_add_then_remove_clears(slot: Seq<u64>, callback: u64)
    ensures
        !remove_all(slot.push(callback), callback).contains(callback),
{
    lemma_remove_all_no_callback(slot.push(callback), callback);
}

} // verus!
