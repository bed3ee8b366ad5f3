//! The selector registry: stable addresses for otherwise-anonymous elements.
//!
//! Each wrapped element gets an opaque numeric identity once, at wrap time,
//! and keeps the same selector for the life of the process. The registry is
//! the table behind that: identity to selector, abstracted as a
//! `Map<u64, String>`. It also hands out the fresh identities, so an
//! identity is never reused while the registry lives.

use std::collections::HashMap;

use vstd::prelude::*;

verus! {

broadcast use vstd::std_specs::hash::group_hash_axioms;

/// The table from element identity to selector, plus the next identity to
/// hand out.
pub struct SelectorRegistry {
    table: HashMap<u64, String>,
    next: u64,
}

impl View for SelectorRegistry {
    type V = Map<u64, String>;

    closed spec fn view(&self) -> Map<u64, String> {
        self.table@
    }
}

impl SelectorRegistry {
    /// The identity the next wrap will receive.
    pub closed spec fn spec_next(&self) -> u64 {
        self.next
    }

    /// Every identity handed out so far lies below `spec_next`, so a fresh
    /// identity never collides with a registered one.
    pub open spec fn wf(&self) -> bool {
        forall|k: u64| self@.contains_key(k) ==> k < self.spec_next()
    }

    pub fn new() -> (r: Self)
        ensures
            r.wf(),
            r@ == Map::<u64, String>::empty(),
            r.spec_next() == 0,
    {
        SelectorRegistry { table: HashMap::new(), next: 0 }
    }

    /// Stores the mapping for `id`, overwriting any prior value: registering
    /// the same pair twice leaves the table as one registration did.
    pub fn register(&mut self, id: u64, selector: String)
        requires
            old(self).wf(),
            id < u64::MAX,
        ensures
            final(self).wf(),
            final(self)@ == old(self)@.insert(id, selector),
            final(self).spec_next() == if id >= old(self).spec_next() {
                id + 1
            } else {
                old(self).spec_next() as int
            },
    {
        self.table.insert(id, selector);
        if id >= self.next {
            self.next = id + 1;
        }
        proof {
            assert forall|k: u64| self@.contains_key(k) implies k < self.spec_next() by {
                if k != id {
                    assert(old(self)@.contains_key(k));
                }
            }
        }
    }

    /// The identity the next wrap will receive; always ahead of every
    /// identity handed out so far.
    pub fn next_id(&self) -> (r: u64)
        ensures
            r == self.spec_next(),
    {
        self.next
    }

    /// The selector registered for `id`, or nothing for an element that was
    /// never wrapped.
    pub fn lookup(&self, id: u64) -> (r: Option<String>)
        ensures
            self@.contains_key(id) ==> r == Some(self@[id]),
            !self@.contains_key(id) ==> r is None,
    {
        match self.table.get(&id) {
            Some(selector) => Some(selector.clone()),
            None => None,
        }
    }

    /// Registers `selector` under a fresh identity and returns that identity.
    pub fn wrap(&mut self, selector: String) -> (id: u64)
        requires
            old(self).wf(),
            old(self).spec_next() < u64::MAX,
        ensures
            final(self).wf(),
            id == old(self).spec_next(),
            !old(self)@.contains_key(id),
            final(self)@ == old(self)@.insert(id, selector),
            final(self).spec_next() == id + 1,
    {
        let id = self.next;
        self.register(id, selector);
        id
    }
}

/// Idempotence of registration: registering the same identity with the same
/// selector twice leaves the table — and so every lookup — exactly as the
/// first registration left it.
pub proof fn lemma_register_idempotent(table: Map<u64, String>, id: u64, selector: String)
    ensures
        table.insert(id, selector).insert(id, selector) == table.insert(id, selector),
{
    assert(table.insert(id, selector).insert(id, selector) =~= table.insert(id, selector));
}

} // verus!
