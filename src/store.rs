use std::collections::HashMap;
use vstd::prelude::*;
use vstd::std_specs::hash::group_hash_axioms;

use crate::item::{TodoItem, TodoRecord};

verus! {

broadcast use group_hash_axioms;

/// The mathematical value of a store: each identifier to its record.
pub type StoreView = Map<u128, TodoRecord>;

/// The todo records of the service, keyed by identifier.
///
/// Callers that share a store between threads hold it under one lock, so
/// that each operation runs whole before the next one starts.
pub struct TodoStore {
    items: HashMap<u128, TodoItem>,
}

impl View for TodoStore {
    type V = StoreView;

    closed spec fn view(&self) -> StoreView {
        self.items@.map_values(|v: TodoItem| v@)
    }
}

impl TodoStore {
    /// Each record is stored under its own identifier.
    pub closed spec fn wf(&self) -> bool {
        forall|k: u128| #[trigger] self.items@.contains_key(k) ==> self.items@[k].id == k
    }

    /// An empty store.
    pub fn new() -> (r: TodoStore)
        ensures
            r.wf(),
            r@ == Map::<u128, TodoRecord>::empty(),
    {
        let r = TodoStore { items: HashMap::new() };
        assert(r@ =~= Map::<u128, TodoRecord>::empty());
        r
    }

    /// Stores `item` under its identifier, replacing whatever was there.
    pub fn add(&mut self, item: TodoItem)
        requires
            old(self).wf(),
        ensures
            final(self).wf(),
            final(self)@ == old(self)@.insert(item.id, item@),
    {
        let ghost rec = item@;
        let id = item.id;
        let _ = self.items.insert(id, item);
        assert(self@ =~= old(self)@.insert(id, rec));
    }

    /// A copy of the record under `id`, if there is one.
    pub fn get(&self, id: u128) -> (r: Option<TodoItem>)
        requires
            self.wf(),
        ensures
            match r {
                Some(it) => self@.contains_key(id) && it@ == self@[id] && it.id == id,
                None => !self@.contains_key(id),
            },
    {
        match self.items.get(&id) {
            Some(it) => Some(it.duplicate()),
            None => None,
        }
    }

    /// Takes the record under `id` out of the store and hands it back.
    pub fn remove(&mut self, id: u128) -> (r: Option<TodoItem>)
        requires
            old(self).wf(),
        ensures
            final(self).wf(),
            final(self)@ == old(self)@.remove(id),
            match r {
                Some(it) => old(self)@.contains_key(id) && it@ == old(self)@[id],
                None => !old(self)@.contains_key(id),
            },
    {
        let r = self.items.remove(&id);
        assert(self@ =~= old(self)@.remove(id));
        r
    }

    /// Stores `item` under `id` whether or not a record was there, and
    /// hands back the record it replaced.
    pub fn update(&mut self, id: u128, item: TodoItem) -> (r: Option<TodoItem>)
        requires
            old(self).wf(),
            item.id == id,
        ensures
            final(self).wf(),
            final(self)@ == old(self)@.insert(id, item@),
            match r {
                Some(it) => old(self)@.contains_key(id) && it@ == old(self)@[id],
                None => !old(self)@.contains_key(id),
            },
    {
        let ghost rec = item@;
        let r = self.items.insert(id, item);
        assert(self@ =~= old(self)@.insert(id, rec));
        r
    }
}

} // verus!
