//! The store: the one owner of the collection.

use crate::error::StoreError;
use crate::model::{
    created, decoded, deleted, encoded, has_id, lemma_created_well_formed,
    lemma_deleted_well_formed, lemma_position, lemma_position_is, lemma_updated_well_formed,
    max_id, next_id, position, restored, updated, well_formed,
};
use crate::todo::Todo;
use crate::todo::TodoRecord;
use crate::todo::TodoRecordView;
use crate::todo::TodoView;
use crate::todo::UpdateTodo;
use vstd::prelude::*;

verus! {

/// The values of a sequence of items.
pub open spec fn todo_views(todos: Seq<Todo>) -> Seq<TodoView> {
    todos.map_values(|todo: Todo| todo@)
}

/// The values of a sequence of records.
pub open spec fn record_views(records: Seq<TodoRecord>) -> Seq<TodoRecordView> {
    records.map_values(|record: TodoRecord| record@)
}

/// The collection of to-do items, in the order in which they were added.
///
/// Every operation takes the store by reference, so the borrow rules give
/// each one the collection to itself from its first step to its last. To
/// share a store between threads, put it behind a lock and hold the lock
/// for the whole of an operation and of the write that follows it.
pub struct TodoStore {
    todos: Vec<Todo>,
}

impl View for TodoStore {
    type V = Seq<TodoView>;

    closed spec fn view(&self) -> Seq<TodoView> {
        todo_views(self.todos@)
    }
}

impl TodoStore {
    /// Identifiers in the store are positive and no two items share one.
    /// Every store that this library hands out is so, and every operation
    /// keeps it so.
    pub open spec fn wf(&self) -> bool {
        well_formed(self@)
    }

    /// An empty store.
    pub fn new() -> (store: TodoStore)
        ensures
            store@ == Seq::<TodoView>::empty(),
            store.wf(),
    {
        TodoStore { todos: Vec::new() }
    }

    /// The store that a document of `records` holds. A document in which a
    /// status is not one of the three known texts, an identifier is 0, or
    /// two records share an identifier holds none: that is
    /// `MalformedPersistedData`.
    pub fn restore(records: &[TodoRecord]) -> (result: Result<TodoStore, StoreError>)
        ensures
            match restored(record_views(records@)) {
                Some(todos) => result matches Ok(store) && store@ == todos && store.wf(),
                None => result matches Err(error) && error == StoreError::MalformedPersistedData,
            },
    {
        let ghost all = record_views(records@);
        let mut store = TodoStore::new();
        let mut i: usize = 0;
        while i < records.len()
            invariant
                i <= records.len(),
                all == record_views(records@),
                store.wf(),
                decoded(all.take(i as int)) == Some(store@),
            decreases records.len() - i,
        {
            let ghost seen = all.take(i as int);
            assert(forall|k: int| 0 <= k < i ==> (#[trigger] seen[k]).todo() is Some);
            match Todo::from_record(&records[i]) {
                None => {
                    assert(all[i as int].todo() is None);
                    return Err(StoreError::MalformedPersistedData);
                },
                Some(todo) => {
                    let at = store.find(todo.id);
                    if todo.id == 0 || at < store.todos.len() {
                        proof {
                            if decoded(all) is Some {
                                let whole = decoded(all).unwrap();
                                assert(whole[i as int] == todo@);
                                if todo.id != 0 {
                                    assert(all[at as int] == seen[at as int]);
                                    assert(whole[at as int] == store@[at as int]);
                                    assert(whole[at as int].id == whole[i as int].id);
                                }
                            }
                        }
                        return Err(StoreError::MalformedPersistedData);
                    }
                    let ghost before = store@;
                    let ghost after = store@.push(todo@);
                    proof {
                        let grown = all.take(i + 1);
                        assert forall|k: int| 0 <= k < grown.len() implies (
                        #[trigger] grown[k]).todo() is Some by {
                            if k < i {
                                assert(grown[k] == seen[k]);
                            }
                        }
                        assert(decoded(grown).unwrap() =~= after);
                        assert forall|a: int, b: int| 0 <= a < b < after.len() implies (
                        #[trigger] after[a]).id != (#[trigger] after[b]).id by {
                            assert(after[a] == before[a]);
                            if b < before.len() {
                                assert(after[b] == before[b]);
                            }
                        }
                        assert forall|a: int| 0 <= a < after.len() implies (
                        #[trigger] after[a]).id >= 1 by {
                            if a < before.len() {
                                assert(after[a] == before[a]);
                            }
                        }
                    }
                    store.todos.push(todo);
                    assert(store@ =~= after);
                },
            }
            i += 1;
        }
        assert(all.take(i as int) =~= all);
        Ok(store)
    }

    /// The records that stand for the collection in a document, one for
    /// each item and in the same order. Writing them out in full after
    /// every change keeps the document equal to the collection.
    pub fn records(&self) -> (records: Vec<TodoRecord>)
        ensures
            record_views(records@) == encoded(self@),
    {
        let mut records: Vec<TodoRecord> = Vec::new();
        let mut i: usize = 0;
        while i < self.todos.len()
            invariant
                i <= self.todos.len(),
                records.len() == i,
                record_views(records@) == encoded(self@.take(i as int)),
            decreases self.todos.len() - i,
        {
            let ghost before = records@;
            let record = self.todos[i].to_record();
            assert(record@ == self@[i as int].record());
            records.push(record);
            i += 1;
            assert forall|k: int| 0 <= k < i implies (#[trigger] record_views(records@)[k])
                == encoded(self@.take(i as int))[k] by {
                if k < i - 1 {
                    assert(records@[k] == before[k]);
                    assert(record_views(before)[k] == encoded(self@.take(i - 1))[k]);
                }
            }
            assert(record_views(records@) =~= encoded(self@.take(i as int)));
        }
        assert(self@.take(i as int) =~= self@);
        records
    }

    /// The index of the first item with the identifier `id`, or the number
    /// of items if there is none.
    fn find(&self, id: u32) -> (at: usize)
        ensures
            at == position(self@, id as nat),
            at <= self.todos.len(),
            at < self.todos.len() <==> has_id(self@, id as nat),
            at < self.todos.len() ==> self@[at as int].id == id as nat,
    {
        let mut at: usize = 0;
        while at < self.todos.len()
            invariant
                at <= self.todos.len(),
                forall|j: int| 0 <= j < at ==> (#[trigger] self@[j]).id != id as nat,
            decreases self.todos.len() - at,
        {
            if self.todos[at].id == id {
                proof {
                    lemma_position_is(self@, id as nat, at as int);
                }
                return at;
            }
            at += 1;
        }
        proof {
            lemma_position(self@, id as nat);
            if position(self@, id as nat) < self@.len() {
                assert(self@[position(self@, id as nat)].id == id as nat);
            }
        }
        at
    }

    /// The largest identifier in the store, or 0 if the store is empty.
    fn highest_id(&self) -> (highest: u32)
        ensures
            highest == max_id(self@),
    {
        let mut highest: u32 = 0;
        let mut i: usize = 0;
        while i < self.todos.len()
            invariant
                i <= self.todos.len(),
                highest == max_id(self@.take(i as int)),
            decreases self.todos.len() - i,
        {
            assert(self@.take(i + 1).drop_last() =~= self@.take(i as int));
            if self.todos[i].id > highest {
                highest = self.todos[i].id;
            }
            i += 1;
        }
        assert(self@.take(i as int) =~= self@);
        highest
    }

    /// The number of items in the store.
    pub fn len(&self) -> (len: usize)
        ensures
            len == self@.len(),
    {
        self.todos.len()
    }

    /// A copy of every item, in the order in which the items were added.
    /// The store is not changed.
    pub fn get_todos(&self) -> (todos: Vec<Todo>)
        ensures
            todo_views(todos@) == self@,
    {
        let mut todos: Vec<Todo> = Vec::new();
        let mut i: usize = 0;
        while i < self.todos.len()
            invariant
                i <= self.todos.len(),
                todos@ == self.todos@.take(i as int),
            decreases self.todos.len() - i,
        {
            todos.push(self.todos[i].clone());
            i += 1;
            assert(todos@ =~= self.todos@.take(i as int));
        }
        assert(self.todos@.take(i as int) =~= self.todos@);
        todos
    }

    /// A copy of the item `id`, or `NotFound` if no item has that
    /// identifier. The store is not changed.
    pub fn get_todo_by_id(&self, id: u32) -> (result: Result<Todo, StoreError>)
        ensures
            match result {
                Ok(todo) => has_id(self@, id as nat) && todo@ == self@[position(
                    self@,
                    id as nat,
                )],
                Err(error) => error == StoreError::NotFound && !has_id(self@, id as nat),
            },
    {
        let at = self.find(id);
        if at < self.todos.len() {
            Ok(self.todos[at].clone())
        } else {
            Err(StoreError::NotFound)
        }
    }

    /// The identifier that the next new item gets: one more than the
    /// largest in the store, so 1 in an empty store. `None` once the
    /// largest identifier that fits has been given out.
    pub fn next_id(&self) -> (id: Option<u32>)
        ensures
            match id {
                Some(id) => id == next_id(self@),
                None => next_id(self@) > u32::MAX,
            },
    {
        self.highest_id().checked_add(1)
    }

    /// Creates an item with the title `title` and adds it at the end. The
    /// item gets the next identifier, has not been started, and has no
    /// description and no dates. Returns a copy of it.
    ///
    /// The next identifier must fit: `next_id` tells.
    pub fn add_todo(&mut self, title: String) -> (todo: Todo)
        requires
            next_id(old(self)@) <= u32::MAX,
        ensures
            old(self).wf() ==> final(self).wf(),
            final(self)@ == created(old(self)@, title@),
            todo@ == TodoView::fresh(next_id(old(self)@), title@),
    {
        let id = self.highest_id() + 1;
        let todo = Todo::new(id, title);
        let copy = todo.clone();
        proof {
            if self.wf() {
                lemma_created_well_formed(self@, title@);
            }
        }
        self.todos.push(todo);
        assert(self@ =~= created(old(self)@, title@));
        copy
    }

    /// Deletes the item `id`; the other items keep their order. `NotFound`,
    /// with the collection untouched, if no item has that identifier.
    pub fn delete_todo(&mut self, id: u32) -> (result: Result<(), StoreError>)
        ensures
            old(self).wf() ==> final(self).wf(),
            final(self)@ == deleted(old(self)@, id as nat),
            match result {
                Ok(_) => has_id(old(self)@, id as nat),
                Err(error) => error == StoreError::NotFound && !has_id(old(self)@, id as nat),
            },
    {
        let at = self.find(id);
        if at < self.todos.len() {
            proof {
                if self.wf() {
                    lemma_deleted_well_formed(self@, id as nat);
                }
            }
            self.todos.remove(at);
            assert(self@ =~= deleted(old(self)@, id as nat));
            Ok(())
        } else {
            Err(StoreError::NotFound)
        }
    }

    /// Changes the item `id` as `update` says: a field that is given
    /// replaces the item's, a field that is not given stays. Returns the
    /// item as it is afterwards, or `NotFound`, with the collection
    /// untouched, if no item has that identifier.
    pub fn update_todo(&mut self, id: u32, update: &UpdateTodo) -> (result: Result<
        Todo,
        StoreError,
    >)
        ensures
            old(self).wf() ==> final(self).wf(),
            final(self)@ == updated(old(self)@, id as nat, update@),
            match result {
                Ok(todo) => has_id(old(self)@, id as nat) && todo@ == update@.apply(
                    old(self)@[position(old(self)@, id as nat)],
                ),
                Err(error) => error == StoreError::NotFound && !has_id(old(self)@, id as nat),
            },
    {
        let at = self.find(id);
        if at < self.todos.len() {
            update.apply(&mut self.todos[at]);
            let todo = self.todos[at].clone();
            proof {
                if old(self).wf() {
                    lemma_updated_well_formed(old(self)@, id as nat, update@);
                }
                assert(self@ =~= updated(old(self)@, id as nat, update@));
            }
            Ok(todo)
        } else {
            Err(StoreError::NotFound)
        }
    }
}

} // verus!
