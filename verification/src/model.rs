//! The collection as a sequence of item values, in the order in which the
//! items were added, and what each operation of the store makes of it.

use crate::todo::lemma_record_round_trip;
use crate::todo::TodoRecordView;
use crate::todo::TodoView;
use crate::todo::UpdateTodoView;
use vstd::prelude::*;

verus! {

/// Some item of `todos` has the identifier `id`.
pub open spec fn has_id(todos: Seq<TodoView>, id: nat) -> bool {
    exists|i: int| 0 <= i < todos.len() && (#[trigger] todos[i]).id == id
}

/// The index of the first item of `todos` with the identifier `id`, or the
/// length of `todos` if there is none.
pub open spec fn position(todos: Seq<TodoView>, id: nat) -> int
    decreases todos.len(),
{
    if todos.len() == 0 {
        0
    } else if todos[0].id == id {
        0
    } else {
        1 + position(todos.drop_first(), id)
    }
}

/// The largest identifier in `todos`, or 0 if `todos` is empty.
pub open spec fn max_id(todos: Seq<TodoView>) -> nat
    decreases todos.len(),
{
    if todos.len() == 0 {
        0
    } else {
        let before = max_id(todos.drop_last());
        if todos.last().id > before {
            todos.last().id
        } else {
            before
        }
    }
}

/// No two items of `todos` share an identifier.
pub open spec fn distinct_ids(todos: Seq<TodoView>) -> bool {
    forall|i: int, j: int|
        0 <= i < j < todos.len() ==> (#[trigger] todos[i]).id != (#[trigger] todos[j]).id
}

/// Every identifier in `todos` is at least 1.
pub open spec fn positive_ids(todos: Seq<TodoView>) -> bool {
    forall|i: int| 0 <= i < todos.len() ==> (#[trigger] todos[i]).id >= 1
}

/// What holds of the collection at all times: identifiers are positive and
/// no two items share one.
pub open spec fn well_formed(todos: Seq<TodoView>) -> bool {
    distinct_ids(todos) && positive_ids(todos)
}

/// The identifier that the next new item gets: one more than the largest
/// in use, so 1 in an empty collection.
pub open spec fn next_id(todos: Seq<TodoView>) -> nat {
    max_id(todos) + 1
}

/// `todos` after an item with the title `title` was created: the new item
/// stands last.
pub open spec fn created(todos: Seq<TodoView>, title: Seq<char>) -> Seq<TodoView> {
    todos.push(TodoView::fresh(next_id(todos), title))
}

/// `todos` after `update` was applied to the item `id`: that item is
/// changed in place, and nothing happens if there is no such item.
pub open spec fn updated(todos: Seq<TodoView>, id: nat, update: UpdateTodoView) -> Seq<
    TodoView,
> {
    if has_id(todos, id) {
        let at = position(todos, id);
        todos.update(at, update.apply(todos[at]))
    } else {
        todos
    }
}

/// `todos` after the item `id` was deleted: the others keep their order,
/// and nothing happens if there is no such item.
pub open spec fn deleted(todos: Seq<TodoView>, id: nat) -> Seq<TodoView> {
    if has_id(todos, id) {
        todos.remove(position(todos, id))
    } else {
        todos
    }
}

/// The records that stand for `todos` in a document, in the same order.
pub open spec fn encoded(todos: Seq<TodoView>) -> Seq<TodoRecordView> {
    todos.map_values(|todo: TodoView| todo.record())
}

/// The items that `records` stand for, in the same order, if every record
/// stands for one.
pub open spec fn decoded(records: Seq<TodoRecordView>) -> Option<Seq<TodoView>> {
    if forall|i: int| 0 <= i < records.len() ==> (#[trigger] records[i]).todo() is Some {
        Some(records.map_values(|record: TodoRecordView| record.todo().unwrap()))
    } else {
        None
    }
}

/// The collection that a document of `records` holds, if it holds one:
/// every record stands for an item, and the items are well formed.
pub open spec fn restored(records: Seq<TodoRecordView>) -> Option<Seq<TodoView>> {
    match decoded(records) {
        Some(todos) => if well_formed(todos) {
            Some(todos)
        } else {
            None
        },
        None => None,
    }
}

/// `position` finds the first item with the identifier, and runs to the end
/// exactly when there is none.
pub proof fn lemma_position(todos: Seq<TodoView>, id: nat)
    ensures
        0 <= position(todos, id) <= todos.len(),
        has_id(todos, id) <==> position(todos, id) < todos.len(),
        has_id(todos, id) ==> todos[position(todos, id)].id == id,
        forall|j: int| 0 <= j < position(todos, id) ==> (#[trigger] todos[j]).id != id,
    decreases todos.len(),
{
    if todos.len() == 0 {
    } else if todos[0].id == id {
    } else {
        let rest = todos.drop_first();
        lemma_position(rest, id);
        assert forall|j: int| 0 <= j < position(todos, id) implies (#[trigger] todos[j]).id
            != id by {
            if j > 0 {
                assert(todos[j] == rest[j - 1]);
            }
        }
        if has_id(todos, id) {
            let k = choose|k: int| 0 <= k < todos.len() && (#[trigger] todos[k]).id == id;
            assert(rest[k - 1] == todos[k]);
        }
        if has_id(rest, id) {
            let k = choose|k: int| 0 <= k < rest.len() && (#[trigger] rest[k]).id == id;
            assert(todos[k + 1] == rest[k]);
        }
    }
}

/// The first index that holds the identifier is its position.
pub proof fn lemma_position_is(todos: Seq<TodoView>, id: nat, at: int)
    requires
        0 <= at < todos.len(),
        todos[at].id == id,
        forall|j: int| 0 <= j < at ==> (#[trigger] todos[j]).id != id,
    ensures
        position(todos, id) == at,
        has_id(todos, id),
{
    lemma_position(todos, id);
    let found = position(todos, id);
    if found < at {
        assert(todos[found].id == id);
    } else if found > at {
        assert(todos[at].id == id);
    }
}

/// `max_id` is an upper bound of the identifiers, and one of them unless
/// the collection is empty.
pub proof fn lemma_max_id(todos: Seq<TodoView>)
    ensures
        forall|i: int| 0 <= i < todos.len() ==> (#[trigger] todos[i]).id <= max_id(todos),
        todos.len() == 0 ==> max_id(todos) == 0,
        todos.len() > 0 ==> has_id(todos, max_id(todos)),
    decreases todos.len(),
{
    if todos.len() > 0 {
        let front = todos.drop_last();
        lemma_max_id(front);
        assert forall|i: int| 0 <= i < todos.len() implies (#[trigger] todos[i]).id <= max_id(
            todos,
        ) by {
            if i < front.len() {
                assert(todos[i] == front[i]);
            }
        }
        if todos.last().id > max_id(front) {
            assert(todos[todos.len() - 1].id == max_id(todos));
        } else if front.len() > 0 {
            let k = choose|k: int| 0 <= k < front.len() && (#[trigger] front[k]).id == max_id(front);
            assert(todos[k] == front[k]);
        } else {
            assert(todos[todos.len() - 1].id == max_id(todos));
        }
    }
}

/// An identifier that is in use and that no other exceeds is `max_id`.
pub proof fn lemma_max_id_is(todos: Seq<TodoView>, largest: nat)
    requires
        has_id(todos, largest),
        forall|i: int| 0 <= i < todos.len() ==> (#[trigger] todos[i]).id <= largest,
    ensures
        max_id(todos) == largest,
{
    lemma_max_id(todos);
    let k = choose|k: int| 0 <= k < todos.len() && (#[trigger] todos[k]).id == largest;
    assert(todos[k].id <= max_id(todos));
    let m = choose|m: int| 0 <= m < todos.len() && (#[trigger] todos[m]).id == max_id(todos);
    assert(todos[m].id <= largest);
}

/// Creation keeps the collection well formed: the new identifier exceeds
/// every one in use.
pub proof fn lemma_created_well_formed(todos: Seq<TodoView>, title: Seq<char>)
    requires
        well_formed(todos),
    ensures
        well_formed(created(todos, title)),
        !has_id(todos, next_id(todos)),
{
    lemma_max_id(todos);
    let after = created(todos, title);
    assert forall|i: int, j: int| 0 <= i < j < after.len() implies (#[trigger] after[i]).id != (
    #[trigger] after[j]).id by {
        assert(after[i] == todos[i]);
        if j < todos.len() {
            assert(after[j] == todos[j]);
        }
    }
    assert forall|i: int| 0 <= i < after.len() implies (#[trigger] after[i]).id >= 1 by {
        if i < todos.len() {
            assert(after[i] == todos[i]);
        }
    }
}

/// An update changes no identifier, so it keeps the collection well formed.
pub proof fn lemma_updated_well_formed(todos: Seq<TodoView>, id: nat, update: UpdateTodoView)
    requires
        well_formed(todos),
    ensures
        well_formed(updated(todos, id, update)),
        updated(todos, id, update).len() == todos.len(),
        forall|i: int|
            0 <= i < todos.len() ==> (#[trigger] updated(todos, id, update)[i]).id == todos[i].id,
{
    lemma_position(todos, id);
    let after = updated(todos, id, update);
    assert forall|i: int| 0 <= i < todos.len() implies (#[trigger] after[i]).id
        == todos[i].id by {}
    assert forall|i: int, j: int| 0 <= i < j < after.len() implies (#[trigger] after[i]).id != (
    #[trigger] after[j]).id by {
        assert(after[i].id == todos[i].id);
        assert(after[j].id == todos[j].id);
    }
    assert forall|i: int| 0 <= i < after.len() implies (#[trigger] after[i]).id >= 1 by {
        assert(after[i].id == todos[i].id);
    }
}

/// Deletion keeps the collection well formed, and the identifier is gone
/// afterwards.
pub proof fn lemma_deleted_well_formed(todos: Seq<TodoView>, id: nat)
    requires
        well_formed(todos),
    ensures
        well_formed(deleted(todos, id)),
        !has_id(deleted(todos, id), id),
{
    lemma_position(todos, id);
    let after = deleted(todos, id);
    if has_id(todos, id) {
        let at = position(todos, id);
        assert forall|i: int, j: int| 0 <= i < j < after.len() implies (#[trigger] after[i]).id
            != (#[trigger] after[j]).id by {
            let from_i = if i < at { i } else { i + 1 };
            let from_j = if j < at { j } else { j + 1 };
            assert(after[i] == todos[from_i]);
            assert(after[j] == todos[from_j]);
        }
        assert forall|i: int| 0 <= i < after.len() implies (#[trigger] after[i]).id >= 1 by {
            let from_i = if i < at { i } else { i + 1 };
            assert(after[i] == todos[from_i]);
        }
        if has_id(after, id) {
            let k = choose|k: int| 0 <= k < after.len() && (#[trigger] after[k]).id == id;
            let from_k = if k < at { k } else { k + 1 };
            assert(after[k] == todos[from_k]);
            if from_k < at {
                assert(todos[from_k].id != todos[at].id);
            } else {
                assert(todos[at].id != todos[from_k].id);
            }
        }
    }
}

/// Reading back the records of a collection gives that collection.
pub proof fn lemma_decoded_encoded(todos: Seq<TodoView>)
    ensures
        decoded(encoded(todos)) == Some(todos),
{
    let records = encoded(todos);
    assert forall|i: int| 0 <= i < records.len() implies (#[trigger] records[i]).todo() == Some(
        todos[i],
    ) by {
        lemma_record_round_trip(todos[i]);
    }
    assert(records.map_values(|record: TodoRecordView| record.todo().unwrap()) =~= todos);
}

} // verus!
