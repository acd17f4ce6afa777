//! What holds of the operations of the store, whatever the collection and
//! whatever the arguments. Each statement is over the model of the
//! collection that the contracts of the operations use.

use crate::model::{
    created, decoded, deleted, distinct_ids, encoded, has_id, lemma_created_well_formed,
    lemma_decoded_encoded, lemma_deleted_well_formed, lemma_max_id, lemma_max_id_is,
    lemma_position, max_id, next_id, position, restored, updated, well_formed,
};
use crate::status::Status;
use crate::todo::TodoView;
use crate::todo::UpdateTodoView;
use vstd::prelude::*;

verus! {

/// `todos` after one item was created for each title of `titles`, in that
/// order.
pub open spec fn created_all(todos: Seq<TodoView>, titles: Seq<Seq<char>>) -> Seq<TodoView>
    decreases titles.len(),
{
    if titles.len() == 0 {
        todos
    } else {
        created(created_all(todos, titles.drop_last()), titles.last())
    }
}

/// Creating items one after another gives each a new identifier: the items
/// that were there stay as they were, every new identifier is larger than
/// all that came before it, and so no two of the new items, and no new and
/// old item, share one. A collection without shared identifiers stays so.
pub proof fn lemma_created_ids_distinct(todos: Seq<TodoView>, titles: Seq<Seq<char>>)
    ensures
        created_all(todos, titles).len() == todos.len() + titles.len(),
        forall|i: int| 0 <= i < todos.len() ==> (#[trigger] created_all(todos, titles)[i]) == todos[i],
        forall|i: int, j: int|
            0 <= i < j < created_all(todos, titles).len() && todos.len() <= j ==> (
            #[trigger] created_all(todos, titles)[i]).id < (#[trigger] created_all(
                todos,
                titles,
            )[j]).id,
        distinct_ids(todos) ==> distinct_ids(created_all(todos, titles)),
        well_formed(todos) ==> well_formed(created_all(todos, titles)),
    decreases titles.len(),
{
    if titles.len() > 0 {
        let before = created_all(todos, titles.drop_last());
        let after = created_all(todos, titles);
        lemma_created_ids_distinct(todos, titles.drop_last());
        lemma_max_id(before);
        assert(after == before.push(TodoView::fresh(next_id(before), titles.last())));
        assert forall|i: int| 0 <= i < todos.len() implies (#[trigger] after[i]) == todos[i] by {
            assert(after[i] == before[i]);
        }
        assert forall|i: int, j: int|
            0 <= i < j < after.len() && todos.len() <= j implies (#[trigger] after[i]).id < (
        #[trigger] after[j]).id by {
            assert(after[i] == before[i]);
            if j < before.len() {
                assert(after[j] == before[j]);
                assert(before[i].id < before[j].id);
            } else {
                assert(before[i].id <= max_id(before));
            }
        }
        if distinct_ids(todos) {
            assert forall|i: int, j: int| 0 <= i < j < after.len() implies (
            #[trigger] after[i]).id != (#[trigger] after[j]).id by {
                if j < todos.len() {
                    assert(after[i] == todos[i]);
                    assert(after[j] == todos[j]);
                }
            }
        }
        if well_formed(todos) {
            lemma_created_well_formed(before, titles.last());
        }
    }
}

/// The first item of an empty collection gets the identifier 1.
pub proof fn lemma_first_id_is_one(title: Seq<char>)
    ensures
        next_id(Seq::<TodoView>::empty()) == 1,
        created(Seq::<TodoView>::empty(), title).last().id == 1,
{
}

/// Where `largest` is the largest identifier in use, the next item gets
/// `largest + 1`, however many items there are and whatever smaller
/// identifiers are free.
pub proof fn lemma_next_id_follows_largest(todos: Seq<TodoView>, largest: nat, title: Seq<char>)
    requires
        has_id(todos, largest),
        forall|i: int| 0 <= i < todos.len() ==> (#[trigger] todos[i]).id <= largest,
    ensures
        next_id(todos) == largest + 1,
        created(todos, title).last().id == largest + 1,
{
    lemma_max_id_is(todos, largest);
}

/// An update changes the one item it names, and of that item only the
/// fields it gives: the identifier, the title and every field that is not
/// given stay as they were, and so does every other item.
pub proof fn lemma_update_changes_given_fields_only(
    todos: Seq<TodoView>,
    id: nat,
    update: UpdateTodoView,
)
    requires
        has_id(todos, id),
    ensures
        ({
            let at = position(todos, id);
            let after = updated(todos, id, update);
            &&& 0 <= at < todos.len()
            &&& after.len() == todos.len()
            &&& after[at].id == id
            &&& after[at].title == todos[at].title
            &&& update.status matches Some(status) ==> after[at].status == status
            &&& update.status is None ==> after[at].status == todos[at].status
            &&& update.description matches Some(text) ==> after[at].description == text
            &&& update.description is None ==> after[at].description == todos[at].description
            &&& update.start_date matches Some(text) ==> after[at].start_date == text
            &&& update.start_date is None ==> after[at].start_date == todos[at].start_date
            &&& update.end_date matches Some(text) ==> after[at].end_date == text
            &&& update.end_date is None ==> after[at].end_date == todos[at].end_date
            &&& forall|i: int|
                0 <= i < todos.len() && i != at ==> (#[trigger] after[i]) == todos[i]
        }),
{
    lemma_position(todos, id);
}

/// An update that gives only a status sets the status and leaves the
/// description and both dates as they were.
pub proof fn lemma_status_only_update(todos: Seq<TodoView>, id: nat, status: Status)
    requires
        has_id(todos, id),
    ensures
        ({
            let update = UpdateTodoView {
                status: Some(status),
                description: None,
                start_date: None,
                end_date: None,
            };
            let at = position(todos, id);
            let after = updated(todos, id, update);
            &&& after[at].status == status
            &&& after[at].description == todos[at].description
            &&& after[at].start_date == todos[at].start_date
            &&& after[at].end_date == todos[at].end_date
            &&& after[at].title == todos[at].title
            &&& after[at].id == todos[at].id
        }),
{
    lemma_position(todos, id);
}

/// An update of an identifier that no item has leaves the collection as it
/// was, whatever the update gives.
pub proof fn lemma_update_missing_changes_nothing(
    todos: Seq<TodoView>,
    id: nat,
    update: UpdateTodoView,
)
    requires
        !has_id(todos, id),
    ensures
        updated(todos, id, update) == todos,
{
}

/// Deleting an identifier that is in use takes out one item, the first that
/// has it: the collection is shorter by 1, and every other item is still
/// there, in the same order.
pub proof fn lemma_delete_removes_one(todos: Seq<TodoView>, id: nat)
    requires
        has_id(todos, id),
    ensures
        ({
            let at = position(todos, id);
            let after = deleted(todos, id);
            &&& 0 <= at < todos.len()
            &&& todos[at].id == id
            &&& after.len() == todos.len() - 1
            &&& forall|i: int| 0 <= i < at ==> (#[trigger] after[i]) == todos[i]
            &&& forall|i: int| at <= i < after.len() ==> (#[trigger] after[i]) == todos[i + 1]
        }),
        well_formed(todos) ==> !has_id(deleted(todos, id), id),
{
    lemma_position(todos, id);
    if well_formed(todos) {
        lemma_deleted_well_formed(todos, id);
    }
}

/// Deleting an identifier that no item has leaves the collection, and so
/// its size, as it was.
pub proof fn lemma_delete_missing_changes_nothing(todos: Seq<TodoView>, id: nat)
    requires
        !has_id(todos, id),
    ensures
        deleted(todos, id) == todos,
{
}

/// The records of a well-formed collection hold that collection: reading
/// them back gives the same items, field for field and in the same order.
pub proof fn lemma_records_round_trip(todos: Seq<TodoView>)
    requires
        well_formed(todos),
    ensures
        decoded(encoded(todos)) == Some(todos),
        restored(encoded(todos)) == Some(todos),
{
    lemma_decoded_encoded(todos);
}

} // verus!
