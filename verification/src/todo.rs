//! A to-do item, the changes a caller may ask for, and the flat record that
//! stands for an item in a document.

use crate::status::lemma_status_text_round_trip;
use crate::status::Status;
use vstd::prelude::*;

verus! {

/// One to-do item as the store holds it.
#[derive(Debug, PartialEq, Eq)]
pub struct Todo {
    /// Given by the store when the item is created; never changes.
    pub id: u32,
    /// Set when the item is created; never changes.
    pub title: String,
    pub status: Status,
    pub description: String,
    /// Free text; the store does not look into it.
    pub start_date: String,
    /// Free text; the store does not look into it.
    pub end_date: String,
}

/// The mathematical value of a [`Todo`].
pub struct TodoView {
    pub id: nat,
    pub title: Seq<char>,
    pub status: Status,
    pub description: Seq<char>,
    pub start_date: Seq<char>,
    pub end_date: Seq<char>,
}

impl View for Todo {
    type V = TodoView;

    open spec fn view(&self) -> TodoView {
        TodoView {
            id: self.id as nat,
            title: self.title@,
            status: self.status,
            description: self.description@,
            start_date: self.start_date@,
            end_date: self.end_date@,
        }
    }
}

impl TodoView {
    /// The item that creation yields: not started, with no description and
    /// no dates.
    pub open spec fn fresh(id: nat, title: Seq<char>) -> TodoView {
        TodoView {
            id,
            title,
            status: Status::Todo,
            description: Seq::empty(),
            start_date: Seq::empty(),
            end_date: Seq::empty(),
        }
    }

    /// The record that stands for this item in a document.
    pub open spec fn record(self) -> TodoRecordView {
        TodoRecordView {
            id: self.id,
            title: self.title,
            status: self.status.text(),
            description: self.description,
            start_date: self.start_date,
            end_date: self.end_date,
        }
    }
}

impl Clone for Todo {
    fn clone(&self) -> (copy: Self)
        ensures
            copy == *self,
    {
        Todo {
            id: self.id,
            title: self.title.clone(),
            status: self.status,
            description: self.description.clone(),
            start_date: self.start_date.clone(),
            end_date: self.end_date.clone(),
        }
    }
}

impl Todo {
    /// A new item under `id`: not started, with no description and no dates.
    pub fn new(id: u32, title: String) -> (todo: Todo)
        ensures
            todo@ == TodoView::fresh(id as nat, title@),
    {
        Todo {
            id,
            title,
            status: Status::Todo,
            description: String::new(),
            start_date: String::new(),
            end_date: String::new(),
        }
    }

    /// The record that stands for this item in a document.
    pub fn to_record(&self) -> (record: TodoRecord)
        ensures
            record@ == self@.record(),
    {
        TodoRecord {
            id: self.id,
            title: self.title.clone(),
            status: self.status.as_str().to_owned(),
            description: self.description.clone(),
            start_date: self.start_date.clone(),
            end_date: self.end_date.clone(),
        }
    }

    /// The item that `record` stands for; `None` if its status is not one of
    /// the three known texts.
    pub fn from_record(record: &TodoRecord) -> (todo: Option<Todo>)
        ensures
            match todo {
                Some(t) => record@.todo() == Some(t@),
                None => record@.todo() is None,
            },
    {
        match Status::parse(record.status.as_str()) {
            Some(status) => Some(
                Todo {
                    id: record.id,
                    title: record.title.clone(),
                    status,
                    description: record.description.clone(),
                    start_date: record.start_date.clone(),
                    end_date: record.end_date.clone(),
                },
            ),
            None => None,
        }
    }
}

/// The fields of an item that a caller may change. A field that is `None`
/// is left as it is.
#[derive(Debug, PartialEq, Eq)]
pub struct UpdateTodo {
    pub status: Option<Status>,
    pub description: Option<String>,
    pub start_date: Option<String>,
    pub end_date: Option<String>,
}

/// The mathematical value of an [`UpdateTodo`].
pub struct UpdateTodoView {
    pub status: Option<Status>,
    pub description: Option<Seq<char>>,
    pub start_date: Option<Seq<char>>,
    pub end_date: Option<Seq<char>>,
}

/// The text that an optional string holds.
pub open spec fn text_of(field: Option<String>) -> Option<Seq<char>> {
    match field {
        Some(text) => Some(text@),
        None => None,
    }
}

impl View for UpdateTodo {
    type V = UpdateTodoView;

    open spec fn view(&self) -> UpdateTodoView {
        UpdateTodoView {
            status: self.status,
            description: text_of(self.description),
            start_date: text_of(self.start_date),
            end_date: text_of(self.end_date),
        }
    }
}

impl UpdateTodoView {
    /// The change that these fields ask for, the status given as its text:
    /// there is none if that text is not the text of a status.
    pub open spec fn from_fields(
        status: Option<Seq<char>>,
        description: Option<Seq<char>>,
        start_date: Option<Seq<char>>,
        end_date: Option<Seq<char>>,
    ) -> Option<UpdateTodoView> {
        match status {
            None => Some(UpdateTodoView { status: None, description, start_date, end_date }),
            Some(text) => match Status::from_text(text) {
                Some(status) => Some(
                    UpdateTodoView { status: Some(status), description, start_date, end_date },
                ),
                None => None,
            },
        }
    }

    /// `todo` after the change: each field that is given replaces the
    /// item's, every other field stays. `id` and `title` always stay.
    pub open spec fn apply(self, todo: TodoView) -> TodoView {
        TodoView {
            id: todo.id,
            title: todo.title,
            status: match self.status {
                Some(status) => status,
                None => todo.status,
            },
            description: match self.description {
                Some(text) => text,
                None => todo.description,
            },
            start_date: match self.start_date {
                Some(text) => text,
                None => todo.start_date,
            },
            end_date: match self.end_date {
                Some(text) => text,
                None => todo.end_date,
            },
        }
    }
}

impl UpdateTodo {
    /// A change that changes nothing.
    pub fn none() -> (update: UpdateTodo)
        ensures
            update@ == (UpdateTodoView {
                status: None,
                description: None,
                start_date: None,
                end_date: None,
            }),
    {
        UpdateTodo { status: None, description: None, start_date: None, end_date: None }
    }

    /// The change that a request with these fields asks for. A status comes
    /// as its text; `None` if one is given that is not one of the three
    /// known texts.
    pub fn from_fields(
        status: Option<String>,
        description: Option<String>,
        start_date: Option<String>,
        end_date: Option<String>,
    ) -> (update: Option<UpdateTodo>)
        ensures
            match update {
                Some(update) => UpdateTodoView::from_fields(
                    text_of(status),
                    text_of(description),
                    text_of(start_date),
                    text_of(end_date),
                ) == Some(update@),
                None => UpdateTodoView::from_fields(
                    text_of(status),
                    text_of(description),
                    text_of(start_date),
                    text_of(end_date),
                ) is None,
            },
    {
        let status = match status {
            Some(text) => match Status::parse(text.as_str()) {
                Some(status) => Some(status),
                None => {
                    return None;
                },
            },
            None => None,
        };
        Some(UpdateTodo { status, description, start_date, end_date })
    }

    /// Writes the given fields into `todo` and leaves the others alone.
    pub fn apply(&self, todo: &mut Todo)
        ensures
            final(todo)@ == self@.apply(old(todo)@),
    {
        if let Some(status) = self.status {
            todo.status = status;
        }
        if let Some(text) = &self.description {
            todo.description = text.clone();
        }
        if let Some(text) = &self.start_date {
            todo.start_date = text.clone();
        }
        if let Some(text) = &self.end_date {
            todo.end_date = text.clone();
        }
    }
}

/// An item as a document holds it: every field a number or a text.
#[derive(Debug, PartialEq, Eq)]
pub struct TodoRecord {
    pub id: u32,
    pub title: String,
    /// `"todo"`, `"in_progress"` or `"completed"` in a sound document.
    pub status: String,
    pub description: String,
    pub start_date: String,
    pub end_date: String,
}

/// The mathematical value of a [`TodoRecord`].
pub struct TodoRecordView {
    pub id: nat,
    pub title: Seq<char>,
    pub status: Seq<char>,
    pub description: Seq<char>,
    pub start_date: Seq<char>,
    pub end_date: Seq<char>,
}

impl View for TodoRecord {
    type V = TodoRecordView;

    open spec fn view(&self) -> TodoRecordView {
        TodoRecordView {
            id: self.id as nat,
            title: self.title@,
            status: self.status@,
            description: self.description@,
            start_date: self.start_date@,
            end_date: self.end_date@,
        }
    }
}

impl TodoRecordView {
    /// The item that this record stands for, if its status is known.
    pub open spec fn todo(self) -> Option<TodoView> {
        match Status::from_text(self.status) {
            Some(status) => Some(
                TodoView {
                    id: self.id,
                    title: self.title,
                    status,
                    description: self.description,
                    start_date: self.start_date,
                    end_date: self.end_date,
                },
            ),
            None => None,
        }
    }
}

/// Reading back the record of an item gives that item.
pub proof fn lemma_record_round_trip(todo: TodoView)
    ensures
        todo.record().todo() == Some(todo),
{
    lemma_status_text_round_trip(todo.status);
}

} // verus!
