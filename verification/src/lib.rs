//! A verified in-memory store of to-do items.
//!
//! A [`TodoStore`] owns an ordered collection of [`Todo`]s. It hands out
//! identifiers, looks items up, applies partial updates and deletes items.
//! Each operation is stated over the mathematical value of the collection,
//! a sequence of [`TodoView`]s in the order of creation (see [`model`]), and
//! proved against it; [`laws`] holds what follows for every collection.
//!
//! The library reads and writes no file and takes no lock. An application
//! that keeps the collection in a document hands what it read on start-up
//! to [`load_todos`], writes [`TodoStore::records`] in full after every
//! change, and passes the outcome of that write through [`write_through`].

pub mod error;
pub mod laws;
pub mod model;
pub mod persist;
pub mod status;
pub mod store;
pub mod todo;

pub use error::StoreError;
pub use persist::{load_todos, write_through, Backing, Loaded};
pub use status::Status;
pub use store::TodoStore;
pub use todo::{Todo, TodoRecord, TodoRecordView, TodoView, UpdateTodo, UpdateTodoView};
