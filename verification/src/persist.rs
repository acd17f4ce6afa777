//! Keeping the collection in a document: what to start from, and how a
//! write ends an operation.
//!
//! The library reads and writes no file. The application reads the document
//! on start-up and says what it found; after every change it writes the
//! records of the store in full, while it still holds the store, and says
//! whether that worked.

use crate::error::StoreError;
use crate::model::restored;
use crate::store::record_views;
use crate::store::TodoStore;
use crate::todo::TodoRecord;
use crate::todo::TodoView;
use vstd::prelude::*;

verus! {

/// What the application found where the document is kept.
#[derive(Debug, PartialEq, Eq)]
pub enum Backing {
    /// The document could not be read: most likely there is none yet.
    Missing,
    /// The document was read, but it is not a list of records.
    Unparseable,
    /// The document was read as these records.
    Records(Vec<TodoRecord>),
}

/// How the store came to its first collection, and what is left for the
/// application to do about it.
#[derive(Clone, Copy, Debug, PartialEq, Eq, Structural)]
pub enum Loaded {
    /// The document held a collection, and the store holds it now.
    Restored,
    /// There was no document. The store is empty, and an empty document is
    /// to be written now.
    Created,
    /// The document was malformed. The store is empty; what the document
    /// held is lost with the next write, so the operator should hear of it.
    Discarded,
}

/// The store to start with, given what was found where the document is
/// kept. A missing document gives an empty store and asks for an empty
/// document; a document that is not a well-formed collection is given up
/// for an empty store.
pub fn load_todos(found: Backing) -> (loaded: (TodoStore, Loaded))
    ensures
        loaded.0.wf(),
        match found {
            Backing::Missing => loaded.0@ == Seq::<TodoView>::empty() && loaded.1
                == Loaded::Created,
            Backing::Unparseable => loaded.0@ == Seq::<TodoView>::empty() && loaded.1
                == Loaded::Discarded,
            Backing::Records(records) => match restored(record_views(records@)) {
                Some(todos) => loaded.0@ == todos && loaded.1 == Loaded::Restored,
                None => loaded.0@ == Seq::<TodoView>::empty() && loaded.1 == Loaded::Discarded,
            },
        },
{
    match found {
        Backing::Missing => (TodoStore::new(), Loaded::Created),
        Backing::Unparseable => (TodoStore::new(), Loaded::Discarded),
        Backing::Records(records) => match TodoStore::restore(records.as_slice()) {
            Ok(store) => (store, Loaded::Restored),
            Err(_) => (TodoStore::new(), Loaded::Discarded),
        },
    }
}

/// Ends an operation that changed the collection. `outcome` is what the
/// operation gave, `written` says whether the document was written
/// afterwards. If it was not, the caller hears `PersistenceFailure` in
/// place of the outcome, although the change in memory stays: memory and
/// document then differ until a later write succeeds.
pub fn write_through<T>(outcome: T, written: bool) -> (result: Result<T, StoreError>)
    ensures
        written ==> result == Ok::<T, StoreError>(outcome),
        !written ==> result == Err::<T, StoreError>(StoreError::PersistenceFailure),
{
    if written {
        Ok(outcome)
    } else {
        Err(StoreError::PersistenceFailure)
    }
}

} // verus!
