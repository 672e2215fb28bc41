//! The document-store backend's decisions. The store itself is reached by
//! whoever runs the backend; what is decided before a call to the store and
//! what its answer means is decided here.

use crate::hex;
use crate::overseer::id::{is_id_text, TaskId};
use crate::overseer::persistence::RepositoryError;
use crate::overseer::{Task, TaskData};
use vstd::prelude::*;

verus! {

/// The store did not do what was asked of it: it could not be reached, it
/// timed out, or it refused the read or the write.
#[derive(Clone, Copy, Debug, PartialEq, Eq, Structural)]
pub struct StoreFailure;

/// The identifier to look a task up by, read from the text `id`. A text
/// that is no identifier is refused here, before the store is asked.
pub fn filter_id(id: &str) -> (r: Result<TaskId, RepositoryError>)
    ensures
        match r {
            Ok(oid) => is_id_text(id@) && oid@ == hex::decode(id@),
            Err(e) => !is_id_text(id@) && e == RepositoryError::InvalidIdentifier,
        },
{
    match TaskId::parse(id) {
        Some(oid) => Ok(oid),
        None => Err(RepositoryError::InvalidIdentifier),
    }
}

/// What listing answers, given what an unfiltered scan of the collection
/// brought.
pub fn get_all_tasks(found: Result<Vec<Task>, StoreFailure>) -> (r: Result<
    Vec<Task>,
    RepositoryError,
>)
    ensures
        r == match found {
            Ok(tasks) => Ok::<Vec<Task>, RepositoryError>(tasks),
            Err(_) => Err(RepositoryError::StorageUnavailable),
        },
{
    match found {
        Ok(tasks) => Ok(tasks),
        Err(_) => Err(RepositoryError::StorageUnavailable),
    }
}

/// What reading one task answers, given what the lookup by identifier
/// brought.
pub fn get_task(found: Result<Option<Task>, StoreFailure>) -> (r: Result<Task, RepositoryError>)
    ensures
        r == match found {
            Ok(Some(task)) => Ok::<Task, RepositoryError>(task),
            Ok(None) => Err(RepositoryError::NotFound),
            Err(_) => Err(RepositoryError::StorageUnavailable),
        },
{
    match found {
        Ok(Some(task)) => Ok(task),
        Ok(None) => Err(RepositoryError::NotFound),
        Err(_) => Err(RepositoryError::StorageUnavailable),
    }
}

/// The record to insert for a new task: the payload under `id`.
pub fn record(id: TaskId, data: TaskData) -> (task: Task)
    ensures
        task.id == id,
        task.data == data,
{
    Task { id, data }
}

/// The record to insert for a new task: the payload under a newly generated
/// identifier.
pub fn new_task(data: TaskData) -> (task: Task)
    ensures
        task.data == data,
{
    record(TaskId::generate(), data)
}

/// What creating answers, given the record that was sent and what the
/// insert brought.
pub fn create_task(task: Task, inserted: Result<(), StoreFailure>) -> (r: Result<
    Task,
    RepositoryError,
>)
    ensures
        r == match inserted {
            Ok(_) => Ok::<Task, RepositoryError>(task),
            Err(_) => Err(RepositoryError::StorageUnavailable),
        },
{
    match inserted {
        Ok(_) => Ok(task),
        Err(_) => Err(RepositoryError::StorageUnavailable),
    }
}

/// What updating answers, given what the write brought. Whether any record
/// matched is not asked.
pub fn update_task(updated: Result<(), StoreFailure>) -> (r: Result<(), RepositoryError>)
    ensures
        r == match updated {
            Ok(_) => Ok::<(), RepositoryError>(()),
            Err(_) => Err(RepositoryError::StorageUnavailable),
        },
{
    match updated {
        Ok(_) => Ok(()),
        Err(_) => Err(RepositoryError::StorageUnavailable),
    }
}

/// What deleting answers, given what the removal brought. Whether any
/// record matched is not asked.
pub fn delete_task(deleted: Result<(), StoreFailure>) -> (r: Result<(), RepositoryError>)
    ensures
        r == match deleted {
            Ok(_) => Ok::<(), RepositoryError>(()),
            Err(_) => Err(RepositoryError::StorageUnavailable),
        },
{
    match deleted {
        Ok(_) => Ok(()),
        Err(_) => Err(RepositoryError::StorageUnavailable),
    }
}

} // verus!
