//! The repository of tasks: what it holds, what each operation answers, and
//! the contract that every backend keeps.

pub mod memory;
pub mod mongo;

use crate::hex;
use crate::overseer::id::{is_id_text, TaskId};
use crate::overseer::{Task, TaskData, TaskDataView, TaskView};
use vstd::prelude::*;

verus! {

/// Where the backing store is found.
#[derive(Debug)]
pub struct Config {
    pub conn: String,
    pub db: String,
}

/// Why a repository call did not succeed.
#[derive(Clone, Copy, Debug, PartialEq, Eq, Structural)]
pub enum RepositoryError {
    /// The text given as identifier is not twenty-four hexadecimal digits.
    InvalidIdentifier,
    /// No task has the identifier.
    NotFound,
    /// The backing store could not be reached, or refused to read or write.
    StorageUnavailable,
}

/// What a repository holds, as a mathematical value.
pub struct Contents {
    /// The stored tasks' payloads, by identifier.
    pub tasks: Map<Seq<u8>, TaskDataView>,
    /// The identifiers of the tasks that were deleted.
    pub retired: Set<Seq<u8>>,
}

impl Contents {
    /// A repository in which nothing was ever stored.
    pub open spec fn empty() -> Contents {
        Contents { tasks: Map::empty(), retired: Set::empty() }
    }

    /// Every identifier that was ever given to a task, stored or deleted.
    pub open spec fn issued(self) -> Set<Seq<u8>> {
        self.tasks.dom().union(self.retired)
    }

    /// `task` is stored, with this identifier and this payload.
    pub open spec fn holds(self, task: TaskView) -> bool {
        self.tasks.contains_key(task.id) && self.tasks[task.id] == task.data
    }

    /// The stored tasks.
    pub open spec fn task_set(self) -> Set<TaskView> {
        Set::new(|task: TaskView| self.holds(task))
    }

    /// `list` names every stored task once, in some order, and nothing else.
    pub open spec fn is_listing(self, list: Seq<TaskView>) -> bool {
        list.no_duplicates() && list.to_set() == self.task_set()
    }

    /// The stored task with identifier `id`, if there is one.
    pub open spec fn find(self, id: Seq<u8>) -> Option<TaskView> {
        if self.tasks.contains_key(id) {
            Some(TaskView { id, data: self.tasks[id] })
        } else {
            None
        }
    }

    /// `id` was never given to a task, so a new task may take it.
    pub open spec fn can_create(self, id: Seq<u8>) -> bool {
        !self.issued().contains(id)
    }

    /// The repository after a task with identifier `id` and payload `data`
    /// was stored.
    pub open spec fn create(self, id: Seq<u8>, data: TaskDataView) -> Contents {
        Contents { tasks: self.tasks.insert(id, data), retired: self.retired }
    }

    /// The repository after the payload of the task with identifier `id` was
    /// replaced by `data`: unchanged where no task has that identifier.
    pub open spec fn replace(self, id: Seq<u8>, data: TaskDataView) -> Contents {
        if self.tasks.contains_key(id) {
            Contents { tasks: self.tasks.insert(id, data), retired: self.retired }
        } else {
            self
        }
    }

    /// The repository after the task with identifier `id` was removed:
    /// unchanged where no task has that identifier.
    pub open spec fn remove(self, id: Seq<u8>) -> Contents {
        if self.tasks.contains_key(id) {
            Contents { tasks: self.tasks.remove(id), retired: self.retired.insert(id) }
        } else {
            self
        }
    }

    /// What reading the task named by the text `id` gives.
    pub open spec fn get(self, id: Seq<char>) -> Result<TaskView, RepositoryError> {
        if !is_id_text(id) {
            Err(RepositoryError::InvalidIdentifier)
        } else {
            match self.find(hex::decode(id)) {
                Some(task) => Ok(task),
                None => Err(RepositoryError::NotFound),
            }
        }
    }

    /// The repository after the payload of the task named by the text `id`
    /// was replaced by `data`: unchanged where the text is no identifier or
    /// no task has it.
    pub open spec fn update(self, id: Seq<char>, data: TaskDataView) -> Contents {
        if is_id_text(id) {
            self.replace(hex::decode(id), data)
        } else {
            self
        }
    }

    /// The repository after the task named by the text `id` was removed:
    /// unchanged where the text is no identifier or no task has it.
    pub open spec fn delete(self, id: Seq<char>) -> Contents {
        if is_id_text(id) {
            self.remove(hex::decode(id))
        } else {
            self
        }
    }
}

/// The tasks of a list as mathematical values, in the list's order.
pub open spec fn task_views(tasks: Seq<Task>) -> Seq<TaskView> {
    tasks.map_values(|task: Task| task@)
}

/// The result of reading a task, as a mathematical value.
pub open spec fn outcome_view(r: Result<Task, RepositoryError>) -> Result<
    TaskView,
    RepositoryError,
> {
    match r {
        Ok(task) => Ok(task@),
        Err(e) => Err(e),
    }
}

/// `given` is an answer that a backend may give where `owed` is the answer
/// of a store that works: `owed` itself, or `StorageUnavailable` in its
/// place. A malformed identifier is refused before the store is asked, so
/// `InvalidIdentifier` is never replaced.
pub open spec fn may_answer<T>(
    given: Result<T, RepositoryError>,
    owed: Result<T, RepositoryError>,
) -> bool {
    ||| given == owed
    ||| given == Err::<T, RepositoryError>(RepositoryError::StorageUnavailable) && owed != Err::<
        T,
        RepositoryError,
    >(RepositoryError::InvalidIdentifier)
}

/// What updating or deleting the task named by the text `id` answers when
/// the store works: that no task has the identifier is no error.
pub open spec fn write_outcome(id: Seq<char>) -> Result<(), RepositoryError> {
    if is_id_text(id) {
        Ok(())
    } else {
        Err(RepositoryError::InvalidIdentifier)
    }
}

/// A repository of tasks. Each call is one operation that either happens in
/// full or leaves the repository as it was.
pub trait Handler {
    /// What the repository holds.
    spec fn contents(&self) -> Contents;

    /// Every stored task, in no promised order.
    fn get_all_tasks(&self) -> (r: Result<Vec<Task>, RepositoryError>)
        ensures
            match r {
                Ok(tasks) => self.contents().is_listing(task_views(tasks@)),
                Err(e) => e == RepositoryError::StorageUnavailable,
            },
    ;

    /// The task named by the text `id`.
    fn get_task(&self, id: &str) -> (r: Result<Task, RepositoryError>)
        ensures
            may_answer(outcome_view(r), self.contents().get(id@)),
    ;

    /// Stores a new task with the payload `data` under an identifier that no
    /// task ever had, and returns it.
    fn create_task(&mut self, data: TaskData) -> (r: Result<Task, RepositoryError>)
        ensures
            match r {
                Ok(task) => {
                    &&& task.data@ == data@
                    &&& old(self).contents().can_create(task.id@)
                    &&& final(self).contents() == old(self).contents().create(task.id@, data@)
                },
                Err(e) => {
                    &&& e == RepositoryError::StorageUnavailable
                    &&& final(self).contents() == old(self).contents()
                },
            },
    ;

    /// Replaces the whole payload of the task named by the text `id`. Where
    /// no task has that identifier nothing changes, and that is no error.
    fn update_task(&mut self, id: &str, data: TaskData) -> (r: Result<(), RepositoryError>)
        ensures
            may_answer(r, write_outcome(id@)),
            final(self).contents() == if r is Ok {
                old(self).contents().update(id@, data@)
            } else {
                old(self).contents()
            },
    ;

    /// Removes the task named by the text `id`. Where no task has that
    /// identifier nothing changes, and that is no error.
    fn delete_task(&mut self, id: &str) -> (r: Result<(), RepositoryError>)
        ensures
            may_answer(r, write_outcome(id@)),
            final(self).contents() == if r is Ok {
                old(self).contents().delete(id@)
            } else {
                old(self).contents()
            },
    ;
}

/// A new task's identifier is the identifier of no stored task and of no
/// deleted one, and from then on it counts as given out.
pub proof fn lemma_created_id_is_new(before: Contents, id: Seq<u8>, data: TaskDataView)
    requires
        before.can_create(id),
    ensures
        !before.retired.contains(id),
        forall|task: TaskView| before.holds(task) ==> task.id != id,
        before.create(id, data).issued() == before.issued().insert(id),
        before.create(id, data).holds(TaskView { id, data }),
{
    assert(before.create(id, data).issued() =~= before.issued().insert(id));
}

/// Updating and deleting take no identifier back: what was given out stays
/// given out.
pub proof fn lemma_issued_is_kept(before: Contents, id: Seq<char>, data: TaskDataView)
    ensures
        before.update(id, data).issued() == before.issued(),
        before.delete(id).issued() == before.issued(),
{
    assert(before.update(id, data).issued() =~= before.issued());
    assert(before.delete(id).issued() =~= before.issued());
}

/// Reading a task by the text of the identifier it was created under gives
/// the task as it was created.
pub proof fn lemma_get_after_create(before: Contents, id: TaskId, data: TaskDataView)
    ensures
        before.create(id@, data).get(hex::encode(id@)) == Ok::<TaskView, RepositoryError>(
            TaskView { id: id@, data },
        ),
{
    crate::overseer::id::lemma_parse_to_hex(id);
}

/// Reading with a text that is not an identifier is refused, whatever is
/// stored.
pub proof fn lemma_get_malformed(contents: Contents, id: Seq<char>)
    requires
        !is_id_text(id),
    ensures
        contents.get(id) == Err::<TaskView, RepositoryError>(RepositoryError::InvalidIdentifier),
{
}

/// Reading with a well-formed identifier that no stored task has finds
/// nothing.
pub proof fn lemma_get_missing(contents: Contents, id: Seq<char>)
    requires
        is_id_text(id),
        !contents.tasks.contains_key(hex::decode(id)),
    ensures
        contents.get(id) == Err::<TaskView, RepositoryError>(RepositoryError::NotFound),
{
}

/// After a stored task was updated, reading it gives the same identifier
/// with the new payload.
pub proof fn lemma_get_after_update(before: Contents, id: Seq<char>, data: TaskDataView)
    requires
        before.get(id) is Ok,
    ensures
        before.update(id, data).get(id) == Ok::<TaskView, RepositoryError>(
            TaskView { id: before.get(id)->Ok_0.id, data },
        ),
{
}

/// After a task was deleted, reading it finds nothing.
pub proof fn lemma_get_after_delete(before: Contents, id: Seq<char>)
    requires
        is_id_text(id),
    ensures
        before.delete(id).get(id) == Err::<TaskView, RepositoryError>(RepositoryError::NotFound),
{
}

/// The only listing of a repository that holds nothing is the empty one.
pub proof fn lemma_listing_of_empty(list: Seq<TaskView>)
    requires
        Contents::empty().is_listing(list),
    ensures
        list.len() == 0,
{
    if list.len() > 0 {
        assert(list.to_set().contains(list[0]));
        assert(Contents::empty().holds(list[0]));
    }
}

/// A repository that was empty and then had the tasks `a`, `b` and `c`
/// created, each under an identifier that was free when its turn came, holds
/// exactly those three: every listing of it has each of them once and
/// nothing else.
pub proof fn lemma_listing_after_three_creates(
    a: TaskView,
    b: TaskView,
    c: TaskView,
    list: Seq<TaskView>,
)
    requires
        Contents::empty().can_create(a.id),
        Contents::empty().create(a.id, a.data).can_create(b.id),
        Contents::empty().create(a.id, a.data).create(b.id, b.data).can_create(c.id),
        Contents::empty().create(a.id, a.data).create(b.id, b.data).create(
            c.id,
            c.data,
        ).is_listing(list),
    ensures
        list.to_set() == set![a, b, c],
        list.len() == 3,
{
    let after = Contents::empty().create(a.id, a.data).create(b.id, b.data).create(c.id, c.data);
    assert(a.id != b.id && a.id != c.id && b.id != c.id);
    assert(after.task_set() =~= set![a, b, c]) by {
        assert forall|t: TaskView| after.holds(t) <==> #[trigger] set![a, b, c].contains(t) by {
            if after.holds(t) {
                assert(t.id == a.id || t.id == b.id || t.id == c.id);
            }
        }
    }
    list.unique_seq_to_set();
    assert(set![a, b, c].len() == 3) by {
        assert(set![a, b, c] =~= Set::empty().insert(a).insert(b).insert(c));
        assert(Set::<TaskView>::empty().insert(a).len() == 1);
        assert(Set::<TaskView>::empty().insert(a).insert(b).len() == 2);
    }
}

} // verus!
