//! A backend that keeps its collection in memory.

use crate::overseer::id::TaskId;
use crate::overseer::persistence::mongo;
use crate::overseer::persistence::mongo::StoreFailure;
use crate::overseer::persistence::{
    outcome_view, task_views, write_outcome, Contents, Handler, RepositoryError,
};
use crate::overseer::{Task, TaskData, TaskView};
use vstd::prelude::*;

verus! {

/// Some record of `tasks` has the identifier `id`.
spec fn has_id(tasks: Seq<Task>, id: Seq<u8>) -> bool {
    exists|i: int| 0 <= i < tasks.len() && (#[trigger] tasks[i]).id@ == id
}

/// The place of a record of `tasks` with the identifier `id`.
spec fn place_of(tasks: Seq<Task>, id: Seq<u8>) -> int {
    choose|i: int| 0 <= i < tasks.len() && (#[trigger] tasks[i]).id@ == id
}

/// No two records of `tasks` share an identifier.
spec fn distinct_ids(tasks: Seq<Task>) -> bool {
    forall|i: int, j: int|
        0 <= i < j < tasks.len() ==> (#[trigger] tasks[i]).id@ != (#[trigger] tasks[j]).id@
}

/// The identifier `id` is among `ids`.
spec fn among(ids: Seq<TaskId>, id: Seq<u8>) -> bool {
    exists|k: int| 0 <= k < ids.len() && (#[trigger] ids[k])@ == id
}

/// What a collection with the records `tasks`, from which the tasks with the
/// identifiers `retired` were removed, holds.
spec fn contents_of(tasks: Seq<Task>, retired: Seq<TaskId>) -> Contents {
    Contents {
        tasks: Map::new(
            |id: Seq<u8>| has_id(tasks, id),
            |id: Seq<u8>| tasks[place_of(tasks, id)].data@,
        ),
        retired: Set::new(|id: Seq<u8>| among(retired, id)),
    }
}

/// In a collection without a shared identifier, a record is found at its own
/// place.
proof fn lemma_place(tasks: Seq<Task>, i: int)
    requires
        distinct_ids(tasks),
        0 <= i < tasks.len(),
    ensures
        has_id(tasks, tasks[i].id@),
        place_of(tasks, tasks[i].id@) == i,
{
    let id = tasks[i].id@;
    let p = place_of(tasks, id);
    assert(0 <= p < tasks.len() && tasks[p].id@ == id);
    if p < i {
        assert(tasks[p].id@ != tasks[i].id@);
    } else if i < p {
        assert(tasks[i].id@ != tasks[p].id@);
    }
}

/// Appending a record with an unused identifier stores one task more.
proof fn lemma_push(tasks: Seq<Task>, retired: Seq<TaskId>, task: Task)
    requires
        distinct_ids(tasks),
        !has_id(tasks, task.id@),
    ensures
        distinct_ids(tasks.push(task)),
        contents_of(tasks.push(task), retired) == contents_of(tasks, retired).create(
            task.id@,
            task.data@,
        ),
{
    let after = tasks.push(task);
    let n = tasks.len() as int;
    assert forall|i: int, j: int| 0 <= i < j < after.len() implies (#[trigger] after[i]).id@ != (
    #[trigger] after[j]).id@ by {
        if j < n {
            assert(tasks[i].id@ != tasks[j].id@);
        } else {
            assert(tasks[i].id@ != task.id@);
        }
    }
    lemma_place(after, n);
    assert forall|x: Seq<u8>| has_id(after, x) <==> (x == task.id@ || has_id(tasks, x)) by {
        if has_id(after, x) {
            let p = place_of(after, x);
            if p < n {
                assert(tasks[p].id@ == x);
            }
        }
        if has_id(tasks, x) {
            let p = place_of(tasks, x);
            assert(after[p].id@ == x);
        }
    }
    assert forall|x: Seq<u8>| has_id(tasks, x) implies after[place_of(after, x)].data@
        == tasks[place_of(tasks, x)].data@ by {
        let p = place_of(tasks, x);
        assert(after[p] == tasks[p]);
        lemma_place(after, p);
    }
    assert(contents_of(after, retired).tasks =~= contents_of(tasks, retired).create(
        task.id@,
        task.data@,
    ).tasks);
}

/// Replacing a record by one with the same identifier replaces that task's
/// payload and nothing else.
proof fn lemma_update(tasks: Seq<Task>, retired: Seq<TaskId>, i: int, task: Task)
    requires
        distinct_ids(tasks),
        0 <= i < tasks.len(),
        task.id@ == tasks[i].id@,
    ensures
        distinct_ids(tasks.update(i, task)),
        forall|x: Seq<u8>| has_id(tasks.update(i, task), x) <==> has_id(tasks, x),
        contents_of(tasks.update(i, task), retired) == contents_of(tasks, retired).replace(
            task.id@,
            task.data@,
        ),
{
    let after = tasks.update(i, task);
    assert forall|a: int, b: int| 0 <= a < b < after.len() implies (#[trigger] after[a]).id@ != (
    #[trigger] after[b]).id@ by {
        assert(after[a].id@ == tasks[a].id@ && after[b].id@ == tasks[b].id@);
        assert(tasks[a].id@ != tasks[b].id@);
    }
    assert forall|x: Seq<u8>| has_id(after, x) <==> has_id(tasks, x) by {
        if has_id(after, x) {
            let p = place_of(after, x);
            assert(tasks[p].id@ == x);
        }
        if has_id(tasks, x) {
            let p = place_of(tasks, x);
            assert(after[p].id@ == x);
        }
    }
    lemma_place(tasks, i);
    lemma_place(after, i);
    assert forall|x: Seq<u8>| has_id(tasks, x) && x != task.id@ implies after[place_of(after, x)].data@
        == tasks[place_of(tasks, x)].data@ by {
        let p = place_of(tasks, x);
        assert(after[p] == tasks[p]);
        lemma_place(after, p);
    }
    assert(contents_of(after, retired).tasks =~= contents_of(tasks, retired).replace(
        task.id@,
        task.data@,
    ).tasks);
}

/// Taking a record out removes that task and nothing else.
proof fn lemma_remove(tasks: Seq<Task>, retired: Seq<TaskId>, i: int)
    requires
        distinct_ids(tasks),
        0 <= i < tasks.len(),
    ensures
        distinct_ids(tasks.remove(i)),
        !has_id(tasks.remove(i), tasks[i].id@),
        forall|x: Seq<u8>| has_id(tasks.remove(i), x) ==> has_id(tasks, x),
        contents_of(tasks.remove(i), retired.push(tasks[i].id)) == contents_of(
            tasks,
            retired,
        ).remove(tasks[i].id@),
{
    let after = tasks.remove(i);
    let gone = tasks[i].id@;
    assert forall|a: int| 0 <= a < after.len() implies #[trigger] after[a] == tasks[if a < i {
        a
    } else {
        a + 1
    }] by {}
    assert forall|a: int, b: int| 0 <= a < b < after.len() implies (#[trigger] after[a]).id@ != (
    #[trigger] after[b]).id@ by {
        let first = if a < i { a } else { a + 1 };
        let second = if b < i { b } else { b + 1 };
        assert(after[a] == tasks[first] && after[b] == tasks[second]);
        assert(tasks[first].id@ != tasks[second].id@);
    }
    assert forall|x: Seq<u8>| has_id(after, x) <==> (has_id(tasks, x) && x != gone) by {
        if has_id(after, x) {
            let p = place_of(after, x);
            let from = if p < i { p } else { p + 1 };
            assert(after[p] == tasks[from]);
            assert(tasks[from].id@ == x);
            if from < i {
                assert(tasks[from].id@ != tasks[i].id@);
            } else {
                assert(tasks[i].id@ != tasks[from].id@);
            }
        }
        if has_id(tasks, x) && x != gone {
            let p = place_of(tasks, x);
            let q = if p < i { p } else { p - 1 };
            assert(after[q] == tasks[p]);
            assert(after[q].id@ == x);
        }
    }
    lemma_place(tasks, i);
    assert forall|x: Seq<u8>| has_id(after, x) implies after[place_of(after, x)].data@
        == tasks[place_of(tasks, x)].data@ by {
        let p = place_of(after, x);
        let from = if p < i { p } else { p + 1 };
        assert(after[p] == tasks[from]);
        lemma_place(tasks, from);
    }
    let was = retired.push(tasks[i].id);
    assert forall|x: Seq<u8>| among(was, x) <==> (among(retired, x) || x == gone) by {
        if among(was, x) {
            let k = choose|k: int| 0 <= k < was.len() && (#[trigger] was[k])@ == x;
            if k < retired.len() {
                assert(retired[k]@ == x);
            }
        }
        if among(retired, x) {
            let k = choose|k: int| 0 <= k < retired.len() && (#[trigger] retired[k])@ == x;
            assert(was[k]@ == x);
        }
        if x == gone {
            assert(was[retired.len() as int]@ == x);
        }
    }
    assert(contents_of(after, was).tasks =~= contents_of(tasks, retired).remove(gone).tasks);
    assert(contents_of(after, was).retired =~= contents_of(tasks, retired).remove(gone).retired);
}

/// A collection of tasks in memory. It remembers the identifiers of the
/// records that were removed, so that none is given out again.
pub struct Memory {
    tasks: Vec<Task>,
    retired: Vec<TaskId>,
}

impl Memory {
    #[verifier::type_invariant]
    spec fn inv(self) -> bool {
        &&& distinct_ids(self.tasks@)
        &&& forall|i: int| 0 <= i < self.tasks.len() ==> !among(self.retired@, (#[trigger] self.tasks[i]).id@)
    }

    /// What the collection holds.
    pub closed spec fn holds(&self) -> Contents {
        contents_of(self.tasks@, self.retired@)
    }

    /// An empty collection, from which nothing was ever removed.
    pub fn new() -> (r: Memory)
        ensures
            r.holds() == Contents::empty(),
    {
        let r = Memory { tasks: Vec::new(), retired: Vec::new() };
        assert(r.holds().tasks =~= Map::empty());
        assert(r.holds().retired =~= Set::empty());
        r
    }

    /// The place of the record with the identifier `id`.
    fn position(&self, id: &TaskId) -> (r: Option<usize>)
        ensures
            match r {
                Some(i) => i < self.tasks.len() && self.tasks[i as int].id@ == id@,
                None => !has_id(self.tasks@, id@),
            },
    {
        let mut i: usize = 0;
        while i < self.tasks.len()
            invariant
                i <= self.tasks.len(),
                forall|k: int| 0 <= k < i ==> (#[trigger] self.tasks[k]).id@ != id@,
            decreases self.tasks.len() - i,
        {
            if self.tasks[i].id == *id {
                return Some(i);
            }
            i += 1;
        }
        None
    }

    /// Whether a record with the identifier `id` was removed.
    fn was_removed(&self, id: &TaskId) -> (r: bool)
        ensures
            r == among(self.retired@, id@),
    {
        let mut k: usize = 0;
        while k < self.retired.len()
            invariant
                k <= self.retired.len(),
                forall|j: int| 0 <= j < k ==> (#[trigger] self.retired[j])@ != id@,
            decreases self.retired.len() - k,
        {
            if self.retired[k] == *id {
                return true;
            }
            k += 1;
        }
        false
    }

    /// Every record once, in no promised order.
    pub fn find(&self) -> (r: Vec<Task>)
        ensures
            self.holds().is_listing(task_views(r@)),
    {
        proof {
            use_type_invariant(self);
        }
        let mut out: Vec<Task> = Vec::new();
        let mut i: usize = 0;
        while i < self.tasks.len()
            invariant
                i <= self.tasks.len(),
                out.len() == i,
                forall|k: int| 0 <= k < i ==> (#[trigger] out[k])@ == self.tasks[k]@,
            decreases self.tasks.len() - i,
        {
            out.push(self.tasks[i].clone());
            i += 1;
        }
        proof {
            let list = task_views(out@);
            let tasks = self.tasks@;
            assert forall|a: int, b: int| 0 <= a < list.len() && 0 <= b < list.len() && a != b implies list[a] != list[b] by {
                assert(list[a] == tasks[a]@ && list[b] == tasks[b]@);
                if a < b {
                    assert(tasks[a].id@ != tasks[b].id@);
                } else {
                    assert(tasks[b].id@ != tasks[a].id@);
                }
            }
            assert forall|t: TaskView| list.to_set().contains(t) <==> self.holds().task_set().contains(t) by {
                if list.to_set().contains(t) {
                    let a = choose|a: int| 0 <= a < list.len() && list[a] == t;
                    assert(list[a] == tasks[a]@);
                    lemma_place(tasks, a);
                }
                if self.holds().holds(t) {
                    let p = place_of(tasks, t.id);
                    assert(0 <= p < tasks.len() && tasks[p].id@ == t.id);
                    assert(list[p] == t);
                }
            }
            assert(list.to_set() =~= self.holds().task_set());
        }
        out
    }

    /// The record with the identifier `id`, if there is one.
    pub fn find_one(&self, id: &TaskId) -> (r: Option<Task>)
        ensures
            match r {
                Some(task) => self.holds().find(id@) == Some(task@),
                None => self.holds().find(id@) is None,
            },
    {
        proof {
            use_type_invariant(self);
        }
        match self.position(id) {
            Some(i) => {
                proof {
                    lemma_place(self.tasks@, i as int);
                }
                Some(self.tasks[i].clone())
            },
            None => None,
        }
    }

    /// Inserts `task`, unless its identifier was given out before: to a
    /// record that is in the collection or to one that was removed.
    pub fn insert_one(&mut self, task: Task) -> (r: Result<(), StoreFailure>)
        ensures
            r is Ok <==> old(self).holds().can_create(task.id@),
            final(self).holds() == if r is Ok {
                old(self).holds().create(task.id@, task.data@)
            } else {
                old(self).holds()
            },
    {
        proof {
            use_type_invariant(&*self);
        }
        if self.position(&task.id).is_some() || self.was_removed(&task.id) {
            return Err(StoreFailure);
        }
        let mut tasks: Vec<Task> = Vec::new();
        std::mem::swap(&mut self.tasks, &mut tasks);
        proof {
            lemma_push(tasks@, self.retired@, task);
        }
        tasks.push(task);
        std::mem::swap(&mut self.tasks, &mut tasks);
        Ok(())
    }

    /// Replaces the payload of the record with the identifier `id`, if
    /// there is one.
    pub fn update_one(&mut self, id: &TaskId, data: TaskData)
        ensures
            final(self).holds() == old(self).holds().replace(id@, data@),
    {
        proof {
            use_type_invariant(&*self);
        }
        match self.position(id) {
            Some(i) => {
                let task = mongo::record(*id, data);
                let mut tasks: Vec<Task> = Vec::new();
                std::mem::swap(&mut self.tasks, &mut tasks);
                proof {
                    lemma_update(tasks@, self.retired@, i as int, task);
                }
                tasks.set(i, task);
                std::mem::swap(&mut self.tasks, &mut tasks);
            },
            None => {},
        }
    }

    /// Removes the record with the identifier `id`, if there is one.
    pub fn delete_one(&mut self, id: &TaskId)
        ensures
            final(self).holds() == old(self).holds().remove(id@),
    {
        proof {
            use_type_invariant(&*self);
        }
        match self.position(id) {
            Some(i) => {
                let mut tasks: Vec<Task> = Vec::new();
                std::mem::swap(&mut self.tasks, &mut tasks);
                proof {
                    lemma_remove(tasks@, self.retired@, i as int);
                }
                let gone = tasks.remove(i);
                std::mem::swap(&mut self.tasks, &mut tasks);
                let mut retired: Vec<TaskId> = Vec::new();
                std::mem::swap(&mut self.retired, &mut retired);
                retired.push(gone.id);
                std::mem::swap(&mut self.retired, &mut retired);
            },
            None => {},
        }
    }

    /// Stores a new task with the payload `data` under `id`, unless `id`
    /// was given out before.
    pub fn create_task_as(&mut self, id: TaskId, data: TaskData) -> (r: Result<
        Task,
        RepositoryError,
    >)
        ensures
            match r {
                Ok(task) => {
                    &&& task@ == TaskView { id: id@, data: data@ }
                    &&& old(self).holds().can_create(id@)
                    &&& final(self).holds() == old(self).holds().create(id@, data@)
                },
                Err(e) => {
                    &&& e == RepositoryError::StorageUnavailable
                    &&& !old(self).holds().can_create(id@)
                    &&& final(self).holds() == old(self).holds()
                },
            },
    {
        let task = mongo::record(id, data);
        let inserted = self.insert_one(task.clone());
        mongo::create_task(task, inserted)
    }
}

impl Handler for Memory {
    open spec fn contents(&self) -> Contents {
        self.holds()
    }

    /// Every stored task once, in no promised order. Never fails.
    fn get_all_tasks(&self) -> (r: Result<Vec<Task>, RepositoryError>)
        ensures
            r is Ok,
    {
        mongo::get_all_tasks(Ok(self.find()))
    }

    /// The task named by the text `id`. Fails only as a working store does.
    fn get_task(&self, id: &str) -> (r: Result<Task, RepositoryError>)
        ensures
            outcome_view(r) == self.contents().get(id@),
    {
        match mongo::filter_id(id) {
            Ok(oid) => mongo::get_task(Ok(self.find_one(&oid))),
            Err(e) => Err(e),
        }
    }

    /// Stores a new task under a newly generated identifier. Fails if that
    /// identifier was given out before, and changes nothing then.
    fn create_task(&mut self, data: TaskData) -> (r: Result<Task, RepositoryError>) {
        self.create_task_as(TaskId::generate(), data)
    }

    /// Replaces the payload of the task named by the text `id`. Fails only
    /// on a text that is no identifier.
    fn update_task(&mut self, id: &str, data: TaskData) -> (r: Result<(), RepositoryError>)
        ensures
            r == write_outcome(id@),
    {
        match mongo::filter_id(id) {
            Ok(oid) => {
                self.update_one(&oid, data);
                mongo::update_task(Ok(()))
            },
            Err(e) => Err(e),
        }
    }

    /// Removes the task named by the text `id`. Fails only on a text that is
    /// no identifier.
    fn delete_task(&mut self, id: &str) -> (r: Result<(), RepositoryError>)
        ensures
            r == write_outcome(id@),
    {
        match mongo::filter_id(id) {
            Ok(oid) => {
                self.delete_one(&oid);
                mongo::delete_task(Ok(()))
            },
            Err(e) => Err(e),
        }
    }
}

} // verus!
