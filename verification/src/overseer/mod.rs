//! The task service: the task model, its wire form, and what the service
//! answers to each request.

pub mod id;
pub mod persistence;

use crate::hex;
use id::{is_id_text, TaskId};
use persistence::{outcome_view, task_views, write_outcome, Contents, Handler, RepositoryError};
use vstd::prelude::*;
use vstd::std_specs::cmp::PartialEqSpecImpl;
use vstd::std_specs::convert::FromSpecImpl;

verus! {

/// How much work a task is.
#[derive(Clone, Copy, Debug, PartialEq, Eq, Structural)]
pub enum Effort {
    Low,
    Medium,
    High,
}

impl Effort {
    /// The word that stands for this effort on the wire.
    pub open spec fn spec_wire_name(self) -> Seq<char> {
        match self {
            Effort::Low => "low"@,
            Effort::Medium => "medium"@,
            Effort::High => "high"@,
        }
    }

    /// The word that stands for this effort on the wire.
    pub fn wire_name(&self) -> (r: &'static str)
        ensures
            r@ == self.spec_wire_name(),
    {
        match self {
            Effort::Low => "low",
            Effort::Medium => "medium",
            Effort::High => "high",
        }
    }

    /// The effort that `word` stands for on the wire, if any.
    pub fn from_wire_name(word: &str) -> (r: Option<Effort>)
        ensures
            match r {
                Some(effort) => word@ == effort.spec_wire_name(),
                None => forall|effort: Effort| word@ != effort.spec_wire_name(),
            },
    {
        let word = String::from_str(word);
        if word == String::from_str("low") {
            Some(Effort::Low)
        } else if word == String::from_str("medium") {
            Some(Effort::Medium)
        } else if word == String::from_str("high") {
            Some(Effort::High)
        } else {
            None
        }
    }
}

/// No two efforts share a word.
pub proof fn lemma_wire_names_differ(a: Effort, b: Effort)
    requires
        a.spec_wire_name() == b.spec_wire_name(),
    ensures
        a == b,
{
    reveal_strlit("low");
    reveal_strlit("medium");
    reveal_strlit("high");
    assert(a.spec_wire_name().len() == b.spec_wire_name().len());
    if a.spec_wire_name().len() == 3 {
    } else if a.spec_wire_name().len() == 6 {
    } else {
    }
}

/// What a caller supplies of a task: everything but the identifier.
#[derive(Debug)]
pub struct TaskData {
    pub name: String,
    pub effort: Effort,
}

/// A `TaskData` as a mathematical value.
pub struct TaskDataView {
    pub name: Seq<char>,
    pub effort: Effort,
}

impl View for TaskData {
    type V = TaskDataView;

    open spec fn view(&self) -> TaskDataView {
        TaskDataView { name: self.name@, effort: self.effort }
    }
}

impl TaskData {
    /// The payload with this name and the effort that `effort` stands for on
    /// the wire, or `None` where the word stands for no effort.
    pub fn from_wire(name: String, effort: &str) -> (r: Option<TaskData>)
        ensures
            match r {
                Some(data) => data.name == name && effort@ == data.effort.spec_wire_name(),
                None => forall|e: Effort| effort@ != e.spec_wire_name(),
            },
    {
        match Effort::from_wire_name(effort) {
            Some(effort) => Some(TaskData { name, effort }),
            None => None,
        }
    }
}

impl Clone for TaskData {
    fn clone(&self) -> (r: Self)
        ensures
            r == *self,
    {
        TaskData { name: self.name.clone(), effort: self.effort }
    }
}

impl PartialEq for TaskData {
    fn eq(&self, other: &Self) -> (r: bool) {
        self.name == other.name && self.effort == other.effort
    }
}

impl PartialEqSpecImpl for TaskData {
    open spec fn obeys_eq_spec() -> bool {
        true
    }

    open spec fn eq_spec(&self, other: &Self) -> bool {
        self@ == other@
    }
}

/// A stored task: the identifier that the repository gave it, and the
/// payload.
#[derive(Debug)]
pub struct Task {
    pub id: TaskId,
    pub data: TaskData,
}

/// A `Task` as a mathematical value.
pub struct TaskView {
    pub id: Seq<u8>,
    pub data: TaskDataView,
}

impl View for Task {
    type V = TaskView;

    open spec fn view(&self) -> TaskView {
        TaskView { id: self.id@, data: self.data@ }
    }
}

impl Clone for Task {
    fn clone(&self) -> (r: Self)
        ensures
            r == *self,
    {
        Task { id: self.id, data: self.data.clone() }
    }
}

impl PartialEq for Task {
    fn eq(&self, other: &Self) -> (r: bool) {
        self.id == other.id && self.data == other.data
    }
}

impl PartialEqSpecImpl for Task {
    open spec fn obeys_eq_spec() -> bool {
        true
    }

    open spec fn eq_spec(&self, other: &Self) -> bool {
        self@ == other@
    }
}

/// A task as it crosses the wire: the identifier as text.
#[derive(Debug)]
pub struct TaskJson {
    pub id: String,
    pub data: TaskData,
}

/// A `TaskJson` as a mathematical value.
pub struct TaskJsonView {
    pub id: Seq<char>,
    pub data: TaskDataView,
}

impl View for TaskJson {
    type V = TaskJsonView;

    open spec fn view(&self) -> TaskJsonView {
        TaskJsonView { id: self.id@, data: self.data@ }
    }
}

/// The wire form of a task: the identifier's twenty-four lower-case
/// hexadecimal digits, and the payload as it is.
pub open spec fn wire_form(task: TaskView) -> TaskJsonView {
    TaskJsonView { id: hex::encode(task.id), data: task.data }
}

impl From<Task> for TaskJson {
    fn from(val: Task) -> (r: TaskJson)
        ensures
            r@ == wire_form(val@),
    {
        TaskJson { id: val.id.to_hex(), data: val.data }
    }
}

/// What `from` returns is stated by its own `ensures`, over views: a text
/// is known by its characters only.
impl FromSpecImpl<Task> for TaskJson {
    open spec fn obeys_from_spec() -> bool {
        false
    }

    open spec fn from_spec(v: Task) -> TaskJson {
        choose|json: TaskJson| json@ == wire_form(v@)
    }
}

/// The service's settings: its name, the port it listens on, and where its
/// backing store is found.
#[derive(Debug)]
pub struct Config {
    pub name: String,
    pub port: u16,
    pub db: persistence::Config,
}

/// What a response carries.
#[derive(Debug)]
pub enum Body {
    Empty,
    Task(TaskJson),
    Tasks(Vec<TaskJson>),
}

/// A `Body` as a mathematical value.
pub enum BodyView {
    Empty,
    Task(TaskJsonView),
    Tasks(Seq<TaskJsonView>),
}

impl View for Body {
    type V = BodyView;

    open spec fn view(&self) -> BodyView {
        match self {
            Body::Empty => BodyView::Empty,
            Body::Task(task) => BodyView::Task(task@),
            Body::Tasks(tasks) => BodyView::Tasks(tasks@.map_values(|task: TaskJson| task@)),
        }
    }
}

/// The service's answer to a request: a status code and a body.
#[derive(Debug)]
pub struct Response {
    pub status: u16,
    pub body: Body,
}

/// A `Response` as a mathematical value.
pub struct ResponseView {
    pub status: u16,
    pub body: BodyView,
}

impl View for Response {
    type V = ResponseView;

    open spec fn view(&self) -> ResponseView {
        ResponseView { status: self.status, body: self.body@ }
    }
}

/// The status code that reports a repository error: a malformed identifier
/// and a missing task are the client's to mend, an unavailable store is not.
pub open spec fn error_status(e: RepositoryError) -> u16 {
    match e {
        RepositoryError::InvalidIdentifier => 400,
        RepositoryError::NotFound => 404,
        RepositoryError::StorageUnavailable => 500,
    }
}

/// The response that reports a repository error: its status code and no
/// body.
pub open spec fn error_response(e: RepositoryError) -> ResponseView {
    ResponseView { status: error_status(e), body: BodyView::Empty }
}

/// The wire forms of a list of tasks, in the list's order.
pub open spec fn wire_forms(tasks: Seq<TaskView>) -> Seq<TaskJsonView> {
    tasks.map_values(|task: TaskView| wire_form(task))
}

/// The answer to a request to create a task: 201 with the task's wire form.
pub open spec fn created_response(r: Result<TaskView, RepositoryError>) -> ResponseView {
    match r {
        Ok(task) => ResponseView { status: 201, body: BodyView::Task(wire_form(task)) },
        Err(e) => error_response(e),
    }
}

/// The answer to a request for one task: 200 with the task's wire form.
pub open spec fn task_response(r: Result<TaskView, RepositoryError>) -> ResponseView {
    match r {
        Ok(task) => ResponseView { status: 200, body: BodyView::Task(wire_form(task)) },
        Err(e) => error_response(e),
    }
}

/// The answer to a request for all tasks: 200 with their wire forms.
pub open spec fn tasks_response(r: Result<Seq<TaskView>, RepositoryError>) -> ResponseView {
    match r {
        Ok(tasks) => ResponseView { status: 200, body: BodyView::Tasks(wire_forms(tasks)) },
        Err(e) => error_response(e),
    }
}

/// The answer to a request to update or delete a task: 200 without a body.
pub open spec fn done_response(r: Result<(), RepositoryError>) -> ResponseView {
    match r {
        Ok(_) => ResponseView { status: 200, body: BodyView::Empty },
        Err(e) => error_response(e),
    }
}

/// `list` is the wire form of a listing of `contents`: every stored task
/// once, in some order, and nothing else.
pub open spec fn is_wire_listing(contents: Contents, list: Seq<TaskJsonView>) -> bool {
    exists|tasks: Seq<TaskView>| #[trigger] contents.is_listing(tasks) && list == wire_forms(tasks)
}

/// The response that reports a repository error.
pub fn error_to_response(e: RepositoryError) -> (r: Response)
    ensures
        r@ == error_response(e),
{
    let status: u16 = match e {
        RepositoryError::InvalidIdentifier => 400,
        RepositoryError::NotFound => 404,
        RepositoryError::StorageUnavailable => 500,
    };
    Response { status, body: Body::Empty }
}

/// The answer to a request to create a task, given what the repository
/// returned.
pub fn create_task_response(r: Result<Task, RepositoryError>) -> (resp: Response)
    ensures
        resp@ == created_response(outcome_view(r)),
{
    match r {
        Ok(task) => Response { status: 201, body: Body::Task(TaskJson::from(task)) },
        Err(e) => error_to_response(e),
    }
}

/// The answer to a request for all tasks, given what the repository
/// returned.
pub fn get_all_tasks_response(r: Result<Vec<Task>, RepositoryError>) -> (resp: Response)
    ensures
        resp@ == tasks_response(
            match r {
                Ok(tasks) => Ok(task_views(tasks@)),
                Err(e) => Err(e),
            },
        ),
{
    match r {
        Ok(tasks) => {
            let mut list: Vec<TaskJson> = Vec::new();
            let mut i: usize = 0;
            while i < tasks.len()
                invariant
                    i <= tasks.len(),
                    list.len() == i,
                    forall|k: int| 0 <= k < i ==> (#[trigger] list[k])@ == wire_form(tasks[k]@),
                decreases tasks.len() - i,
            {
                list.push(TaskJson::from(tasks[i].clone()));
                i += 1;
            }
            assert(list@.map_values(|task: TaskJson| task@) =~= wire_forms(task_views(tasks@)));
            Response { status: 200, body: Body::Tasks(list) }
        },
        Err(e) => error_to_response(e),
    }
}

/// The answer to a request for one task, given what the repository
/// returned.
pub fn get_task_response(r: Result<Task, RepositoryError>) -> (resp: Response)
    ensures
        resp@ == task_response(outcome_view(r)),
{
    match r {
        Ok(task) => Response { status: 200, body: Body::Task(TaskJson::from(task)) },
        Err(e) => error_to_response(e),
    }
}

/// The answer to a request to update a task, given what the repository
/// returned.
pub fn update_task_response(r: Result<(), RepositoryError>) -> (resp: Response)
    ensures
        resp@ == done_response(r),
{
    match r {
        Ok(_) => Response { status: 200, body: Body::Empty },
        Err(e) => error_to_response(e),
    }
}

/// The answer to a request to delete a task, given what the repository
/// returned.
pub fn delete_task_response(r: Result<(), RepositoryError>) -> (resp: Response)
    ensures
        resp@ == done_response(r),
{
    match r {
        Ok(_) => Response { status: 200, body: Body::Empty },
        Err(e) => error_to_response(e),
    }
}

/// The task service: its settings and the repository behind it.
pub struct Service<H: Handler> {
    pub config: Config,
    pub db: H,
}

impl<H: Handler> Service<H> {
    /// What the repository behind the service holds.
    pub open spec fn contents(&self) -> Contents {
        self.db.contents()
    }

    /// A service with these settings over this repository.
    pub fn create(config: Config, db: H) -> (r: Self)
        ensures
            r.config == config,
            r.contents() == db.contents(),
    {
        Service { config, db }
    }

    /// Answers a request to create a task with the payload `data`: 201 with
    /// the stored task, whose identifier no task ever had; or 500, with
    /// nothing stored.
    pub fn create_task(&mut self, data: TaskData) -> (resp: Response)
        ensures
            final(self).config == old(self).config,
            match resp@.body {
                BodyView::Task(json) => {
                    &&& resp@.status == 201
                    &&& json.data == data@
                    &&& is_id_text(json.id)
                    &&& json.id == hex::encode(hex::decode(json.id))
                    &&& old(self).contents().can_create(hex::decode(json.id))
                    &&& final(self).contents() == old(self).contents().create(
                        hex::decode(json.id),
                        data@,
                    )
                },
                _ => {
                    &&& resp@ == error_response(RepositoryError::StorageUnavailable)
                    &&& final(self).contents() == old(self).contents()
                },
            },
    {
        let r = self.db.create_task(data);
        proof {
            if r is Ok {
                id::lemma_parse_to_hex(r->Ok_0.id);
            }
        }
        create_task_response(r)
    }

    /// Answers a request for all tasks: 200 with every stored task once, in
    /// no promised order; or 500.
    pub fn get_all_tasks(&self) -> (resp: Response)
        ensures
            match resp@.body {
                BodyView::Tasks(list) => resp@.status == 200 && is_wire_listing(
                    self.contents(),
                    list,
                ),
                _ => resp@ == error_response(RepositoryError::StorageUnavailable),
            },
    {
        let r = self.db.get_all_tasks();
        proof {
            if r is Ok {
                assert(self.contents().is_listing(task_views(r->Ok_0@)));
            }
        }
        get_all_tasks_response(r)
    }

    /// Answers a request for the task named by the text `id`: 200 with the
    /// task, 400 where the text is no identifier, 404 where no task has it;
    /// or 500, but never in place of the 400.
    pub fn get_task(&self, id: &str) -> (resp: Response)
        ensures
            resp@ == task_response(self.contents().get(id@)) || (is_id_text(id@) && resp@
                == error_response(RepositoryError::StorageUnavailable)),
    {
        get_task_response(self.db.get_task(id))
    }

    /// Answers a request to replace the payload of the task named by the
    /// text `id`: 200 without a body, also where no task has the identifier;
    /// 400 where the text is no identifier; or 500, with nothing changed,
    /// but never in place of the 400.
    pub fn update_task(&mut self, id: &str, data: TaskData) -> (resp: Response)
        ensures
            final(self).config == old(self).config,
            resp@ == done_response(write_outcome(id@)) || (is_id_text(id@) && resp@
                == error_response(RepositoryError::StorageUnavailable)),
            final(self).contents() == if resp@.status == 200 {
                old(self).contents().update(id@, data@)
            } else {
                old(self).contents()
            },
    {
        update_task_response(self.db.update_task(id, data))
    }

    /// Answers a request to remove the task named by the text `id`: 200
    /// without a body, also where no task has the identifier; 400 where the
    /// text is no identifier; or 500, with nothing changed, but never in
    /// place of the 400.
    pub fn delete_task(&mut self, id: &str) -> (resp: Response)
        ensures
            final(self).config == old(self).config,
            resp@ == done_response(write_outcome(id@)) || (is_id_text(id@) && resp@
                == error_response(RepositoryError::StorageUnavailable)),
            final(self).contents() == if resp@.status == 200 {
                old(self).contents().delete(id@)
            } else {
                old(self).contents()
            },
    {
        delete_task_response(self.db.delete_task(id))
    }
}

} // verus!
