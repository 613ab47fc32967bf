//! The task store: the seeded task list, its queries and its changes.
use vstd::prelude::*;
use vstd::string::*;
use crate::errors::RustFlowError;
use crate::model::{copy_opt_string, task_matches, CreateTask, Task, TaskFilter, TaskStatus, Priority};
use crate::records::{
    copy_all, find_index, holds_id, index_of, lemma_well_keyed_push, lemma_well_keyed_update,
    lemma_well_keyed_without, remove_with_id, well_keyed, without_id, Record,
};
use crate::text::{decimal, number_message, str_contains, text_message};

verus! {

impl Record for Task {
    open spec fn key(&self) -> u64 {
        self.id
    }

    fn record_id(&self) -> (id: u64) {
        self.id
    }

    fn duplicate(&self) -> (r: Task) {
        Task {
            id: self.id,
            title: self.title.clone(),
            description: copy_opt_string(&self.description),
            priority: self.priority,
            status: self.status,
        }
    }
}

/// The tasks in the order they were added, and the id the next one gets.
pub struct TaskStore {
    pub tasks: Vec<Task>,
    pub next_id: u64,
}

/// The details of the error for a task id that no task has.
pub open spec fn task_missing(id: u64) -> Seq<char> {
    "Task with id "@ + decimal(id as nat) + " does not exist"@
}

/// The details of the error for a task id that the enrichment endpoint
/// cannot find.
pub open spec fn task_not_found(id: u64) -> Seq<char> {
    "Task with id "@ + decimal(id as nat) + " not found"@
}

/// The details of the error for a title that a task already has.
pub open spec fn title_conflict(title: Seq<char>) -> Seq<char> {
    "Task with title "@ + title + " already exists"@
}

/// Whether some task has exactly this title.
pub open spec fn title_taken(tasks: Seq<Task>, title: Seq<char>) -> bool {
    exists|i: int| 0 <= i < tasks.len() && #[trigger] tasks[i].title@ == title
}

/// The test that a filter applies to each task.
pub open spec fn matching(f: TaskFilter) -> spec_fn(Task) -> bool {
    |t: Task| task_matches(f, t)
}

/// Whether the task passes every condition of the filter.
pub fn filter_accepts(filter: &TaskFilter, task: &Task) -> (b: bool)
    ensures
        b == task_matches(*filter, *task),
{
    let status_ok = match &filter.status {
        Some(s) => task.status == *s,
        None => true,
    };
    let priority_ok = match &filter.priority {
        Some(p) => task.priority == *p,
        None => true,
    };
    let search_ok = match &filter.search {
        Some(q) => {
            str_contains(task.title.as_str(), q.as_str()) || match &task.description {
                Some(d) => str_contains(d.as_str(), q.as_str()),
                None => false,
            }
        },
        None => true,
    };
    status_ok && priority_ok && search_ok
}

fn seed_task(id: u64, title: &str, description: Option<&str>, priority: Priority, status: TaskStatus) -> (t: Task)
    ensures
        t.id == id,
        t.title@ == title@,
        match description {
            Some(d) => t.description matches Some(x) && x@ == d@,
            None => t.description is None,
        },
        t.priority == priority,
        t.status == status,
{
    let description = match description {
        Some(d) => Some(String::from_str(d)),
        None => None,
    };
    Task { id, title: String::from_str(title), description, priority, status }
}

impl TaskStore {
    /// The ids are distinct and all below the next id.
    pub open spec fn wf(&self) -> bool {
        well_keyed(self.tasks@, self.next_id)
    }

    /// The store as the service starts: three tasks, the next id 4.
    pub fn new() -> (s: TaskStore)
        ensures
            s.wf(),
            s.next_id == 4,
            s.tasks@.len() == 3,
            s.tasks@[0].id == 1,
            s.tasks@[0].title@ == "Set up workspace"@,
            s.tasks@[0].description matches Some(d) && d@ == "Initialize the Cargo workspace"@,
            s.tasks@[0].priority == Priority::High,
            s.tasks@[0].status == TaskStatus::Done,
            s.tasks@[1].id == 2,
            s.tasks@[1].title@ == "Add Axum"@,
            s.tasks@[1].description matches Some(d) && d@ == "Create the HTTP server"@,
            s.tasks@[1].priority == Priority::High,
            s.tasks@[1].status == TaskStatus::InProgress,
            s.tasks@[2].id == 3,
            s.tasks@[2].title@ == "Write extractors lesson"@,
            s.tasks@[2].description is None,
            s.tasks@[2].priority == Priority::Medium,
            s.tasks@[2].status == TaskStatus::Pending,
    {
        let mut tasks: Vec<Task> = Vec::new();
        tasks.push(seed_task(1, "Set up workspace", Some("Initialize the Cargo workspace"), Priority::High, TaskStatus::Done));
        tasks.push(seed_task(2, "Add Axum", Some("Create the HTTP server"), Priority::High, TaskStatus::InProgress));
        tasks.push(seed_task(3, "Write extractors lesson", None, Priority::Medium, TaskStatus::Pending));
        let next_id = tasks.len() as u64 + 1;
        TaskStore { tasks, next_id }
    }

    /// The tasks that pass the filter, in store order.
    pub fn list(&self, filter: &TaskFilter) -> (r: Vec<Task>)
        ensures
            r@ == self.tasks@.filter(matching(*filter)),
            forall|i: int| 0 <= i < r@.len() ==> {
                &&& (filter.status matches Some(s) ==> #[trigger] r@[i].status == s)
                &&& (filter.priority matches Some(p) ==> r@[i].priority == p)
            },
    {
        let ghost pred = matching(*filter);
        let mut out: Vec<Task> = Vec::new();
        let mut i: usize = 0;
        while i < self.tasks.len()
            invariant
                i <= self.tasks.len(),
                out@ == self.tasks@.take(i as int).filter(pred),
                pred == matching(*filter),
            decreases self.tasks.len() - i,
        {
            proof {
                assert(self.tasks@.take(i as int + 1) =~= self.tasks@.take(i as int).push(self.tasks@[i as int]));
                self.tasks@.take(i as int).lemma_filter_push(self.tasks@[i as int], pred);
            }
            if filter_accepts(filter, &self.tasks[i]) {
                out.push(self.tasks[i].duplicate());
            }
            i = i + 1;
        }
        assert(self.tasks@.take(self.tasks.len() as int) =~= self.tasks@);
        proof {
            crate::laws::law_list_meets_filter_fields(self.tasks@, *filter);
            assert forall|i: int| 0 <= i < out@.len() implies {
                &&& (filter.status matches Some(s) ==> #[trigger] out@[i].status == s)
                &&& (filter.priority matches Some(p) ==> out@[i].priority == p)
            } by {
                assert(self.tasks@.contains(self.tasks@.filter(matching(*filter))[i]));
            }
        }
        out
    }

    /// The first task with the id, or a not-found error.
    pub fn get_one(&self, id: u64) -> (r: Result<Task, RustFlowError>)
        ensures
            match r {
                Ok(t) => index_of(self.tasks@, id) matches Some(i) && t == self.tasks@[i],
                Err(e) => {
                    &&& index_of(self.tasks@, id) is None
                    &&& (e matches RustFlowError::NotFound(m) && m@ == task_missing(id))
                },
            },
    {
        match find_index(&self.tasks, id) {
            Some(i) => Ok(self.tasks[i].duplicate()),
            None => Err(RustFlowError::NotFound(number_message("Task with id ", id, " does not exist"))),
        }
    }

    /// The first task with the id, as the enrichment endpoint looks it up.
    pub fn find_for_enrichment(&self, id: u64) -> (r: Result<Task, RustFlowError>)
        ensures
            match r {
                Ok(t) => index_of(self.tasks@, id) matches Some(i) && t == self.tasks@[i],
                Err(e) => {
                    &&& index_of(self.tasks@, id) is None
                    &&& (e matches RustFlowError::NotFound(m) && m@ == task_not_found(id))
                },
            },
    {
        match find_index(&self.tasks, id) {
            Some(i) => Ok(self.tasks[i].duplicate()),
            None => Err(RustFlowError::NotFound(number_message("Task with id ", id, " not found"))),
        }
    }

    /// Whether some task has exactly this title.
    pub fn has_title(&self, title: &String) -> (b: bool)
        ensures
            b == title_taken(self.tasks@, title@),
    {
        let mut i: usize = 0;
        while i < self.tasks.len()
            invariant
                i <= self.tasks.len(),
                forall|j: int| 0 <= j < i ==> #[trigger] self.tasks@[j].title@ != title@,
            decreases self.tasks.len() - i,
        {
            if self.tasks[i].title == *title {
                return true;
            }
            i = i + 1;
        }
        false
    }

    /// Adds a pending task with the next id, unless a task already has the
    /// title.
    pub fn create(&mut self, payload: CreateTask) -> (r: Result<Task, RustFlowError>)
        requires
            !title_taken(old(self).tasks@, payload.title@) ==> old(self).next_id < u64::MAX,
        ensures
            old(self).wf() ==> final(self).wf(),
            (exists|i: int| 0 <= i < old(self).tasks@.len() && #[trigger] old(self).tasks@[i].title@ == payload.title@)
                ==> (r matches Err(RustFlowError::Conflict(_)) && final(self).tasks@ == old(self).tasks@),
            r is Ok ==> forall|i: int| 0 <= i < old(self).tasks@.len() ==> #[trigger] old(self).tasks@[i].title@ != payload.title@,
            match r {
                Ok(t) => {
                    &&& !title_taken(old(self).tasks@, payload.title@)
                    &&& t == (Task {
                        id: old(self).next_id,
                        title: payload.title,
                        description: payload.description,
                        priority: payload.priority,
                        status: TaskStatus::Pending,
                    })
                    &&& final(self).tasks@ == old(self).tasks@.push(t)
                    &&& final(self).next_id == old(self).next_id + 1
                },
                Err(e) => {
                    &&& title_taken(old(self).tasks@, payload.title@)
                    &&& (e matches RustFlowError::Conflict(m) && m@ == title_conflict(payload.title@))
                    &&& final(self).tasks@ == old(self).tasks@
                    &&& final(self).next_id == old(self).next_id
                },
            },
    {
        if self.has_title(&payload.title) {
            return Err(RustFlowError::Conflict(text_message("Task with title ", payload.title.as_str(), " already exists")));
        }
        let task = Task {
            id: self.next_id,
            title: payload.title,
            description: payload.description,
            priority: payload.priority,
            status: TaskStatus::Pending,
        };
        proof {
            if old(self).wf() {
                lemma_well_keyed_push(self.tasks@, self.next_id, task);
            }
        }
        self.next_id = self.next_id + 1;
        let copy = task.duplicate();
        self.tasks.push(copy);
        Ok(task)
    }

    /// Drops every task with the id; a not-found error when there is none.
    pub fn delete(&mut self, id: u64) -> (r: Result<(), RustFlowError>)
        ensures
            old(self).wf() ==> final(self).wf(),
            final(self).tasks@ == without_id(old(self).tasks@, id),
            final(self).next_id == old(self).next_id,
            match r {
                Ok(()) => holds_id(old(self).tasks@, id),
                Err(e) => {
                    &&& !holds_id(old(self).tasks@, id)
                    &&& (e matches RustFlowError::NotFound(m) && m@ == task_missing(id))
                },
            },
    {
        proof {
            if old(self).wf() {
                lemma_well_keyed_without(self.tasks@, self.next_id, id);
            }
        }
        if remove_with_id(&mut self.tasks, id) {
            Ok(())
        } else {
            Err(RustFlowError::NotFound(number_message("Task with id ", id, " does not exist")))
        }
    }

    /// Replaces the title, description and priority of the first task with
    /// the id; its id and status stay.
    pub fn update(&mut self, id: u64, payload: CreateTask) -> (r: Result<Task, RustFlowError>)
        ensures
            old(self).wf() ==> final(self).wf(),
            final(self).next_id == old(self).next_id,
            match r {
                Ok(t) => index_of(old(self).tasks@, id) matches Some(i)
                    && t == (Task {
                        id: id,
                        title: payload.title,
                        description: payload.description,
                        priority: payload.priority,
                        status: old(self).tasks@[i].status,
                    })
                    && final(self).tasks@ == old(self).tasks@.update(i, t),
                Err(e) => {
                    &&& index_of(old(self).tasks@, id) is None
                    &&& (e matches RustFlowError::NotFound(m) && m@ == task_missing(id))
                    &&& final(self).tasks@ == old(self).tasks@
                },
            },
    {
        match find_index(&self.tasks, id) {
            Some(i) => {
                proof {
                    crate::records::lemma_index_of(self.tasks@, id);
                }
                let status = self.tasks[i].status;
                let task = Task {
                    id: self.tasks[i].id,
                    title: payload.title,
                    description: payload.description,
                    priority: payload.priority,
                    status,
                };
                proof {
                    if old(self).wf() {
                        lemma_well_keyed_update(self.tasks@, self.next_id, i as int, task);
                    }
                }
                let copy = task.duplicate();
                self.tasks.set(i, copy);
                Ok(task)
            },
            None => Err(RustFlowError::NotFound(number_message("Task with id ", id, " does not exist"))),
        }
    }

    /// Sets the status of the first task with the id; everything else stays.
    pub fn change_status(&mut self, id: u64, status: TaskStatus) -> (r: Result<Task, RustFlowError>)
        ensures
            old(self).wf() ==> final(self).wf(),
            final(self).next_id == old(self).next_id,
            match r {
                Ok(t) => index_of(old(self).tasks@, id) matches Some(i)
                    && t == (Task { status: status, ..old(self).tasks@[i] })
                    && final(self).tasks@ == old(self).tasks@.update(i, t),
                Err(e) => {
                    &&& index_of(old(self).tasks@, id) is None
                    &&& (e matches RustFlowError::NotFound(m) && m@ == task_missing(id))
                    &&& final(self).tasks@ == old(self).tasks@
                },
            },
    {
        match find_index(&self.tasks, id) {
            Some(i) => {
                let mut task = self.tasks[i].duplicate();
                task.status = status;
                proof {
                    if old(self).wf() {
                        lemma_well_keyed_update(self.tasks@, self.next_id, i as int, task);
                    }
                }
                let copy = task.duplicate();
                self.tasks.set(i, copy);
                Ok(task)
            },
            None => Err(RustFlowError::NotFound(number_message("Task with id ", id, " does not exist"))),
        }
    }

    /// Copies of all tasks, in store order.
    pub fn all(&self) -> (r: Vec<Task>)
        ensures
            r@ == self.tasks@,
    {
        copy_all(&self.tasks)
    }
}

} // verus!
