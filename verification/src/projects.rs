//! The project store.
use vstd::prelude::*;
use crate::errors::RustFlowError;
use crate::model::{copy_opt_string, CreateProject, Project};
use crate::records::{
    copy_all, find_index, holds_id, index_of, lemma_well_keyed_push, lemma_well_keyed_without,
    remove_with_id, well_keyed, without_id, Record,
};
use crate::text::{decimal, number_message};

verus! {

impl Record for Project {
    open spec fn key(&self) -> u64 {
        self.id
    }

    fn record_id(&self) -> (id: u64) {
        self.id
    }

    fn duplicate(&self) -> (r: Project) {
        Project { id: self.id, name: self.name.clone(), description: copy_opt_string(&self.description) }
    }
}

/// The projects in the order they were added, and the id the next one
/// gets.
pub struct ProjectStore {
    pub projects: Vec<Project>,
    pub next_id: u64,
}

/// The details of the error when a lookup finds no project.
pub open spec fn project_not_found(id: u64) -> Seq<char> {
    "Project with id "@ + decimal(id as nat) + " not found"@
}

/// The details of the error when a deletion finds no project.
pub open spec fn project_missing(id: u64) -> Seq<char> {
    "Project with id "@ + decimal(id as nat) + " does not exist"@
}

impl ProjectStore {
    /// The ids are distinct and all below the next id.
    pub open spec fn wf(&self) -> bool {
        well_keyed(self.projects@, self.next_id)
    }

    /// An empty store whose first project gets id 1.
    pub fn new() -> (s: ProjectStore)
        ensures
            s.wf(),
            s.projects@.len() == 0,
            s.next_id == 1,
    {
        ProjectStore { projects: Vec::new(), next_id: 1 }
    }

    /// Copies of all projects, in store order.
    pub fn list(&self) -> (r: Vec<Project>)
        ensures
            r@ == self.projects@,
    {
        copy_all(&self.projects)
    }

    /// The first project with the id, or a not-found error.
    pub fn get_one(&self, id: u64) -> (r: Result<Project, RustFlowError>)
        ensures
            match r {
                Ok(p) => index_of(self.projects@, id) matches Some(i) && p == self.projects@[i],
                Err(e) => {
                    &&& index_of(self.projects@, id) is None
                    &&& (e matches RustFlowError::NotFound(m) && m@ == project_not_found(id))
                },
            },
    {
        match find_index(&self.projects, id) {
            Some(i) => Ok(self.projects[i].duplicate()),
            None => Err(RustFlowError::NotFound(number_message("Project with id ", id, " not found"))),
        }
    }

    /// Drops every project with the id; a not-found error when there is
    /// none.
    pub fn delete(&mut self, id: u64) -> (r: Result<(), RustFlowError>)
        ensures
            old(self).wf() ==> final(self).wf(),
            final(self).projects@ == without_id(old(self).projects@, id),
            final(self).next_id == old(self).next_id,
            match r {
                Ok(()) => holds_id(old(self).projects@, id),
                Err(e) => {
                    &&& !holds_id(old(self).projects@, id)
                    &&& (e matches RustFlowError::NotFound(m) && m@ == project_missing(id))
                },
            },
    {
        proof {
            if old(self).wf() {
                lemma_well_keyed_without(self.projects@, self.next_id, id);
            }
        }
        if remove_with_id(&mut self.projects, id) {
            Ok(())
        } else {
            Err(RustFlowError::NotFound(number_message("Project with id ", id, " does not exist")))
        }
    }

    /// Adds a project with the next id.
    pub fn create(&mut self, payload: CreateProject) -> (p: Project)
        requires
            old(self).next_id < u64::MAX,
        ensures
            old(self).wf() ==> final(self).wf(),
            p == (Project { id: old(self).next_id, name: payload.name, description: payload.description }),
            final(self).projects@ == old(self).projects@.push(p),
            final(self).next_id == old(self).next_id + 1,
    {
        let project = Project { id: self.next_id, name: payload.name, description: payload.description };
        proof {
            if old(self).wf() {
                lemma_well_keyed_push(self.projects@, self.next_id, project);
            }
        }
        self.next_id = self.next_id + 1;
        let copy = project.duplicate();
        self.projects.push(copy);
        project
    }
}

} // verus!
