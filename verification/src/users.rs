//! The user store.
use vstd::prelude::*;
use crate::errors::RustFlowError;
use crate::model::{CreateUser, User};
use crate::records::{
    copy_all, find_index, holds_id, index_of, lemma_well_keyed_push, lemma_well_keyed_without,
    remove_with_id, well_keyed, without_id, Record,
};
use crate::text::{decimal, number_message};

verus! {

impl Record for User {
    open spec fn key(&self) -> u64 {
        self.id
    }

    fn record_id(&self) -> (id: u64) {
        self.id
    }

    fn duplicate(&self) -> (r: User) {
        User {
            id: self.id,
            email: self.email.clone(),
            first_name: self.first_name.clone(),
            last_name: self.last_name.clone(),
        }
    }
}

/// The users in the order they were added, and the id the next one gets.
pub struct UserStore {
    pub users: Vec<User>,
    pub next_id: u64,
}

/// The details of the error when no user has the id.
pub open spec fn user_not_found(id: u64) -> Seq<char> {
    "User with id "@ + decimal(id as nat) + " not found"@
}

impl UserStore {
    /// The ids are distinct and all below the next id.
    pub open spec fn wf(&self) -> bool {
        well_keyed(self.users@, self.next_id)
    }

    /// An empty store whose first user gets id 1.
    pub fn new() -> (s: UserStore)
        ensures
            s.wf(),
            s.users@.len() == 0,
            s.next_id == 1,
    {
        UserStore { users: Vec::new(), next_id: 1 }
    }

    /// Copies of all users, in store order.
    pub fn list(&self) -> (r: Vec<User>)
        ensures
            r@ == self.users@,
    {
        copy_all(&self.users)
    }

    /// The first user with the id, or a not-found error.
    pub fn get_one(&self, id: u64) -> (r: Result<User, RustFlowError>)
        ensures
            match r {
                Ok(u) => index_of(self.users@, id) matches Some(i) && u == self.users@[i],
                Err(e) => {
                    &&& index_of(self.users@, id) is None
                    &&& (e matches RustFlowError::NotFound(m) && m@ == user_not_found(id))
                },
            },
    {
        match find_index(&self.users, id) {
            Some(i) => Ok(self.users[i].duplicate()),
            None => Err(RustFlowError::NotFound(number_message("User with id ", id, " not found"))),
        }
    }

    /// Drops every user with the id; a not-found error when there is none.
    pub fn delete(&mut self, id: u64) -> (r: Result<(), RustFlowError>)
        ensures
            old(self).wf() ==> final(self).wf(),
            final(self).users@ == without_id(old(self).users@, id),
            final(self).next_id == old(self).next_id,
            match r {
                Ok(()) => holds_id(old(self).users@, id),
                Err(e) => {
                    &&& !holds_id(old(self).users@, id)
                    &&& (e matches RustFlowError::NotFound(m) && m@ == user_not_found(id))
                },
            },
    {
        proof {
            if old(self).wf() {
                lemma_well_keyed_without(self.users@, self.next_id, id);
            }
        }
        if remove_with_id(&mut self.users, id) {
            Ok(())
        } else {
            Err(RustFlowError::NotFound(number_message("User with id ", id, " not found")))
        }
    }

    /// Adds a user with the next id.
    pub fn create(&mut self, payload: CreateUser) -> (u: User)
        requires
            old(self).next_id < u64::MAX,
        ensures
            old(self).wf() ==> final(self).wf(),
            u == (User {
                id: old(self).next_id,
                email: payload.email,
                first_name: payload.first_name,
                last_name: payload.last_name,
            }),
            final(self).users@ == old(self).users@.push(u),
            final(self).next_id == old(self).next_id + 1,
    {
        let user = User {
            id: self.next_id,
            email: payload.email,
            first_name: payload.first_name,
            last_name: payload.last_name,
        };
        proof {
            if old(self).wf() {
                lemma_well_keyed_push(self.users@, self.next_id, user);
            }
        }
        self.next_id = self.next_id + 1;
        let copy = user.duplicate();
        self.users.push(copy);
        user
    }
}

} // verus!
