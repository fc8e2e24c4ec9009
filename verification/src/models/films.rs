//! Films and their progress through the role pipeline.

use vstd::prelude::*;
use crate::ids::fresh_id;
use crate::models::shared::{Priority, Role, Roles};

verus! {

/// A film that students work on, one role at a time.
#[derive(Debug, PartialEq, Eq, Hash)]
pub struct Film {
    pub id: u128,
    pub name: String,
    pub current_role: Role,
    pub priority: Priority,
    pub roles: Roles,
    pub group_number: i32,
}

impl Film {
    /// The cached current role agrees with the record, and the record is
    /// filled in pipeline order.
    pub open spec fn wf(self) -> bool {
        &&& self.roles.in_order()
        &&& self.current_role == self.roles.next_role()
    }

    /// A film on which no role has been worked yet.
    pub open spec fn is_blank(self) -> bool {
        &&& self.current_role == Role::Ae
        &&& self.roles == (Roles { ae: None, editor: None, sound: None, finish: None })
    }

    /// The film after the work on its current role is done: `marker` is
    /// recorded for that role, and the current role is the next unset one.
    pub open spec fn advanced(self, marker: String) -> Film {
        let roles = self.roles.completed(self.current_role, marker);
        Film { roles, current_role: roles.next_role(), ..self }
    }

    /// Advancing a well-formed film keeps it well-formed and never skips
    /// a slot: the current role moves forward by exactly one step, and at
    /// `Done` nothing changes.
    pub proof fn lemma_advance_is_one_step(self, marker: String)
        requires
            self.wf(),
        ensures
            self.advanced(marker).wf(),
            self.current_role != Role::Done ==> self.advanced(marker).current_role.rank()
                == self.current_role.rank() + 1,
            self.current_role != Role::Done ==> self.advanced(marker).roles.slot(
                self.current_role,
            ) == Some(marker),
            self.current_role == Role::Done ==> self.advanced(marker) == self,
    {
    }

    /// A blank film with the given identifier.
    pub fn with_id(id: u128, name: &str, priority: Priority, group_number: i32) -> (film: Film)
        ensures
            film.id == id,
            film.name@ == name@,
            film.priority == priority,
            film.group_number == group_number,
            film.is_blank(),
            film.wf(),
    {
        Film {
            id,
            name: name.to_owned(),
            current_role: Role::Ae,
            priority,
            roles: Roles::default(),
            group_number,
        }
    }

    /// A blank film with a freshly drawn identifier.
    pub fn new(name: &str, priority: Priority, group_number: i32) -> (film: Film)
        ensures
            film.name@ == name@,
            film.priority == priority,
            film.group_number == group_number,
            film.is_blank(),
            film.wf(),
    {
        Film::with_id(fresh_id(), name, priority, group_number)
    }

    /// Records `marker` (the name of the student who did the work) for the
    /// current role and moves on to the next unset role, which is returned.
    ///
    /// On a well-formed film the current role moves forward by exactly one
    /// step; a film that is `Done` stays as it is.
    pub fn increment_role(&mut self, marker: String) -> (role: Role)
        ensures
            *final(self) == old(self).advanced(marker),
            role == final(self).current_role,
            old(self).wf() ==> final(self).wf(),
            old(self).wf() && old(self).current_role != Role::Done ==> role.rank() == old(
                self,
            ).current_role.rank() + 1,
            old(self).wf() && old(self).current_role == Role::Done ==> *final(self) == *old(self),
    {
        self.roles.complete_role(self.current_role, marker);
        self.current_role = self.roles.get_next_role();
        self.current_role
    }

    /// The first role that is still open on this film.
    pub fn get_next_role(&self) -> (role: Role)
        ensures
            role == self.roles.next_role(),
    {
        self.roles.get_next_role()
    }
}

impl Default for Film {
    /// A blank, unnamed, high-priority film of group 0 with a fresh identifier.
    fn default() -> (film: Self)
        ensures
            film.name@ == Seq::<char>::empty(),
            film.priority == Priority::High,
            film.group_number == 0,
            film.is_blank(),
            film.wf(),
    {
        Film {
            id: fresh_id(),
            name: String::new(),
            current_role: Role::Ae,
            priority: Priority::High,
            roles: Roles::default(),
            group_number: 0,
        }
    }
}

impl Clone for Film {
    fn clone(&self) -> (copy: Self)
        ensures
            copy == *self,
    {
        Film {
            id: self.id,
            name: self.name.clone(),
            current_role: self.current_role,
            priority: self.priority,
            roles: self.roles.clone(),
            group_number: self.group_number,
        }
    }
}

} // verus!
