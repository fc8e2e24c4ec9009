//! Students and their progress through the role pipeline.

use vstd::prelude::*;
use crate::ids::fresh_id;
use crate::models::shared::{clone_marker, Role, Roles};

verus! {

/// A student of the course.
///
/// `slack_id` is the chat user id and is empty until the student has talked
/// to the bot; `current_film` names the film the student is working on.
#[derive(Debug, PartialEq, Eq, Hash)]
pub struct Student {
    pub id: u128,
    pub slack_id: String,
    pub name: String,
    pub group_number: i32,
    pub class: String,
    pub current_film: Option<String>,
    pub current_role: Role,
    pub roles: Roles,
}

impl Student {
    /// The cached current role agrees with the record, and the record is
    /// filled in pipeline order.
    pub open spec fn wf(self) -> bool {
        &&& self.roles.in_order()
        &&& self.current_role == self.roles.next_role()
    }

    /// A student who has not worked any role and holds no film.
    pub open spec fn is_blank(self) -> bool {
        &&& self.current_film is None
        &&& self.current_role == Role::Ae
        &&& self.roles == (Roles { ae: None, editor: None, sound: None, finish: None })
    }

    /// The student after the work on the current role is done: `marker` is
    /// recorded for that role, and the current role is the next unset one.
    pub open spec fn advanced(self, marker: String) -> Student {
        let roles = self.roles.completed(self.current_role, marker);
        Student { roles, current_role: roles.next_role(), ..self }
    }

    /// Advancing a well-formed student keeps it well-formed and never skips
    /// a slot: the current role moves forward by exactly one step, and at
    /// `Done` nothing changes.
    pub proof fn lemma_advance_is_one_step(self, marker: String)
        requires
            self.wf(),
        ensures
            self.advanced(marker).wf(),
            self.current_role != Role::Done ==> self.advanced(marker).current_role.rank()
                == self.current_role.rank() + 1,
            self.current_role != Role::Done ==> self.advanced(marker).roles.slot(
                self.current_role,
            ) == Some(marker),
            self.current_role == Role::Done ==> self.advanced(marker) == self,
    {
    }

    /// A blank student with the given identifier.
    pub fn with_id(
        id: u128,
        slack_id: &str,
        name: &str,
        group_number: i32,
        class: &str,
    ) -> (student: Student)
        ensures
            student.id == id,
            student.slack_id@ == slack_id@,
            student.name@ == name@,
            student.group_number == group_number,
            student.class@ == class@,
            student.is_blank(),
            student.wf(),
    {
        Student {
            id,
            slack_id: slack_id.to_owned(),
            name: name.to_owned(),
            group_number,
            class: class.to_owned(),
            current_film: None,
            current_role: Role::Ae,
            roles: Roles::default(),
        }
    }

    /// Records `marker` (the name of the film just finished) for the current
    /// role and moves on to the next unset role, which is returned.
    ///
    /// On a well-formed student the current role moves forward by exactly
    /// one step; a student who is `Done` keeps role and record.
    pub fn increment_role(&mut self, marker: String) -> (role: Role)
        ensures
            *final(self) == old(self).advanced(marker),
            role == final(self).current_role,
            old(self).wf() ==> final(self).wf(),
            old(self).wf() && old(self).current_role != Role::Done ==> role.rank() == old(
                self,
            ).current_role.rank() + 1,
            old(self).wf() && old(self).current_role == Role::Done ==> final(self).roles == old(
                self,
            ).roles && role == Role::Done,
    {
        self.roles.complete_role(self.current_role, marker);
        self.current_role = self.roles.get_next_role();
        self.current_role
    }

    /// The first role that this student has not done yet.
    pub fn get_next_role(&self) -> (role: Role)
        ensures
            role == self.roles.next_role(),
    {
        self.roles.get_next_role()
    }
}

impl Default for Student {
    /// A blank, unnamed student of group 0 with a fresh identifier.
    fn default() -> (student: Self)
        ensures
            student.slack_id@ == Seq::<char>::empty(),
            student.name@ == Seq::<char>::empty(),
            student.group_number == 0,
            student.class@ == Seq::<char>::empty(),
            student.is_blank(),
            student.wf(),
    {
        Student {
            id: fresh_id(),
            slack_id: String::new(),
            name: String::new(),
            group_number: 0,
            class: String::new(),
            current_film: None,
            current_role: Role::Ae,
            roles: Roles::default(),
        }
    }
}

impl Clone for Student {
    fn clone(&self) -> (copy: Self)
        ensures
            copy == *self,
    {
        Student {
            id: self.id,
            slack_id: self.slack_id.clone(),
            name: self.name.clone(),
            group_number: self.group_number,
            class: self.class.clone(),
            current_film: clone_marker(&self.current_film),
            current_role: self.current_role,
            roles: self.roles.clone(),
        }
    }
}

} // verus!
