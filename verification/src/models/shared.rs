//! Roles and priorities shared by films and students.

use vstd::prelude::*;
use vstd::string::*;
use crate::errors::Error;
use crate::text::same_text;

verus! {

/// How urgently a film should be picked up. `High` is served before `Low`.
#[derive(Debug, Clone, Copy, PartialEq, Eq, Structural, PartialOrd, Ord, Hash)]
pub enum Priority {
    Low,
    High,
}

/// A post-production role. Roles are worked in the order
/// `Ae`, `Editor`, `Sound`, `Finish`; `Done` means nothing is left.
#[derive(Debug, Clone, Copy, PartialEq, Eq, Structural, PartialOrd, Ord, Hash)]
pub enum Role {
    Ae,
    Editor,
    Sound,
    Finish,
    Done,
}

impl Priority {
    /// Position in the order `Low < High`.
    pub open spec fn rank(self) -> int {
        match self {
            Priority::Low => 0,
            Priority::High => 1,
        }
    }

    /// The upper-case name of the priority.
    pub open spec fn text(self) -> Seq<char> {
        match self {
            Priority::Low => "LOW"@,
            Priority::High => "HIGH"@,
        }
    }

    /// Upper-case name, as stored and shown to users.
    pub fn as_ref(&self) -> (s: &'static str)
        ensures
            s@ == self.text(),
    {
        match self {
            Priority::Low => "LOW",
            Priority::High => "HIGH",
        }
    }
}

impl Priority {
    /// The priority with the given upper-case name.
    pub open spec fn named(text: Seq<char>) -> Option<Priority> {
        if text == "LOW"@ {
            Some(Priority::Low)
        } else if text == "HIGH"@ {
            Some(Priority::High)
        } else {
            None
        }
    }

    /// Reads a priority from its upper-case name. Any other text is a
    /// `ParseError`.
    pub fn from_str(s: &str) -> (r: Result<Priority, Error>)
        ensures
            r == (match Priority::named(s@) {
                Some(p) => Ok::<Priority, Error>(p),
                None => Err::<Priority, Error>(Error::ParseError),
            }),
            forall|p: Priority| r == Ok::<Priority, Error>(p) <==> s@ == p.text(),
    {
        proof {
            reveal_strlit("LOW");
            reveal_strlit("HIGH");
            assert("LOW"@.len() == 3 && "HIGH"@.len() == 4);
        }
        let r = if same_text(s, "LOW") {
            Ok(Priority::Low)
        } else if same_text(s, "HIGH") {
            Ok(Priority::High)
        } else {
            Err(Error::ParseError)
        };
        assert forall|p: Priority| r == Ok::<Priority, Error>(p) <==> s@ == p.text() by {
            match p {
                Priority::Low => {},
                Priority::High => {},
            }
        }
        r
    }
}

impl Default for Priority {
    fn default() -> (p: Self)
        ensures
            p == Priority::High,
    {
        Priority::High
    }
}

impl Role {
    /// Position in the pipeline: `Ae` is 0 and `Done` is 4.
    pub open spec fn rank(self) -> int {
        match self {
            Role::Ae => 0,
            Role::Editor => 1,
            Role::Sound => 2,
            Role::Finish => 3,
            Role::Done => 4,
        }
    }

    /// The upper-case name of the role.
    pub open spec fn text(self) -> Seq<char> {
        match self {
            Role::Ae => "AE"@,
            Role::Editor => "EDITOR"@,
            Role::Sound => "SOUND"@,
            Role::Finish => "FINISH"@,
            Role::Done => "DONE"@,
        }
    }

    /// Upper-case name, as stored and shown to users.
    pub fn as_ref(&self) -> (s: &'static str)
        ensures
            s@ == self.text(),
    {
        match self {
            Role::Ae => "AE",
            Role::Editor => "EDITOR",
            Role::Sound => "SOUND",
            Role::Finish => "FINISH",
            Role::Done => "DONE",
        }
    }
}

impl Role {
    /// The role with the given upper-case name.
    pub open spec fn named(text: Seq<char>) -> Option<Role> {
        if text == "AE"@ {
            Some(Role::Ae)
        } else if text == "EDITOR"@ {
            Some(Role::Editor)
        } else if text == "SOUND"@ {
            Some(Role::Sound)
        } else if text == "FINISH"@ {
            Some(Role::Finish)
        } else if text == "DONE"@ {
            Some(Role::Done)
        } else {
            None
        }
    }

    /// Reads a role from its upper-case name. Any other text is a
    /// `ParseError`.
    pub fn from_str(s: &str) -> (r: Result<Role, Error>)
        ensures
            r == (match Role::named(s@) {
                Some(role) => Ok::<Role, Error>(role),
                None => Err::<Role, Error>(Error::ParseError),
            }),
            forall|role: Role| r == Ok::<Role, Error>(role) <==> s@ == role.text(),
    {
        proof {
            reveal_strlit("AE");
            reveal_strlit("EDITOR");
            reveal_strlit("SOUND");
            reveal_strlit("FINISH");
            reveal_strlit("DONE");
        }
        proof {
            assert("AE"@.len() == 2 && "EDITOR"@.len() == 6 && "SOUND"@.len() == 5);
            assert("FINISH"@.len() == 6 && "DONE"@.len() == 4);
            assert("EDITOR"@[0] == 'E' && "FINISH"@[0] == 'F');
        }
        let r = if same_text(s, "AE") {
            Ok(Role::Ae)
        } else if same_text(s, "EDITOR") {
            Ok(Role::Editor)
        } else if same_text(s, "SOUND") {
            Ok(Role::Sound)
        } else if same_text(s, "FINISH") {
            Ok(Role::Finish)
        } else if same_text(s, "DONE") {
            Ok(Role::Done)
        } else {
            Err(Error::ParseError)
        };
        assert forall|role: Role| r == Ok::<Role, Error>(role) <==> s@ == role.text() by {
            match role {
                Role::Ae => {},
                Role::Editor => {},
                Role::Sound => {},
                Role::Finish => {},
                Role::Done => {},
            }
        }
        r
    }
}

impl Default for Role {
    fn default() -> (r: Self)
        ensures
            r == Role::Ae,
    {
        Role::Ae
    }
}

/// Copies an optional marker.
pub(crate) fn clone_marker(marker: &Option<String>) -> (copy: Option<String>)
    ensures
        copy == *marker,
{
    match marker {
        Some(text) => Some(text.clone()),
        None => None,
    }
}

/// The record of completed roles: one optional marker per role.
///
/// On a film a marker is the name of the student who did that role; on a
/// student it is the name of the film the role was done on.
#[derive(Debug, PartialEq, Eq, Hash)]
pub struct Roles {
    pub ae: Option<String>,
    pub editor: Option<String>,
    pub sound: Option<String>,
    pub finish: Option<String>,
}

impl Roles {
    /// The marker stored for `role`; `Done` has no slot.
    pub open spec fn slot(self, role: Role) -> Option<String> {
        match role {
            Role::Ae => self.ae,
            Role::Editor => self.editor,
            Role::Sound => self.sound,
            Role::Finish => self.finish,
            Role::Done => None,
        }
    }

    /// The first role in pipeline order whose slot is unset.
    pub open spec fn next_role(self) -> Role {
        if self.ae is None {
            Role::Ae
        } else if self.editor is None {
            Role::Editor
        } else if self.sound is None {
            Role::Sound
        } else if self.finish is None {
            Role::Finish
        } else {
            Role::Done
        }
    }

    /// Slots are filled in pipeline order: no slot is set after an unset one.
    pub open spec fn in_order(self) -> bool {
        &&& self.editor is Some ==> self.ae is Some
        &&& self.sound is Some ==> self.editor is Some
        &&& self.finish is Some ==> self.sound is Some
    }

    /// The record with the slot of `role` set to `marker`; unchanged for `Done`.
    pub open spec fn completed(self, role: Role, marker: String) -> Roles {
        match role {
            Role::Ae => Roles { ae: Some(marker), ..self },
            Role::Editor => Roles { editor: Some(marker), ..self },
            Role::Sound => Roles { sound: Some(marker), ..self },
            Role::Finish => Roles { finish: Some(marker), ..self },
            Role::Done => self,
        }
    }

    pub fn new(
        ae: Option<String>,
        editor: Option<String>,
        sound: Option<String>,
        finish: Option<String>,
    ) -> (roles: Roles)
        ensures
            roles == (Roles { ae, editor, sound, finish }),
    {
        Roles { ae, editor, sound, finish }
    }

    /// The first unset slot in pipeline order, `Done` when all are set.
    pub fn get_next_role(&self) -> (role: Role)
        ensures
            role == self.next_role(),
    {
        if self.ae.is_none() {
            Role::Ae
        } else if self.editor.is_none() {
            Role::Editor
        } else if self.sound.is_none() {
            Role::Sound
        } else if self.finish.is_none() {
            Role::Finish
        } else {
            Role::Done
        }
    }

    /// Sets the slot of `role` to `marker`, overwriting what was there.
    /// For `Done` nothing changes.
    pub fn complete_role(&mut self, role: Role, marker: String)
        ensures
            *final(self) == old(self).completed(role, marker),
    {
        match role {
            Role::Ae => self.ae = Some(marker),
            Role::Editor => self.editor = Some(marker),
            Role::Sound => self.sound = Some(marker),
            Role::Finish => self.finish = Some(marker),
            Role::Done => {},
        }
    }
}

impl Default for Roles {
    fn default() -> (roles: Self)
        ensures
            roles == (Roles { ae: None, editor: None, sound: None, finish: None }),
    {
        Roles { ae: None, editor: None, sound: None, finish: None }
    }
}

impl Clone for Roles {
    fn clone(&self) -> (copy: Self)
        ensures
            copy == *self,
    {
        Roles {
            ae: clone_marker(&self.ae),
            editor: clone_marker(&self.editor),
            sound: clone_marker(&self.sound),
            finish: clone_marker(&self.finish),
        }
    }
}

/// Completing the next role of an ordered record keeps it ordered and moves
/// the next role forward by exactly one step.
pub proof fn lemma_complete_next_role(roles: Roles, marker: String)
    requires
        roles.in_order(),
    ensures
        roles.completed(roles.next_role(), marker).in_order(),
        roles.next_role() != Role::Done ==> roles.completed(
            roles.next_role(),
            marker,
        ).next_role().rank() == roles.next_role().rank() + 1,
        roles.next_role() == Role::Done ==> roles.completed(roles.next_role(), marker) == roles,
{
}

} // verus!
