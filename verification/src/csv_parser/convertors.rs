//! From lists to the model, and from the model to reports.

use vstd::prelude::*;
use vstd::string::*;
use crate::csv_parser::structs::{FilmInput, FilmOutput, StudentInput, StudentOutput};
use crate::ids::fresh_id;
use crate::models::films::Film;
use crate::models::students::Student;
use crate::text::{find_space, has_space, is_first_space};

verus! {

/// The text of a marker, empty where there is none.
pub open spec fn marker_text(marker: Option<String>) -> Seq<char> {
    match marker {
        Some(text) => text@,
        None => Seq::empty(),
    }
}

/// The marker, or the empty string where there is none.
fn unwrap_or_default(marker: Option<String>) -> (text: String)
    ensures
        text@ == marker_text(marker),
{
    match marker {
        Some(text) => text,
        None => String::new(),
    }
}

impl FilmInput {
    /// The blank film of this entry, with the given id.
    pub fn to_film_with_id(&self, id: u128) -> (film: Film)
        ensures
            film.id == id,
            film.name@ == self.code@,
            film.priority == self.priority,
            film.group_number == self.group,
            film.is_blank(),
            film.wf(),
    {
        Film::with_id(id, self.code.as_str(), self.priority, self.group)
    }

    /// The blank film of this entry, with a freshly drawn id.
    pub fn to_film(&self) -> (film: Film)
        ensures
            film.name@ == self.code@,
            film.priority == self.priority,
            film.group_number == self.group,
            film.is_blank(),
            film.wf(),
    {
        self.to_film_with_id(fresh_id())
    }
}

impl StudentInput {
    /// The blank student of this entry, with the given id: named by first
    /// and last name with a space between, and without a chat user id.
    pub fn to_student_with_id(&self, id: u128) -> (student: Student)
        ensures
            student.id == id,
            student.name@ == self.first@ + " "@ + self.last@,
            student.group_number == self.group,
            student.class@ == self.class@,
            student.slack_id@ == Seq::<char>::empty(),
            student.is_blank(),
            student.wf(),
    {
        let name = self.first.clone().concat(" ").concat(self.last.as_str());
        proof {
            reveal_strlit("");
        }
        Student::with_id(id, "", name.as_str(), self.group, self.class.as_str())
    }

    /// The blank student of this entry, with a freshly drawn id.
    pub fn to_student(&self) -> (student: Student)
        ensures
            student.name@ == self.first@ + " "@ + self.last@,
            student.group_number == self.group,
            student.class@ == self.class@,
            student.slack_id@ == Seq::<char>::empty(),
            student.is_blank(),
            student.wf(),
    {
        self.to_student_with_id(fresh_id())
    }
}

impl StudentOutput {
    /// The report line of a student. The name is split at its first space
    /// into first and last name; a name without a space gives two empty ones.
    pub fn from(s: Student) -> (out: StudentOutput)
        ensures
            out.class == s.class,
            out.group == s.group_number,
            forall|i: int|
                is_first_space(s.name@, i) ==> out.first@ == s.name@.subrange(0, i) && out.last@
                    == s.name@.subrange(i + 1, s.name@.len() as int),
            !has_space(s.name@) ==> out.first@ == Seq::<char>::empty() && out.last@ == Seq::<
                char,
            >::empty(),
            out.ae@ == marker_text(s.roles.ae),
            out.sound@ == marker_text(s.roles.sound),
            out.editor@ == marker_text(s.roles.editor),
            out.finish@ == marker_text(s.roles.finish),
    {
        let name = s.name.as_str();
        let (first, last) = match find_space(name) {
            Some(i) => {
                let n = name.unicode_len();
                (
                    String::from_str(name.substring_char(0, i)),
                    String::from_str(name.substring_char(i + 1, n)),
                )
            },
            None => (String::new(), String::new()),
        };
        StudentOutput {
            first,
            last,
            class: s.class,
            group: s.group_number,
            ae: unwrap_or_default(s.roles.ae),
            sound: unwrap_or_default(s.roles.sound),
            editor: unwrap_or_default(s.roles.editor),
            finish: unwrap_or_default(s.roles.finish),
        }
    }
}

impl FilmOutput {
    /// The report line of a film.
    pub fn from(f: Film) -> (out: FilmOutput)
        ensures
            out.code == f.name,
            out.group == f.group_number,
            out.priority == f.priority,
            out.ae@ == marker_text(f.roles.ae),
            out.sound@ == marker_text(f.roles.sound),
            out.editor@ == marker_text(f.roles.editor),
            out.finish@ == marker_text(f.roles.finish),
    {
        FilmOutput {
            code: f.name,
            group: f.group_number,
            priority: f.priority,
            ae: unwrap_or_default(f.roles.ae),
            sound: unwrap_or_default(f.roles.sound),
            editor: unwrap_or_default(f.roles.editor),
            finish: unwrap_or_default(f.roles.finish),
        }
    }
}

} // verus!
