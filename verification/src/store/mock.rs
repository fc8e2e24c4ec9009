//! An in-memory store.

use vstd::prelude::*;
use vstd::string::*;
use crate::errors::Error;
use crate::ids::fresh_id;
use crate::models::films::Film;
use crate::models::shared::{clone_marker, Priority, Role};
use crate::models::students::Student;
use crate::queue::item::QueueItem;
use crate::store::state::{
    class_student_inserted, film_inserted, films_updated, first_entry, first_student_named,
    has_entry, has_film_id, has_film_named, has_row, has_student_id, has_student_named,
    has_student_slack, key_conflict, lemma_filter_take_nothing, lemma_filter_take_step, open_to,
    pairs_with, resolved, resolved_name, row_index, rows_without, slack_taken_by_other,
    store_failed, student_inserted, students_updated, update_refused, worked_by, StoreView,
};
use crate::text::same_text;

verus! {

/// A store that keeps everything in memory.
///
/// While `success` is false every operation fails with an internal error
/// and changes nothing, as a store would whose backend is out of reach.
pub struct MockClient {
    pub success: bool,
    films: Vec<Film>,
    students: Vec<Student>,
    worked: Vec<(u128, u128)>,
    jobs: Vec<QueueItem>,
    waits: Vec<QueueItem>,
    directory: Vec<(String, String)>,
}

impl View for MockClient {
    type V = StoreView;

    closed spec fn view(&self) -> StoreView {
        StoreView {
            success: self.success,
            films: self.films@,
            students: self.students@,
            worked: self.worked@,
            jobs: self.jobs@,
            waits: self.waits@,
            directory: self.directory@,
        }
    }
}

/// The store as the engine and its callers see it.
pub type Database = MockClient;

/// The error of a store that is out of reach.
fn sample_error<T>() -> (r: Result<T, Error>)
    ensures
        store_failed(r),
{
    Err(Error::Internal(String::from_str("sample error")))
}

/// An empty store that works.
pub fn new_mock() -> (db: MockClient)
    ensures
        db@.wf(),
        db@.success,
        db@.films.len() == 0,
        db@.students.len() == 0,
        db@.worked.len() == 0,
        db@.jobs.len() == 0,
        db@.waits.len() == 0,
        db@.directory.len() == 0,
{
    MockClient::new()
}

impl MockClient {
    /// An empty store that works.
    pub fn new() -> (db: MockClient)
        ensures
            db@.wf(),
            db@.success,
            db@.films.len() == 0,
            db@.students.len() == 0,
            db@.worked.len() == 0,
            db@.jobs.len() == 0,
            db@.waits.len() == 0,
            db@.directory.len() == 0,
    {
        MockClient {
            success: true,
            films: Vec::new(),
            students: Vec::new(),
            worked: Vec::new(),
            jobs: Vec::new(),
            waits: Vec::new(),
            directory: Vec::new(),
        }
    }

    /// Whether the store works.
    pub fn is_up(&self) -> (up: bool)
        ensures
            up == self@.success,
    {
        self.success
    }

    /// Makes the store work (`true`) or fail on every operation (`false`).
    pub fn set_success(&mut self, success: bool)
        ensures
            final(self)@ == (StoreView { success, ..old(self)@ }),
    {
        self.success = success;
    }

    /// The index of the film with the given name.
    fn film_index(&self, name: &str) -> (found: Option<usize>)
        ensures
            found matches Some(i) ==> i < self.films@.len() && self.films@[i as int].name@ == name@,
            found is None ==> !has_film_named(self.films@, name@),
    {
        let mut i: usize = 0;
        while i < self.films.len()
            invariant
                i <= self.films@.len(),
                forall|j: int| 0 <= j < i ==> (#[trigger] self.films@[j]).name@ != name@,
            decreases self.films@.len() - i,
        {
            if same_text(self.films[i].name.as_str(), name) {
                return Some(i);
            }
            i += 1;
        }
        None
    }

    /// Whether a film has the given id.
    fn film_id_taken(&self, id: u128) -> (taken: bool)
        ensures
            taken == has_film_id(self.films@, id),
    {
        let mut i: usize = 0;
        while i < self.films.len()
            invariant
                i <= self.films@.len(),
                forall|j: int| 0 <= j < i ==> (#[trigger] self.films@[j]).id != id,
            decreases self.films@.len() - i,
        {
            if self.films[i].id == id {
                return true;
            }
            i += 1;
        }
        false
    }

    // ------------- Films ------------- //

    /// All films, in the order in which they were inserted.
    pub fn list_films(&self) -> (r: Result<Vec<Film>, Error>)
        ensures
            !self@.success ==> store_failed(r),
            self@.success ==> r is Ok && r->Ok_0@ == self@.films,
    {
        if !self.success {
            return sample_error();
        }
        let mut out: Vec<Film> = Vec::new();
        let mut i: usize = 0;
        while i < self.films.len()
            invariant
                i <= self.films@.len(),
                out@ == self.films@.take(i as int),
            decreases self.films@.len() - i,
        {
            out.push(self.films[i].clone());
            assert(self.films@.take(i + 1) =~= self.films@.take(i as int).push(
                self.films@[i as int],
            ));
            i += 1;
        }
        assert(self.films@.take(i as int) =~= self.films@);
        Ok(out)
    }

    /// The film with the given name, if there is one.
    pub fn get_film(&self, film_name: &str) -> (r: Result<Option<Film>, Error>)
        ensures
            !self@.success ==> store_failed(r),
            self@.success ==> r is Ok,
            self@.success ==> (r->Ok_0 is None <==> !has_film_named(self@.films, film_name@)),
            self@.success ==> (r->Ok_0 matches Some(film) ==> self@.films.contains(film)
                && film.name@ == film_name@),
    {
        if !self.success {
            return sample_error();
        }
        match self.film_index(film_name) {
            Some(i) => Ok(Some(self.films[i].clone())),
            None => Ok(None),
        }
    }

    /// Inserts a blank film with the given id.
    ///
    /// Fails with `Duplicate`, changing nothing, exactly when a film of that
    /// name or id is in the store already.
    pub fn insert_film_with_id(
        &mut self,
        id: u128,
        name: &str,
        group_number: i32,
        priority: Priority,
    ) -> (r: Result<Film, Error>)
        requires
            old(self)@.wf(),
        ensures
            final(self)@.wf(),
            film_inserted(old(self)@, id, name@, group_number, priority, r, final(self)@),
            !old(self)@.success ==> store_failed(r) && final(self)@ == old(self)@,
            old(self)@.success && (has_film_named(old(self)@.films, name@) || has_film_id(
                old(self)@.films,
                id,
            )) ==> (r matches Err(Error::Duplicate(n)) && n@ == name@) && final(self)@ == old(
                self,
            )@,
            old(self)@.success && !has_film_named(old(self)@.films, name@) && !has_film_id(
                old(self)@.films,
                id,
            ) ==> {
                &&& r matches Ok(film)
                &&& film.id == id
                &&& film.name@ == name@
                &&& film.priority == priority
                &&& film.group_number == group_number
                &&& film.is_blank()
                &&& final(self)@ == (StoreView { films: old(self)@.films.push(film), ..old(self)@ })
            },
            old(self)@.roles_consistent() ==> final(self)@.roles_consistent(),
    {
        if !self.success {
            return sample_error();
        }
        if self.film_index(name).is_some() || self.film_id_taken(id) {
            return Err(Error::Duplicate(String::from_str(name)));
        }
        let film = Film::with_id(id, name, priority, group_number);
        self.films.push(film.clone());
        Ok(film)
    }

    /// Inserts a blank film under a freshly drawn id: what happens is what
    /// `film_inserted` says for the id drawn. A film whose name the store has
    /// is a `Duplicate`; while the store holds no film the insert succeeds.
    pub fn insert_film(&mut self, name: &str, group_number: i32, priority: Priority) -> (r: Result<
        Film,
        Error,
    >)
        requires
            old(self)@.wf(),
        ensures
            final(self)@.wf(),
            exists|id: u128| #[trigger]
                film_inserted(old(self)@, id, name@, group_number, priority, r, final(self)@),
            old(self)@.roles_consistent() ==> final(self)@.roles_consistent(),
    {
        self.insert_film_with_id(fresh_id(), name, group_number, priority)
    }

    /// Takes over the roles and the current role of `film` for the stored
    /// film of the same name. Without such a film nothing changes.
    pub fn update_film(&mut self, film: &Film) -> (r: Result<(), Error>)
        requires
            old(self)@.wf(),
        ensures
            final(self)@.wf(),
            !old(self)@.success ==> store_failed(r) && final(self)@ == old(self)@,
            old(self)@.success ==> r is Ok && final(self)@ == (StoreView {
                films: films_updated(old(self)@.films, *film),
                ..old(self)@
            }),
            old(self)@.roles_consistent() && film.wf() ==> final(self)@.roles_consistent(),
    {
        if !self.success {
            return sample_error();
        }
        match self.film_index(film.name.as_str()) {
            Some(i) => {
                let stored = &self.films[i];
                let updated = Film {
                    id: stored.id,
                    name: stored.name.clone(),
                    current_role: film.current_role,
                    priority: stored.priority,
                    roles: film.roles.clone(),
                    group_number: stored.group_number,
                };
                self.films.set(i, updated);
                assert(self.films@ =~= films_updated(old(self).films@, *film));
            },
            None => {
                assert(self.films@ =~= films_updated(old(self).films@, *film));
            },
        }
        Ok(())
    }

    // ------------- Junction ------------- //

    /// Whether the pair is in the junction.
    fn worked_contains(&self, student_id: u128, film_id: u128) -> (found: bool)
        ensures
            found == self.worked@.contains((student_id, film_id)),
    {
        let mut i: usize = 0;
        while i < self.worked.len()
            invariant
                i <= self.worked@.len(),
                forall|j: int| 0 <= j < i ==> self.worked@[j] != (student_id, film_id),
            decreases self.worked@.len() - i,
        {
            if self.worked[i].0 == student_id && self.worked[i].1 == film_id {
                assert(self.worked@[i as int] == (student_id, film_id));
                return true;
            }
            i += 1;
        }
        false
    }

    /// The films that the student has been assigned to, in store order.
    pub fn get_worked_films(&self, student_id: u128) -> (r: Result<Vec<Film>, Error>)
        ensures
            !self@.success ==> store_failed(r),
            self@.success ==> r is Ok && r->Ok_0@ == self@.worked_films(student_id),
    {
        if !self.success {
            return sample_error();
        }
        let ghost pred = worked_by(self.worked@, student_id);
        let mut out: Vec<Film> = Vec::new();
        let mut i: usize = 0;
        proof {
            lemma_filter_take_nothing(self.films@, pred);
        }
        while i < self.films.len()
            invariant
                i <= self.films@.len(),
                pred == worked_by(self.worked@, student_id),
                out@ == self.films@.take(i as int).filter(pred),
            decreases self.films@.len() - i,
        {
            proof {
                lemma_filter_take_step(self.films@, pred, i as int);
            }
            if self.worked_contains(student_id, self.films[i].id) {
                out.push(self.films[i].clone());
            }
            i += 1;
        }
        assert(self.films@.take(i as int) =~= self.films@);
        Ok(out)
    }

    /// Records that the student has been assigned the film. Recording a pair
    /// twice changes nothing.
    pub fn insert_student_films(&mut self, s_id: u128, f_id: u128) -> (r: Result<(), Error>)
        requires
            old(self)@.wf(),
        ensures
            final(self)@.wf(),
            !old(self)@.success ==> store_failed(r) && final(self)@ == old(self)@,
            old(self)@.success ==> r is Ok && final(self)@ == (StoreView {
                worked: pairs_with(old(self)@.worked, (s_id, f_id)),
                ..old(self)@
            }),
            old(self)@.roles_consistent() ==> final(self)@.roles_consistent(),
    {
        if !self.success {
            return sample_error();
        }
        if !self.worked_contains(s_id, f_id) {
            self.worked.push((s_id, f_id));
        }
        Ok(())
    }

    /// The films of another group than `group` on which `role` is still
    /// open, in store order. `Done` names no slot: asking for it fails.
    pub fn get_films_exclusionary(&self, group: i32, role: Role) -> (r: Result<Vec<Film>, Error>)
        ensures
            !self@.success ==> store_failed(r),
            self@.success && role == Role::Done ==> (r matches Err(Error::Internal(m)) && m@
                == "no such role slot"@),
            self@.success && role != Role::Done ==> r is Ok && r->Ok_0@ == self@.eligible_films(
                group,
                role,
            ),
    {
        if !self.success {
            return sample_error();
        }
        if role == Role::Done {
            return Err(Error::Internal(String::from_str("no such role slot")));
        }
        let ghost pred = open_to(group, role);
        let mut out: Vec<Film> = Vec::new();
        let mut i: usize = 0;
        proof {
            lemma_filter_take_nothing(self.films@, pred);
        }
        while i < self.films.len()
            invariant
                i <= self.films@.len(),
                pred == open_to(group, role),
                role != Role::Done,
                out@ == self.films@.take(i as int).filter(pred),
            decreases self.films@.len() - i,
        {
            proof {
                lemma_filter_take_step(self.films@, pred, i as int);
            }
            let film = &self.films[i];
            let open = match role {
                Role::Ae => film.roles.ae.is_none(),
                Role::Editor => film.roles.editor.is_none(),
                Role::Sound => film.roles.sound.is_none(),
                _ => film.roles.finish.is_none(),
            };
            if film.group_number != group && open {
                out.push(film.clone());
            }
            i += 1;
        }
        assert(self.films@.take(i as int) =~= self.films@);
        Ok(out)
    }

    // ------------- Students ------------- //

    /// The index of the student with the given id.
    fn student_index(&self, id: u128) -> (found: Option<usize>)
        ensures
            found matches Some(i) ==> i < self.students@.len() && self.students@[i as int].id == id,
            found is None ==> !has_student_id(self.students@, id),
    {
        let mut i: usize = 0;
        while i < self.students.len()
            invariant
                i <= self.students@.len(),
                forall|j: int| 0 <= j < i ==> (#[trigger] self.students@[j]).id != id,
            decreases self.students@.len() - i,
        {
            if self.students[i].id == id {
                return Some(i);
            }
            i += 1;
        }
        None
    }

    /// The index of the student with the given chat user id.
    fn student_index_by_slack(&self, slack_id: &str) -> (found: Option<usize>)
        ensures
            found matches Some(i) ==> i < self.students@.len() && self.students@[i as int].slack_id@
                == slack_id@ && slack_id@.len() > 0,
            found is None ==> !has_student_slack(self.students@, slack_id@),
    {
        if slack_id.unicode_len() == 0 {
            return None;
        }
        let mut i: usize = 0;
        while i < self.students.len()
            invariant
                i <= self.students@.len(),
                slack_id@.len() > 0,
                forall|j: int| 0 <= j < i ==> (#[trigger] self.students@[j]).slack_id@ != slack_id@,
            decreases self.students@.len() - i,
        {
            if same_text(self.students[i].slack_id.as_str(), slack_id) {
                return Some(i);
            }
            i += 1;
        }
        None
    }

    /// The index of the first student with the given name.
    fn student_index_by_name(&self, name: &str) -> (found: Option<usize>)
        ensures
            found matches Some(i) ==> first_student_named(self.students@, name@, i as int),
            found is None ==> !has_student_named(self.students@, name@),
    {
        let mut i: usize = 0;
        while i < self.students.len()
            invariant
                i <= self.students@.len(),
                forall|j: int| 0 <= j < i ==> (#[trigger] self.students@[j]).name@ != name@,
            decreases self.students@.len() - i,
        {
            if same_text(self.students[i].name.as_str(), name) {
                return Some(i);
            }
            i += 1;
        }
        None
    }

    /// The index of the first directory entry for the chat user id.
    fn entry_index(&self, slack_id: &str) -> (found: Option<usize>)
        ensures
            found matches Some(i) ==> first_entry(self.directory@, slack_id@, i as int),
            found is None ==> !has_entry(self.directory@, slack_id@),
    {
        let mut i: usize = 0;
        while i < self.directory.len()
            invariant
                i <= self.directory@.len(),
                forall|j: int| 0 <= j < i ==> (#[trigger] self.directory@[j]).0@ != slack_id@,
            decreases self.directory@.len() - i,
        {
            if same_text(self.directory[i].0.as_str(), slack_id) {
                return Some(i);
            }
            i += 1;
        }
        None
    }

    /// Tells the store which display name the chat platform gives for a chat
    /// user id. The first entry for an id is the one that counts.
    pub fn register_user(&mut self, slack_id: &str, name: &str)
        requires
            old(self)@.wf(),
        ensures
            final(self)@.wf(),
            final(self)@.directory.len() == old(self)@.directory.len() + 1,
            final(self)@.directory.last().0@ == slack_id@,
            final(self)@.directory.last().1@ == name@,
            final(self)@ == (StoreView { directory: final(self)@.directory, ..old(self)@ }),
            final(self)@.directory.drop_last() == old(self)@.directory,
            old(self)@.roles_consistent() ==> final(self)@.roles_consistent(),
    {
        self.directory.push((String::from_str(slack_id), String::from_str(name)));
        assert(self.directory@.drop_last() =~= old(self).directory@);
    }

    /// The display name that the chat platform gives for a chat user id.
    pub fn lookup_user_name(&self, slack_id: &str) -> (name: Option<String>)
        ensures
            name is Some <==> has_entry(self@.directory, slack_id@),
            name matches Some(n) ==> n@ == resolved_name(self@.directory, slack_id@),
    {
        match self.entry_index(slack_id) {
            Some(i) => {
                proof {
                    let k = choose|k: int| first_entry(self.directory@, slack_id@, k);
                    assert(first_entry(self.directory@, slack_id@, i as int));
                    assert(k == i);
                }
                Some(self.directory[i].1.clone())
            },
            None => None,
        }
    }

    /// All students, in the order in which they were inserted.
    pub fn list_students(&self) -> (r: Result<Vec<Student>, Error>)
        ensures
            !self@.success ==> store_failed(r),
            self@.success ==> r is Ok && r->Ok_0@ == self@.students,
    {
        if !self.success {
            return sample_error();
        }
        let mut out: Vec<Student> = Vec::new();
        let mut i: usize = 0;
        while i < self.students.len()
            invariant
                i <= self.students@.len(),
                out@ == self.students@.take(i as int),
            decreases self.students@.len() - i,
        {
            out.push(self.students[i].clone());
            assert(self.students@.take(i + 1) =~= self.students@.take(i as int).push(
                self.students@[i as int],
            ));
            i += 1;
        }
        assert(self.students@.take(i as int) =~= self.students@);
        Ok(out)
    }

    /// Inserts a blank student who is known by a chat user id.
    ///
    /// Fails with `Duplicate`, changing nothing, exactly when a student with
    /// that id or that chat user id is in the store already.
    pub fn insert_student_with_id(&mut self, id: u128, slack_id: &str, name: &str) -> (r: Result<
        Student,
        Error,
    >)
        requires
            old(self)@.wf(),
        ensures
            final(self)@.wf(),
            student_inserted(old(self)@, id, slack_id@, name@, r, final(self)@),
            !old(self)@.success ==> store_failed(r) && final(self)@ == old(self)@,
            old(self)@.success && (has_student_id(old(self)@.students, id) || has_student_slack(
                old(self)@.students,
                slack_id@,
            )) ==> (r matches Err(Error::Duplicate(n)) && n@ == name@) && final(self)@ == old(
                self,
            )@,
            old(self)@.success && !has_student_id(old(self)@.students, id) && !has_student_slack(
                old(self)@.students,
                slack_id@,
            ) ==> {
                &&& r matches Ok(student)
                &&& student.id == id
                &&& student.slack_id@ == slack_id@
                &&& student.name@ == name@
                &&& student.group_number == 0
                &&& student.class@ == Seq::<char>::empty()
                &&& student.is_blank()
                &&& final(self)@ == (StoreView {
                    students: old(self)@.students.push(student),
                    ..old(self)@
                })
            },
            old(self)@.roles_consistent() ==> final(self)@.roles_consistent(),
    {
        if !self.success {
            return sample_error();
        }
        if self.student_index(id).is_some() || self.student_index_by_slack(slack_id).is_some() {
            return Err(Error::Duplicate(String::from_str(name)));
        }
        let student = Student::with_id(id, slack_id, name, 0, "");
        proof {
            reveal_strlit("");
            assert(student.class@ =~= Seq::<char>::empty());
        }
        self.students.push(student.clone());
        Ok(student)
    }

    /// Inserts a blank student who is known by a chat user id, under a
    /// freshly drawn id: what happens is what `student_inserted` says for the
    /// id drawn.
    pub fn insert_student(&mut self, slack_id: &str, name: &str) -> (r: Result<Student, Error>)
        requires
            old(self)@.wf(),
        ensures
            final(self)@.wf(),
            exists|id: u128| #[trigger]
                student_inserted(old(self)@, id, slack_id@, name@, r, final(self)@),
            old(self)@.roles_consistent() ==> final(self)@.roles_consistent(),
    {
        self.insert_student_with_id(fresh_id(), slack_id, name)
    }

    /// Inserts a blank student from a class list: with name, group and
    /// class, and without a chat user id.
    ///
    /// Fails with `Duplicate`, changing nothing, exactly when the id is taken.
    /// Names need not be unique.
    pub fn insert_student_from_csv_with_id(
        &mut self,
        id: u128,
        name: &str,
        group: i32,
        class: &str,
    ) -> (r: Result<Student, Error>)
        requires
            old(self)@.wf(),
        ensures
            final(self)@.wf(),
            class_student_inserted(old(self)@, id, name@, group, class@, r, final(self)@),
            !old(self)@.success ==> store_failed(r) && final(self)@ == old(self)@,
            old(self)@.success && has_student_id(old(self)@.students, id) ==> (r matches Err(
                Error::Duplicate(n),
            ) && n@ == name@) && final(self)@ == old(self)@,
            old(self)@.success && !has_student_id(old(self)@.students, id) ==> {
                &&& r matches Ok(student)
                &&& student.id == id
                &&& student.slack_id@ == Seq::<char>::empty()
                &&& student.name@ == name@
                &&& student.group_number == group
                &&& student.class@ == class@
                &&& student.is_blank()
                &&& final(self)@ == (StoreView {
                    students: old(self)@.students.push(student),
                    ..old(self)@
                })
            },
            old(self)@.roles_consistent() ==> final(self)@.roles_consistent(),
    {
        if !self.success {
            return sample_error();
        }
        if self.student_index(id).is_some() {
            return Err(Error::Duplicate(String::from_str(name)));
        }
        let student = Student::with_id(id, "", name, group, class);
        proof {
            reveal_strlit("");
            assert(student.slack_id@ =~= Seq::<char>::empty());
        }
        self.students.push(student.clone());
        Ok(student)
    }

    /// Inserts a blank student from a class list under a freshly drawn id:
    /// what happens is what `class_student_inserted` says for the id drawn.
    pub fn insert_student_from_csv(&mut self, name: &str, group: i32, class: &str) -> (r: Result<
        Student,
        Error,
    >)
        requires
            old(self)@.wf(),
        ensures
            final(self)@.wf(),
            exists|id: u128| #[trigger]
                class_student_inserted(old(self)@, id, name@, group, class@, r, final(self)@),
            old(self)@.roles_consistent() ==> final(self)@.roles_consistent(),
    {
        self.insert_student_from_csv_with_id(fresh_id(), name, group, class)
    }

    /// Takes over roles, current role, current film and chat user id of
    /// `student` for the stored student of the same id. Without such a
    /// student nothing changes.
    ///
    /// Fails with an internal error, changing nothing, exactly when another
    /// student has the chat user id already.
    pub fn update_student(&mut self, student: &Student) -> (r: Result<(), Error>)
        requires
            old(self)@.wf(),
        ensures
            final(self)@.wf(),
            !old(self)@.success ==> store_failed(r) && final(self)@ == old(self)@,
            old(self)@.success && update_refused(old(self)@.students, *student) ==> key_conflict(r)
                && final(self)@ == old(self)@,
            old(self)@.success && !update_refused(old(self)@.students, *student) ==> r is Ok
                && final(self)@ == (StoreView {
                students: students_updated(old(self)@.students, *student),
                ..old(self)@
            }),
            old(self)@.roles_consistent() && student.wf() ==> final(self)@.roles_consistent(),
    {
        if !self.success {
            return sample_error();
        }
        match self.student_index(student.id) {
            Some(i) => {
                if self.slack_taken(student.id, student.slack_id.as_str()) {
                    return Err(Error::Internal(String::from_str("duplicate key")));
                }
                let stored = &self.students[i];
                let updated = Student {
                    id: stored.id,
                    slack_id: student.slack_id.clone(),
                    name: stored.name.clone(),
                    group_number: stored.group_number,
                    class: stored.class.clone(),
                    current_film: clone_marker(&student.current_film),
                    current_role: student.current_role,
                    roles: student.roles.clone(),
                };
                self.students.set(i, updated);
                assert(self.students@ =~= students_updated(old(self).students@, *student));
            },
            None => {
                assert(self.students@ =~= students_updated(old(self).students@, *student));
            },
        }
        Ok(())
    }

    /// Whether `update_student` would take the student: it refuses one whose
    /// chat user id another student has.
    pub fn can_update_student(&self, student: &Student) -> (ok: bool)
        ensures
            ok == !update_refused(self@.students, *student),
    {
        match self.student_index(student.id) {
            Some(_) => !self.slack_taken(student.id, student.slack_id.as_str()),
            None => true,
        }
    }

    /// Whether another student than the one with id `id` has the chat user id.
    fn slack_taken(&self, id: u128, slack_id: &str) -> (taken: bool)
        ensures
            taken == slack_taken_by_other(self.students@, id, slack_id@),
    {
        if slack_id.unicode_len() == 0 {
            return false;
        }
        let mut i: usize = 0;
        while i < self.students.len()
            invariant
                i <= self.students@.len(),
                slack_id@.len() > 0,
                forall|j: int|
                    0 <= j < i ==> !((#[trigger] self.students@[j]).id != id
                        && self.students@[j].slack_id@ == slack_id@),
            decreases self.students@.len() - i,
        {
            if self.students[i].id != id && same_text(
                self.students[i].slack_id.as_str(),
                slack_id,
            ) {
                return true;
            }
            i += 1;
        }
        false
    }

    /// The student with the given chat user id.
    ///
    /// A student who is not known by that id is looked up by the display
    /// name that the directory gives for the id: the first student of that
    /// name is returned, and where there is none a blank student with the id
    /// `fresh` is inserted. Fails with `NotFound` when the directory does not
    /// resolve the id, and with `Duplicate` when `fresh` is taken. The cases
    /// are spelled out in `resolved`.
    pub fn get_student_with_id(&mut self, slack_id: &str, fresh: u128) -> (r: Result<
        Student,
        Error,
    >)
        requires
            old(self)@.wf(),
        ensures
            final(self)@.wf(),
            !old(self)@.success ==> store_failed(r) && final(self)@ == old(self)@,
            old(self)@.success ==> resolved(old(self)@, slack_id@, fresh, r, final(self)@),
            r matches Ok(student) ==> final(self)@.students.contains(student),
            r is Err ==> final(self)@ == old(self)@,
            old(self)@.roles_consistent() ==> final(self)@.roles_consistent(),
    {
        if !self.success {
            return sample_error();
        }
        if let Some(i) = self.student_index_by_slack(slack_id) {
            return Ok(self.students[i].clone());
        }
        let name = match self.lookup_user_name(slack_id) {
            Some(name) => name,
            None => {
                return Err(Error::NotFound(String::from_str(slack_id)));
            },
        };
        if let Some(i) = self.student_index_by_name(name.as_str()) {
            return Ok(self.students[i].clone());
        }
        let r = self.insert_student_with_id(fresh, slack_id, name.as_str());
        proof {
            if r is Ok {
                assert(self.students@.last() == r->Ok_0);
            }
        }
        r
    }

    /// The student with the given chat user id; see `get_student_with_id`.
    /// The id of a student who has to be inserted is freshly drawn.
    pub fn get_student(&mut self, slack_id: &str) -> (r: Result<Student, Error>)
        requires
            old(self)@.wf(),
        ensures
            final(self)@.wf(),
            !old(self)@.success ==> store_failed(r) && final(self)@ == old(self)@,
            old(self)@.success ==> exists|fresh: u128| #[trigger]
                resolved(old(self)@, slack_id@, fresh, r, final(self)@),
            r matches Ok(student) ==> final(self)@.students.contains(student),
            r is Err ==> final(self)@ == old(self)@,
            old(self)@.roles_consistent() ==> final(self)@.roles_consistent(),
    {
        self.get_student_with_id(slack_id, fresh_id())
    }

    // ------------- Queue ------------- //

    /// The rows of the wait queue (`wait`) or of the jobs queue, in the
    /// order in which they were inserted.
    pub fn get_queue(&self, wait: bool) -> (r: Result<Vec<QueueItem>, Error>)
        ensures
            !self@.success ==> store_failed(r),
            self@.success ==> r is Ok && r->Ok_0@ == self@.rows(wait),
    {
        if !self.success {
            return sample_error();
        }
        if wait {
            Ok(copy_rows(&self.waits))
        } else {
            Ok(copy_rows(&self.jobs))
        }
    }

    /// Adds a row to the wait queue (`wait`) or to the jobs queue and hands
    /// the item back.
    ///
    /// Fails with an internal error, changing nothing, exactly when that
    /// queue has a row with the id of the item already.
    pub fn insert_to_queue(&mut self, q: QueueItem, wait: bool) -> (r: Result<QueueItem, Error>)
        requires
            old(self)@.wf(),
        ensures
            final(self)@.wf(),
            !old(self)@.success ==> store_failed(r) && final(self)@ == old(self)@,
            old(self)@.success && has_row(old(self)@.rows(wait), q.id) ==> key_conflict(r)
                && final(self)@ == old(self)@,
            old(self)@.success && !has_row(old(self)@.rows(wait), q.id) ==> r == Ok::<
                QueueItem,
                Error,
            >(q) && final(self)@ == old(self)@.with_rows(wait, old(self)@.rows(wait).push(q)),
            old(self)@.roles_consistent() ==> final(self)@.roles_consistent(),
    {
        if !self.success {
            return sample_error();
        }
        let taken = if wait {
            find_row(&self.waits, q.id).is_some()
        } else {
            find_row(&self.jobs, q.id).is_some()
        };
        if taken {
            return Err(Error::Internal(String::from_str("duplicate key")));
        }
        if wait {
            self.waits.push(q.clone());
        } else {
            self.jobs.push(q.clone());
        }
        Ok(q)
    }

    /// Removes the row with the given id from the wait queue (`wait`) or
    /// from the jobs queue. Without such a row nothing changes.
    pub fn delete_from_queue(&mut self, id: u128, wait: bool) -> (r: Result<(), Error>)
        requires
            old(self)@.wf(),
        ensures
            final(self)@.wf(),
            !old(self)@.success ==> store_failed(r) && final(self)@ == old(self)@,
            old(self)@.success ==> r is Ok && final(self)@ == old(self)@.with_rows(
                wait,
                rows_without(old(self)@.rows(wait), id),
            ),
            old(self)@.success ==> !has_row(final(self)@.rows(wait), id),
            old(self)@.roles_consistent() ==> final(self)@.roles_consistent(),
    {
        if !self.success {
            return sample_error();
        }
        if wait {
            match find_row(&self.waits, id) {
                Some(i) => {
                    assert(row_index(self.waits@, id) == i);
                    self.waits.remove(i);
                },
                None => {},
            }
        } else {
            match find_row(&self.jobs, id) {
                Some(i) => {
                    assert(row_index(self.jobs@, id) == i);
                    self.jobs.remove(i);
                },
                None => {},
            }
        }
        Ok(())
    }

    /// Empties the store: films, students, worked films and both queues.
    /// The directory of chat users is kept.
    pub fn drop_db(&mut self) -> (r: Result<(), Error>)
        ensures
            !old(self)@.success ==> store_failed(r) && final(self)@ == old(self)@,
            old(self)@.success ==> r is Ok && final(self)@ == (StoreView {
                films: Seq::empty(),
                students: Seq::empty(),
                worked: Seq::empty(),
                jobs: Seq::empty(),
                waits: Seq::empty(),
                ..old(self)@
            }),
            old(self)@.success ==> final(self)@.wf() && final(self)@.roles_consistent(),
    {
        if !self.success {
            return sample_error();
        }
        self.films = Vec::new();
        self.students = Vec::new();
        self.worked = Vec::new();
        self.jobs = Vec::new();
        self.waits = Vec::new();
        Ok(())
    }
}

/// The index of the row with the given id.
fn find_row(rows: &Vec<QueueItem>, id: u128) -> (found: Option<usize>)
    ensures
        found matches Some(i) ==> i < rows@.len() && rows@[i as int].id == id,
        found is None ==> !has_row(rows@, id),
{
    let mut i: usize = 0;
    while i < rows.len()
        invariant
            i <= rows@.len(),
            forall|j: int| 0 <= j < i ==> (#[trigger] rows@[j]).id != id,
        decreases rows@.len() - i,
    {
        if rows[i].id == id {
            return Some(i);
        }
        i += 1;
    }
    None
}

/// A copy of the rows.
fn copy_rows(rows: &Vec<QueueItem>) -> (out: Vec<QueueItem>)
    ensures
        out@ == rows@,
{
    let mut out: Vec<QueueItem> = Vec::new();
    let mut i: usize = 0;
    while i < rows.len()
        invariant
            i <= rows@.len(),
            out@ == rows@.take(i as int),
        decreases rows@.len() - i,
    {
        out.push(rows[i].clone());
        assert(rows@.take(i + 1) =~= rows@.take(i as int).push(rows@[i as int]));
        i += 1;
    }
    assert(rows@.take(i as int) =~= rows@);
    out
}

} // verus!
