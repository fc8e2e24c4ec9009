//! What a store holds, as a mathematical value.

use vstd::prelude::*;
use crate::errors::Error;
use crate::models::films::Film;
use crate::models::shared::{Priority, Role};
use crate::models::students::Student;
use crate::queue::item::QueueItem;

verus! {

/// The contents of a store.
///
/// `worked` is the junction of (student id, film id) pairs; `jobs` and
/// `waits` are the rows of the two queues; `directory` maps chat user ids
/// to display names, as the chat platform would resolve them.
pub struct StoreView {
    pub success: bool,
    pub films: Seq<Film>,
    pub students: Seq<Student>,
    pub worked: Seq<(u128, u128)>,
    pub jobs: Seq<QueueItem>,
    pub waits: Seq<QueueItem>,
    pub directory: Seq<(String, String)>,
}

/// Some film has the given name.
pub open spec fn has_film_named(films: Seq<Film>, name: Seq<char>) -> bool {
    exists|i: int| 0 <= i < films.len() && (#[trigger] films[i]).name@ == name
}

/// Some film has the given id.
pub open spec fn has_film_id(films: Seq<Film>, id: u128) -> bool {
    exists|i: int| 0 <= i < films.len() && (#[trigger] films[i]).id == id
}

/// Some student has the given id.
pub open spec fn has_student_id(students: Seq<Student>, id: u128) -> bool {
    exists|i: int| 0 <= i < students.len() && (#[trigger] students[i]).id == id
}

/// Some student has the given chat user id. The empty id stands for "none"
/// and is had by no one.
pub open spec fn has_student_slack(students: Seq<Student>, slack_id: Seq<char>) -> bool {
    slack_id.len() > 0 && exists|i: int|
        0 <= i < students.len() && (#[trigger] students[i]).slack_id@ == slack_id
}

/// Some student has the given name.
pub open spec fn has_student_named(students: Seq<Student>, name: Seq<char>) -> bool {
    exists|i: int| 0 <= i < students.len() && (#[trigger] students[i]).name@ == name
}

/// `students[i]` is the first student with the given name.
pub open spec fn first_student_named(students: Seq<Student>, name: Seq<char>, i: int) -> bool {
    &&& 0 <= i < students.len()
    &&& students[i].name@ == name
    &&& forall|j: int| 0 <= j < i ==> (#[trigger] students[j]).name@ != name
}

/// Some row has the given id.
pub open spec fn has_row(rows: Seq<QueueItem>, id: u128) -> bool {
    exists|i: int| 0 <= i < rows.len() && (#[trigger] rows[i]).id == id
}

/// No two rows share an id.
pub open spec fn distinct_rows(rows: Seq<QueueItem>) -> bool {
    forall|i: int, j: int|
        0 <= i < j < rows.len() ==> (#[trigger] rows[i]).id != (#[trigger] rows[j]).id
}

/// The directory resolves the chat user id.
pub open spec fn has_entry(directory: Seq<(String, String)>, slack_id: Seq<char>) -> bool {
    exists|i: int| 0 <= i < directory.len() && (#[trigger] directory[i]).0@ == slack_id
}

/// `directory[i]` is the first entry for the chat user id.
pub open spec fn first_entry(
    directory: Seq<(String, String)>,
    slack_id: Seq<char>,
    i: int,
) -> bool {
    &&& 0 <= i < directory.len()
    &&& directory[i].0@ == slack_id
    &&& forall|j: int| 0 <= j < i ==> (#[trigger] directory[j]).0@ != slack_id
}

/// The display name that the directory gives for a chat user id it resolves.
pub open spec fn resolved_name(directory: Seq<(String, String)>, slack_id: Seq<char>) -> Seq<char> {
    let i = choose|i: int| first_entry(directory, slack_id, i);
    directory[i].1@
}

/// The films with the roles and current role of every film named like
/// `film` taken from `film`.
pub open spec fn films_updated(films: Seq<Film>, film: Film) -> Seq<Film> {
    Seq::new(
        films.len(),
        |i: int|
            if films[i].name@ == film.name@ {
                Film { roles: film.roles, current_role: film.current_role, ..films[i] }
            } else {
                films[i]
            },
    )
}

/// The students with roles, current role, current film and chat user id of
/// every student with the id of `student` taken from `student`.
pub open spec fn students_updated(students: Seq<Student>, student: Student) -> Seq<Student> {
    Seq::new(
        students.len(),
        |i: int|
            if students[i].id == student.id {
                Student {
                    roles: student.roles,
                    current_role: student.current_role,
                    current_film: student.current_film,
                    slack_id: student.slack_id,
                    ..students[i]
                }
            } else {
                students[i]
            },
    )
}

/// Another student than the one with id `id` has the chat user id.
pub open spec fn slack_taken_by_other(
    students: Seq<Student>,
    id: u128,
    slack_id: Seq<char>,
) -> bool {
    slack_id.len() > 0 && exists|i: int|
        0 <= i < students.len() && (#[trigger] students[i]).id != id && students[i].slack_id@
            == slack_id
}

/// The index of a row with the given id.
pub open spec fn row_index(rows: Seq<QueueItem>, id: u128) -> int {
    choose|i: int| 0 <= i < rows.len() && (#[trigger] rows[i]).id == id
}

/// The rows without the row of the given id.
pub open spec fn rows_without(rows: Seq<QueueItem>, id: u128) -> Seq<QueueItem> {
    if has_row(rows, id) {
        rows.remove(row_index(rows, id))
    } else {
        rows
    }
}

/// The pairs with `pair` among them, added at the end if it was missing.
pub open spec fn pairs_with(pairs: Seq<(u128, u128)>, pair: (u128, u128)) -> Seq<(u128, u128)> {
    if pairs.contains(pair) {
        pairs
    } else {
        pairs.push(pair)
    }
}

/// Tells the films that the student has been assigned to.
pub open spec fn worked_by(worked: Seq<(u128, u128)>, student_id: u128) -> spec_fn(Film) -> bool {
    |f: Film| worked.contains((student_id, f.id))
}

/// Tells the films of another group than `group` on which `role` is open.
pub open spec fn open_to(group: i32, role: Role) -> spec_fn(Film) -> bool {
    |f: Film| f.group_number != group && f.roles.slot(role) is None
}

/// Filtering one more element either appends it or leaves the result as it is.
pub proof fn lemma_filter_take_step<A>(s: Seq<A>, pred: spec_fn(A) -> bool, i: int)
    requires
        0 <= i < s.len(),
    ensures
        s.take(i + 1).filter(pred) == if pred(s[i]) {
            s.take(i).filter(pred).push(s[i])
        } else {
            s.take(i).filter(pred)
        },
{
    reveal(Seq::filter);
    assert(s.take(i + 1).drop_last() =~= s.take(i));
}

/// Filtering nothing gives nothing.
pub proof fn lemma_filter_take_nothing<A>(s: Seq<A>, pred: spec_fn(A) -> bool)
    ensures
        s.take(0).filter(pred) == Seq::<A>::empty(),
{
    reveal(Seq::filter);
}

/// Taking a row out of rows with unique ids takes that one item out.
pub proof fn lemma_rows_without_multiset(rows: Seq<QueueItem>, item: QueueItem)
    requires
        distinct_rows(rows),
        rows.contains(item),
    ensures
        has_row(rows, item.id),
        rows_without(rows, item.id).to_multiset() == rows.to_multiset().remove(item),
        distinct_rows(rows_without(rows, item.id)),
        !has_row(rows_without(rows, item.id), item.id),
{
    let i = choose|i: int| 0 <= i < rows.len() && rows[i] == item;
    assert(rows[i].id == item.id);
    let k = row_index(rows, item.id);
    assert(k == i);
    vstd::seq_lib::to_multiset_remove(rows, i);
}

/// The film with the given name.
pub open spec fn film_named(films: Seq<Film>, name: Seq<char>) -> Film {
    films[choose|i: int| 0 <= i < films.len() && (#[trigger] films[i]).name@ == name]
}

/// What looking up a student by chat user id does to a store that works:
/// `r` is what comes back and `post` the store afterwards.
///
/// A student known by the id is returned. Otherwise the directory is asked
/// for the display name: without an entry the lookup fails with `NotFound`;
/// the first student of that name is returned; and where there is none a
/// blank student with the id `fresh` is inserted, which fails with
/// `Duplicate` when `fresh` is taken.
pub open spec fn resolved(
    pre: StoreView,
    slack_id: Seq<char>,
    fresh: u128,
    r: Result<Student, Error>,
    post: StoreView,
) -> bool {
    if has_student_slack(pre.students, slack_id) {
        &&& r matches Ok(student)
        &&& pre.students.contains(student)
        &&& student.slack_id@ == slack_id
        &&& post == pre
    } else if !has_entry(pre.directory, slack_id) {
        &&& r matches Err(Error::NotFound(n))
        &&& n@ == slack_id
        &&& post == pre
    } else {
        let name = resolved_name(pre.directory, slack_id);
        if has_student_named(pre.students, name) {
            &&& r matches Ok(student)
            &&& exists|i: int| #[trigger]
                first_student_named(pre.students, name, i) && pre.students[i] == student
            &&& post == pre
        } else if has_student_id(pre.students, fresh) {
            &&& r matches Err(Error::Duplicate(n))
            &&& n@ == name
            &&& post == pre
        } else {
            &&& r matches Ok(student)
            &&& student.id == fresh
            &&& student.slack_id@ == slack_id
            &&& student.name@ == name
            &&& student.group_number == 0
            &&& student.class@ == Seq::<char>::empty()
            &&& student.is_blank()
            &&& post == (StoreView { students: pre.students.push(student), ..pre })
        }
    }
}

/// The store refused a write that would give two rows the same key.
pub open spec fn key_conflict<T>(r: Result<T, Error>) -> bool {
    r matches Err(Error::Internal(m)) && m@ == "duplicate key"@
}

/// Taking over the chat user id of `student` would give two students the
/// same one: the store has the student, and another student has that id.
pub open spec fn update_refused(students: Seq<Student>, student: Student) -> bool {
    has_student_id(students, student.id) && slack_taken_by_other(
        students,
        student.id,
        student.slack_id@,
    )
}

/// A student as the store has them can always be updated without a change
/// of chat user id.
pub proof fn lemma_stored_student_updates(store: StoreView, student: Student)
    requires
        store.wf(),
        store.students.contains(student),
    ensures
        !update_refused(store.students, student),
        !update_refused(store.students, Student { current_film: None, ..student }),
        forall|film: Option<String>, role: Role, roles: crate::models::shared::Roles|
            !#[trigger] update_refused(
                store.students,
                Student { current_film: film, current_role: role, roles, ..student },
            ),
{
    let i = choose|i: int| 0 <= i < store.students.len() && store.students[i] == student;
    assert forall|j: int|
        0 <= j < store.students.len() && (#[trigger] store.students[j]).id
            != student.id implies !(student.slack_id@.len() > 0 && store.students[j].slack_id@
        == student.slack_id@) by {
        if i < j {
        } else if j < i {
        }
    }
}

/// What inserting a blank film with the id `id` does: `r` is what comes
/// back and `post` the store afterwards.
///
/// A store that is down fails. A film whose name or id the store has
/// already is a `Duplicate`, and nothing changes. Otherwise the insert
/// succeeds: the blank film comes back and is the last film of the store.
pub open spec fn film_inserted(
    pre: StoreView,
    id: u128,
    name: Seq<char>,
    group_number: i32,
    priority: Priority,
    r: Result<Film, Error>,
    post: StoreView,
) -> bool {
    if !pre.success {
        store_failed(r) && post == pre
    } else if has_film_named(pre.films, name) || has_film_id(pre.films, id) {
        &&& r matches Err(Error::Duplicate(n))
        &&& n@ == name
        &&& post == pre
    } else {
        &&& r matches Ok(film)
        &&& film.id == id
        &&& film.name@ == name
        &&& film.priority == priority
        &&& film.group_number == group_number
        &&& film.is_blank()
        &&& post == (StoreView { films: pre.films.push(film), ..pre })
    }
}

/// What inserting a blank student who is known by a chat user id does, with
/// the id `id`: `r` is what comes back and `post` the store afterwards.
///
/// A store that is down fails. A student whose id or chat user id the store
/// has already is a `Duplicate`, and nothing changes. Otherwise the insert
/// succeeds: the blank student comes back and is the last of the store.
pub open spec fn student_inserted(
    pre: StoreView,
    id: u128,
    slack_id: Seq<char>,
    name: Seq<char>,
    r: Result<Student, Error>,
    post: StoreView,
) -> bool {
    if !pre.success {
        store_failed(r) && post == pre
    } else if has_student_id(pre.students, id) || has_student_slack(pre.students, slack_id) {
        &&& r matches Err(Error::Duplicate(n))
        &&& n@ == name
        &&& post == pre
    } else {
        &&& r matches Ok(student)
        &&& student.id == id
        &&& student.slack_id@ == slack_id
        &&& student.name@ == name
        &&& student.group_number == 0
        &&& student.class@ == Seq::<char>::empty()
        &&& student.is_blank()
        &&& post == (StoreView { students: pre.students.push(student), ..pre })
    }
}

/// What inserting a blank student of a class list does, with the id `id`:
/// `r` is what comes back and `post` the store afterwards.
///
/// A store that is down fails. A student whose id the store has already is
/// a `Duplicate`, and nothing changes. Otherwise the insert succeeds: the
/// blank student, without a chat user id, comes back and is the last of the
/// store.
pub open spec fn class_student_inserted(
    pre: StoreView,
    id: u128,
    name: Seq<char>,
    group: i32,
    class: Seq<char>,
    r: Result<Student, Error>,
    post: StoreView,
) -> bool {
    if !pre.success {
        store_failed(r) && post == pre
    } else if has_student_id(pre.students, id) {
        &&& r matches Err(Error::Duplicate(n))
        &&& n@ == name
        &&& post == pre
    } else {
        &&& r matches Ok(student)
        &&& student.id == id
        &&& student.slack_id@ == Seq::<char>::empty()
        &&& student.name@ == name
        &&& student.group_number == group
        &&& student.class@ == class
        &&& student.is_blank()
        &&& post == (StoreView { students: pre.students.push(student), ..pre })
    }
}

/// The store failed for no reason of the request.
pub open spec fn store_failed<T>(r: Result<T, Error>) -> bool {
    r matches Err(Error::Internal(m)) && m@ == "sample error"@
}

impl StoreView {
    /// What keeps a store sound: film names, film ids, student ids, chat
    /// user ids and the ids of the rows of each queue are unique.
    pub open spec fn wf(self) -> bool {
        &&& forall|i: int, j: int|
            0 <= i < j < self.films.len() ==> (#[trigger] self.films[i]).name@ != (
            #[trigger] self.films[j]).name@
        &&& forall|i: int, j: int|
            0 <= i < j < self.films.len() ==> (#[trigger] self.films[i]).id != (
            #[trigger] self.films[j]).id
        &&& forall|i: int, j: int|
            0 <= i < j < self.students.len() ==> (#[trigger] self.students[i]).id != (
            #[trigger] self.students[j]).id
        &&& forall|i: int, j: int|
            0 <= i < j < self.students.len() && self.students[i].slack_id@.len() > 0 ==> (
            #[trigger] self.students[i]).slack_id@ != (#[trigger] self.students[j]).slack_id@
        &&& distinct_rows(self.jobs)
        &&& distinct_rows(self.waits)
    }

    /// Every film and student has its current role at the first unset slot
    /// of a record that is filled in pipeline order.
    pub open spec fn roles_consistent(self) -> bool {
        &&& forall|i: int| 0 <= i < self.films.len() ==> (#[trigger] self.films[i]).wf()
        &&& forall|i: int| 0 <= i < self.students.len() ==> (#[trigger] self.students[i]).wf()
    }

    /// The student has been assigned the film at some time.
    pub open spec fn has_worked(self, student_id: u128, film_id: u128) -> bool {
        self.worked.contains((student_id, film_id))
    }

    /// The films the student has been assigned to, in the order of the store.
    pub open spec fn worked_films(self, student_id: u128) -> Seq<Film> {
        self.films.filter(worked_by(self.worked, student_id))
    }

    /// The films of another group than `group` on which `role` is still open,
    /// in the order of the store.
    pub open spec fn eligible_films(self, group: i32, role: Role) -> Seq<Film> {
        self.films.filter(open_to(group, role))
    }

    /// The rows of the wait queue or of the jobs queue.
    pub open spec fn rows(self, wait: bool) -> Seq<QueueItem> {
        if wait {
            self.waits
        } else {
            self.jobs
        }
    }

    /// The store with the rows of the chosen queue replaced.
    pub open spec fn with_rows(self, wait: bool, rows: Seq<QueueItem>) -> StoreView {
        if wait {
            StoreView { waits: rows, ..self }
        } else {
            StoreView { jobs: rows, ..self }
        }
    }
}

/// Looking up by name a film that has just been inserted finds that film:
/// with that name, the priority and group it was inserted with, at its
/// first role and with every slot unset.
pub proof fn lemma_insert_then_get_film(
    before: StoreView,
    after: StoreView,
    film: Film,
    found: Film,
)
    requires
        before.wf(),
        !has_film_named(before.films, film.name@),
        film.is_blank(),
        after == (StoreView { films: before.films.push(film), ..before }),
        after.films.contains(found),
        found.name@ == film.name@,
    ensures
        found == film,
        found.priority == film.priority,
        found.group_number == film.group_number,
        found.current_role == Role::Ae,
        found.roles.ae is None && found.roles.editor is None && found.roles.sound is None
            && found.roles.finish is None,
{
    let i = choose|i: int| 0 <= i < after.films.len() && after.films[i] == found;
    if i < before.films.len() {
        assert(before.films[i].name@ == film.name@);
    }
}

/// Looking up a student after an update finds what the update wrote: the
/// roles, the current role and the current film that were handed in.
pub proof fn lemma_update_then_get_student(before: StoreView, student: Student, found: Student)
    requires
        before.wf(),
        has_student_id(before.students, student.id),
        students_updated(before.students, student).contains(found),
        found.id == student.id,
    ensures
        found.roles == student.roles,
        found.current_role == student.current_role,
        found.current_film == student.current_film,
        found.slack_id == student.slack_id,
{
    let updated = students_updated(before.students, student);
    let i = choose|i: int| 0 <= i < updated.len() && updated[i] == found;
    assert(before.students[i].id == student.id);
}

/// Looking up a student keeps a sound store sound and changes nothing but
/// the students, and the student found is a student of the store afterwards.
pub proof fn lemma_resolved_keeps_sound(
    pre: StoreView,
    slack_id: Seq<char>,
    fresh: u128,
    r: Result<Student, Error>,
    post: StoreView,
)
    requires
        pre.wf(),
        resolved(pre, slack_id, fresh, r, post),
    ensures
        post.wf(),
        post == (StoreView { students: post.students, ..pre }),
        r is Err ==> post == pre,
        r matches Ok(student) ==> post.students.contains(student),
        pre.roles_consistent() ==> post.roles_consistent(),
{
    if r is Ok {
        let student = r->Ok_0;
        if post != pre {
            assert(post.students == pre.students.push(student));
            assert(post.students.last() == student);
            assert forall|i: int, j: int|
                0 <= i < j < post.students.len() implies (#[trigger] post.students[i]).id != (
            #[trigger] post.students[j]).id by {
                if j == pre.students.len() {
                    assert(pre.students[i].id != fresh);
                }
            }
            assert forall|i: int, j: int|
                0 <= i < j < post.students.len() && post.students[i].slack_id@.len()
                    > 0 implies (#[trigger] post.students[i]).slack_id@ != (
            #[trigger] post.students[j]).slack_id@ by {
                if j == pre.students.len() {
                    assert(pre.students[i].slack_id@ != slack_id);
                }
            }
            if pre.roles_consistent() {
                assert forall|i: int| 0 <= i < post.students.len() implies (
                #[trigger] post.students[i]).wf() by {
                    if i < pre.students.len() {
                        assert(pre.students[i].wf());
                    }
                }
            }
        }
    }
}

/// Two lookups of the same chat user id in the same store, with the same
/// id for a student who has to be created, find the same student: they
/// succeed or fail together, and the students found agree in id, group,
/// role, record, film, and in the texts of name, class and chat user id.
pub proof fn lemma_resolved_agrees(
    pre: StoreView,
    slack_id: Seq<char>,
    fresh: u128,
    r1: Result<Student, Error>,
    post1: StoreView,
    r2: Result<Student, Error>,
    post2: StoreView,
)
    requires
        pre.wf(),
        resolved(pre, slack_id, fresh, r1, post1),
        resolved(pre, slack_id, fresh, r2, post2),
    ensures
        r1 is Ok <==> r2 is Ok,
        r1 is Ok ==> {
            let a = r1->Ok_0;
            let b = r2->Ok_0;
            &&& a.id == b.id
            &&& a.group_number == b.group_number
            &&& a.current_role == b.current_role
            &&& a.roles == b.roles
            &&& a.current_film == b.current_film
            &&& a.name@ == b.name@
            &&& a.class@ == b.class@
            &&& a.slack_id@ == b.slack_id@
        },
{
    if has_student_slack(pre.students, slack_id) {
        let a = r1->Ok_0;
        let b = r2->Ok_0;
        let i = choose|i: int| 0 <= i < pre.students.len() && pre.students[i] == a;
        let j = choose|j: int| 0 <= j < pre.students.len() && pre.students[j] == b;
        if i < j {
            assert(pre.students[i].slack_id@ != pre.students[j].slack_id@);
        } else if j < i {
            assert(pre.students[j].slack_id@ != pre.students[i].slack_id@);
        }
    } else if has_entry(pre.directory, slack_id) {
        let name = resolved_name(pre.directory, slack_id);
        if has_student_named(pre.students, name) {
            let i = choose|i: int| #[trigger]
                first_student_named(pre.students, name, i) && pre.students[i] == r1->Ok_0;
            let j = choose|j: int| #[trigger]
                first_student_named(pre.students, name, j) && pre.students[j] == r2->Ok_0;
            assert(i == j);
        }
    }
}

/// A student of a class list who is updated and then looked up by chat
/// user id comes back with what the update wrote, where the directory
/// resolves the id to the student's name, no other student has that name
/// and no student has that chat user id: the lookup finds the student by
/// name, with the roles, the current role and the current film handed to
/// the update, and changes nothing.
pub proof fn lemma_class_student_round_trip(
    store: StoreView,
    student: Student,
    changed: Student,
    slack_id: Seq<char>,
    fresh: u128,
    r: Result<Student, Error>,
    post: StoreView,
)
    requires
        store.wf(),
        store.students.contains(student),
        student.slack_id@.len() == 0,
        forall|i: int|
            0 <= i < store.students.len() && (#[trigger] store.students[i]).name@ == student.name@
                ==> store.students[i] == student,
        !has_student_slack(store.students, slack_id),
        has_entry(store.directory, slack_id),
        resolved_name(store.directory, slack_id) == student.name@,
        changed.id == student.id,
        changed.slack_id@.len() == 0,
        resolved(
            StoreView { students: students_updated(store.students, changed), ..store },
            slack_id,
            fresh,
            r,
            post,
        ),
    ensures
        r matches Ok(found) && found.id == student.id && found.name == student.name
            && found.roles == changed.roles && found.current_role == changed.current_role
            && found.current_film == changed.current_film,
        post == (StoreView { students: students_updated(store.students, changed), ..store }),
{
    let updated = students_updated(store.students, changed);
    let k = choose|k: int| 0 <= k < store.students.len() && store.students[k] == student;
    assert(updated[k].name@ == student.name@);
    assert(has_student_named(updated, student.name@));
    assert forall|i: int| 0 <= i < updated.len() implies !(slack_id.len() > 0 && (
    #[trigger] updated[i]).slack_id@ == slack_id) by {
        if store.students[i].id != changed.id {
            assert(updated[i] == store.students[i]);
        }
    }
    assert forall|i: int| #[trigger] first_student_named(updated, student.name@, i) implies i
        == k by {
        assert(store.students[i].name@ == student.name@);
        if i < k {
            assert(store.students[i].id != store.students[k].id);
        } else if k < i {
            assert(store.students[k].id != store.students[i].id);
        }
    }
}

} // verus!
