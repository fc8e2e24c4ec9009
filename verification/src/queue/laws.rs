//! What follows from the rules of the engine.

use vstd::multiset::Multiset;
use vstd::prelude::*;
use vstd::seq_lib::*;
use crate::clock::Timestamp;
use crate::errors::Error;
use crate::models::shared::Role;
use crate::models::students::Student;
use crate::queue::item::QueueItem;
use crate::queue::rules::{
    assigned, delivered, done_error, fresh_exists, holding, impossible, is_job_for,
    is_waiter_for, no_match, parked, relieved, requested, work_requested, EngineView, Fresh,
};
use crate::store::state::{
    film_named, films_updated, has_film_named, has_row, lemma_resolved_agrees,
    lemma_resolved_keeps_sound, lemma_rows_without_multiset, lemma_stored_student_updates,
    resolved, row_index, rows_without, students_updated, StoreView,
};

verus! {

/// After an assignment the student holds the film, the pair of student and
/// film is in the junction, and the store has no jobs row with the id of
/// the job any more.
pub proof fn lemma_assignment_recorded(
    pre: EngineView,
    student: Student,
    job: QueueItem,
    post: EngineView,
)
    requires
        pre.wf(),
        pre.db.students.contains(student),
        assigned(pre, student, Ok(Some(job)), post),
    ensures
        !has_row(post.db.jobs, job.id),
        has_film_named(pre.db.films, job.film_name@),
        post.db.films == pre.db.films,
        post.db.films.contains(film_named(pre.db.films, job.film_name@)),
        film_named(pre.db.films, job.film_name@).name@ == job.film_name@,
        post.db.students.contains(holding(student, film_named(pre.db.films, job.film_name@))),
        post.db.has_worked(student.id, film_named(pre.db.films, job.film_name@).id),
        holding(student, film_named(pre.db.films, job.film_name@)).current_role
            == student.current_role,
        holding(student, film_named(pre.db.films, job.film_name@)).roles == student.roles,
{
    let film = film_named(pre.db.films, job.film_name@);
    let rows = pre.db.jobs;
    if has_row(rows, job.id) {
        let k = row_index(rows, job.id);
        assert forall|i: int| 0 <= i < rows.remove(k).len() implies (#[trigger] rows.remove(
            k,
        )[i]).id != job.id by {
            if i < k {
                assert(rows.remove(k)[i] == rows[i]);
            } else {
                assert(rows.remove(k)[i] == rows[i + 1]);
            }
        }
    }
    let i = choose|i: int| 0 <= i < pre.db.students.len() && pre.db.students[i] == student;
    let updated = students_updated(pre.db.students, holding(student, film));
    assert(updated[i] == holding(student, film));
    if pre.db.worked.contains((student.id, film.id)) {
    } else {
        assert(pre.db.worked.push((student.id, film.id)).last() == (student.id, film.id));
    }
}

/// After a delivery that went through, the store has exactly one new jobs
/// row, for the delivered film at its new role, unless the film is `Done`
/// then: in that case the jobs rows are as before.
pub proof fn lemma_delivery_adds_one_job(
    pre: EngineView,
    student: Student,
    slack_id: Seq<char>,
    id: u128,
    now: Timestamp,
    post: EngineView,
)
    requires
        pre.wf(),
        delivered(pre, student, slack_id, id, now, Ok(()), post),
    ensures
        student.current_film is Some,
        has_film_named(pre.db.films, student.current_film.unwrap()@),
        ({
            let film = film_named(pre.db.films, student.current_film.unwrap()@);
            let role = film.advanced(student.name).current_role;
            &&& role == Role::Done ==> post.db.jobs == pre.db.jobs && post.jobs == pre.jobs
            &&& role != Role::Done ==> {
                &&& post.db.jobs.len() == pre.db.jobs.len() + 1
                &&& post.db.jobs.drop_last() == pre.db.jobs
                &&& post.db.jobs.last().film_name == film.name
                &&& post.db.jobs.last().role == role
                &&& post.db.jobs.last().priority == Some(film.priority)
                &&& post.db.jobs.last().id == id
                &&& post.db.jobs.last().created_at == now
                &&& post.jobs == pre.jobs.insert(post.db.jobs.last())
            }
        }),
{
    let film = film_named(pre.db.films, student.current_film.unwrap()@);
    let film2 = film.advanced(student.name);
    if film2.current_role != Role::Done {
        let job = choose|job: QueueItem| #[trigger]
            is_job_for(job, film2, slack_id, id, now) && post == (EngineView {
                db: StoreView {
                    jobs: pre.db.jobs.push(job),
                    ..StoreView {
                        films: films_updated(pre.db.films, film2),
                        students: students_updated(pre.db.students, relieved(student, film)),
                        ..pre.db
                    }
                },
                jobs: pre.jobs.insert(job),
                waits: pre.waits,
            });
        assert(post.db.jobs.drop_last() =~= pre.db.jobs);
    }
}

/// A student who has done every role is refused as a duplicate, and
/// nothing changes.
pub proof fn lemma_done_is_refused(
    pre: EngineView,
    student: Student,
    r: Result<Option<QueueItem>, Error>,
    post: EngineView,
)
    requires
        pre.db.success,
        student.current_role == Role::Done,
        assigned(pre, student, r, post),
    ensures
        done_error(r),
        post == pre,
{
}

/// Without any job in the queue a student of the store who is not done
/// gets none, and nothing changes: the student is one for the wait queue.
pub proof fn lemma_no_jobs_no_assignment(
    pre: EngineView,
    student: Student,
    r: Result<Option<QueueItem>, Error>,
    post: EngineView,
)
    requires
        pre.wf(),
        pre.db.success,
        pre.db.students.contains(student),
        student.current_role != Role::Done,
        pre.jobs.len() == 0,
        assigned(pre, student, r, post),
    ensures
        r == Ok::<Option<QueueItem>, Error>(None),
        post == pre,
{
    lemma_stored_student_updates(pre.db, student);
    let role = student.current_role;
    let worked = pre.db.worked_films(student.id);
    let fresh = fresh_exists(pre.db.eligible_films(student.group_number, role), worked);
    assert forall|x: QueueItem| pre.jobs.contains(x) implies false by {
        assert(pre.jobs.count(x) > 0);
        assert(pre.jobs =~= Multiset::<QueueItem>::empty());
    }
    assert(no_match(pre.jobs, worked, role, fresh));
}

/// A student of the store who has worked every eligible film still gets a
/// job if there is one at their role, though its film is not new to them:
/// the request does not end without an assignment. (It fails only where the
/// job names a film that the store lacks.)
pub proof fn lemma_repeat_when_unavoidable(
    pre: EngineView,
    student: Student,
    job: QueueItem,
    r: Result<Option<QueueItem>, Error>,
    post: EngineView,
)
    requires
        pre.wf(),
        pre.db.success,
        pre.db.students.contains(student),
        student.current_role != Role::Done,
        !fresh_exists(
            pre.db.eligible_films(student.group_number, student.current_role),
            pre.db.worked_films(student.id),
        ),
        pre.jobs.contains(job),
        job.role == student.current_role,
        assigned(pre, student, r, post),
    ensures
        r != Ok::<Option<QueueItem>, Error>(None),
        r is Err ==> impossible(r),
        r matches Ok(Some(got)) ==> got.role == student.current_role && pre.jobs.contains(got),
{
    lemma_stored_student_updates(pre.db, student);
    let role = student.current_role;
    let worked = pre.db.worked_films(student.id);
    assert(crate::queue::rules::suits(job, worked, role, false));
    assert(!no_match(pre.jobs, worked, role, false));
}

/// A delivery by a student who holds no film is refused with an internal
/// error, and nothing changes.
pub proof fn lemma_delivery_needs_a_film(
    pre: EngineView,
    student: Student,
    slack_id: Seq<char>,
    id: u128,
    now: Timestamp,
    r: Result<(), Error>,
    post: EngineView,
)
    requires
        pre.db.success,
        student.current_film is None,
        delivered(pre, student, slack_id, id, now, r, post),
    ensures
        impossible(r),
        post == pre,
{
}

/// The job of an assignment was a job of the queue and a jobs row of the
/// store before, and it alone has left both: every other item and row is
/// still there. Where queue and rows agreed before, they agree afterwards,
/// and neither holds an item with the id of the job any more.
pub proof fn lemma_assignment_takes_the_job(
    pre: EngineView,
    student: Student,
    job: QueueItem,
    post: EngineView,
)
    requires
        pre.wf(),
        assigned(pre, student, Ok(Some(job)), post),
    ensures
        pre.jobs.contains(job),
        post.jobs == pre.jobs.remove(job),
        post.db.jobs == rows_without(pre.db.jobs, job.id),
        !has_row(post.db.jobs, job.id),
        forall|x: QueueItem| pre.jobs.contains(x) && x != job ==> post.jobs.contains(x),
        forall|x: QueueItem|
            pre.db.jobs.contains(x) && x.id != job.id ==> post.db.jobs.contains(x),
        pre.jobs_in_sync() ==> {
            &&& pre.db.jobs.contains(job)
            &&& post.jobs_in_sync()
            &&& forall|x: QueueItem| post.jobs.contains(x) ==> x.id != job.id
        },
{
    broadcast use group_to_multiset_ensures;

    let rows = pre.db.jobs;
    assert forall|x: QueueItem| pre.jobs.contains(x) && x != job implies post.jobs.contains(
        x,
    ) by {
        assert(pre.jobs.remove(job).count(x) == pre.jobs.count(x));
    }
    if has_row(rows, job.id) {
        let k = row_index(rows, job.id);
        assert forall|i: int| 0 <= i < rows.remove(k).len() implies (#[trigger] rows.remove(
            k,
        )[i]).id != job.id by {
            if i < k {
                assert(rows.remove(k)[i] == rows[i]);
            } else {
                assert(rows.remove(k)[i] == rows[i + 1]);
            }
        }
        assert forall|x: QueueItem| rows.contains(x) && x.id != job.id implies rows.remove(
            k,
        ).contains(x) by {
            let i = choose|i: int| 0 <= i < rows.len() && rows[i] == x;
            if i < k {
                assert(rows.remove(k)[i] == x);
            } else {
                assert(rows.remove(k)[i - 1] == x);
            }
        }
    }
    if pre.jobs_in_sync() {
        assert(rows.contains(job));
        lemma_rows_without_multiset(rows, job);
        assert forall|x: QueueItem| post.jobs.contains(x) implies x.id != job.id by {
            assert(post.db.jobs.contains(x));
        }
    }
}

/// With no job in the queue, a request by a student who is not done ends
/// without an assignment, and the student is put into the wait queue, as
/// long as no wait row has the id for the wait item: the wait item is in
/// the queue and is the last wait row of the store, and the jobs are as
/// they were.
pub proof fn lemma_no_jobs_means_waiting(
    pre: EngineView,
    slack_id: Seq<char>,
    msg_ts: Seq<char>,
    channel: Seq<char>,
    fresh: Fresh,
    student: Student,
    mid: StoreView,
    r: Result<Option<QueueItem>, Error>,
    post: EngineView,
)
    requires
        pre.wf(),
        pre.db.success,
        pre.jobs.len() == 0,
        resolved(pre.db, slack_id, fresh.entity_id, Ok(student), mid),
        student.current_role != Role::Done,
        !has_row(pre.db.waits, fresh.item_id),
        work_requested(pre, slack_id, msg_ts, channel, fresh, r, post),
    ensures
        r == Ok::<Option<QueueItem>, Error>(None),
        post.jobs == pre.jobs,
        post.db.jobs == pre.db.jobs,
        exists|waiter: QueueItem| #[trigger]
            is_waiter_for(
                waiter,
                student.current_role,
                msg_ts,
                channel,
                slack_id,
                fresh.item_id,
                fresh.now,
            ) && post.waits == pre.waits.insert(waiter) && post.db.waits == pre.db.waits.push(
                waiter,
            ),
{
    let (found, seen) = choose|found: Result<Student, Error>, seen: StoreView| #[trigger]
        resolved(pre.db, slack_id, fresh.entity_id, found, seen) && requested(
            pre,
            found,
            seen,
            msg_ts,
            channel,
            slack_id,
            fresh,
            r,
            post,
        );
    lemma_resolved_agrees(pre.db, slack_id, fresh.entity_id, Ok(student), mid, found, seen);
    lemma_resolved_keeps_sound(pre.db, slack_id, fresh.entity_id, found, seen);
    let other = found->Ok_0;
    let start = EngineView { db: seen, ..pre };
    let (outcome, after) = choose|outcome: Result<Option<QueueItem>, Error>, after: EngineView|
        #[trigger] assigned(start, other, outcome, after) && (match outcome {
            Ok(None) => parked(
                after,
                other.current_role,
                msg_ts,
                channel,
                slack_id,
                fresh,
                r,
                post,
            ),
            _ => r == outcome && post == after,
        });
    lemma_no_jobs_no_assignment(start, other, outcome, after);
}

} // verus!
