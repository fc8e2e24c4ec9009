//! The rules of the engine, as relations between the engine before and
//! after an operation.

use vstd::multiset::Multiset;
use vstd::prelude::*;
use crate::clock::Timestamp;
use crate::errors::Error;
use crate::models::films::Film;
use crate::models::shared::Role;
use crate::models::students::Student;
use crate::queue::item::{precedes, uniform, QueueItem};
use crate::store::state::{
    film_named, films_updated, has_film_named, has_row, key_conflict, pairs_with, resolved,
    rows_without, store_failed, students_updated, update_refused, StoreView,
};

verus! {

/// What an engine holds, as a mathematical value.
pub struct EngineView {
    pub db: StoreView,
    pub jobs: Multiset<QueueItem>,
    pub waits: Multiset<QueueItem>,
}

impl EngineView {
    /// The store is sound.
    pub open spec fn wf(self) -> bool {
        self.db.wf()
    }

    /// The jobs queue holds exactly the jobs rows of the store.
    pub open spec fn jobs_in_sync(self) -> bool {
        self.jobs == self.db.jobs.to_multiset()
    }

    /// Each queue holds exactly the rows that the store has for it.
    pub open spec fn in_sync(self) -> bool {
        &&& self.jobs_in_sync()
        &&& self.waits == self.db.waits.to_multiset()
    }
}

/// What the outside world supplies for one request: the id for a student
/// or film that has to be created, the id for a queue item that has to be
/// created, and the time of the request.
#[derive(Debug, Clone, Copy, PartialEq, Eq, Structural)]
pub struct Fresh {
    pub entity_id: u128,
    pub item_id: u128,
    pub now: Timestamp,
}

/// Some film of `eligible` is not among `worked`.
pub open spec fn fresh_exists(eligible: Seq<Film>, worked: Seq<Film>) -> bool {
    exists|i: int|
        0 <= i < eligible.len() && !has_film_named(worked, (#[trigger] eligible[i]).name@)
}

/// The job can go to a student at `role` who has worked the films `worked`:
/// it is for that role, and its film is new to the student unless no
/// eligible film is (`fresh` false).
pub open spec fn suits(item: QueueItem, worked: Seq<Film>, role: Role, fresh: bool) -> bool {
    item.role == role && (!has_film_named(worked, item.film_name@) || !fresh)
}

/// `job` is a suitable job of `jobs` that no other suitable job precedes
/// (where the jobs are all of one kind).
pub open spec fn first_match(
    jobs: Multiset<QueueItem>,
    job: QueueItem,
    worked: Seq<Film>,
    role: Role,
    fresh: bool,
) -> bool {
    &&& jobs.contains(job)
    &&& suits(job, worked, role, fresh)
    &&& uniform(jobs) ==> forall|y: QueueItem|
        jobs.contains(y) && suits(y, worked, role, fresh) ==> !#[trigger] precedes(y, job)
}

/// No job of `jobs` is suitable.
pub open spec fn no_match(
    jobs: Multiset<QueueItem>,
    worked: Seq<Film>,
    role: Role,
    fresh: bool,
) -> bool {
    forall|x: QueueItem| jobs.contains(x) ==> !#[trigger] suits(x, worked, role, fresh)
}

/// The jobs item for the current role of `film`.
pub open spec fn is_job_for(
    item: QueueItem,
    film: Film,
    slack_id: Seq<char>,
    id: u128,
    now: Timestamp,
) -> bool {
    &&& item.id == id
    &&& item.student_slack_id@ == slack_id
    &&& item.film_name == film.name
    &&& item.role == film.current_role
    &&& item.priority == Some(film.priority)
    &&& item.msg_ts is None
    &&& item.channel is None
    &&& item.created_at == now
}

/// The wait item for a student who asked for work at `role`.
pub open spec fn is_waiter_for(
    item: QueueItem,
    role: Role,
    msg_ts: Seq<char>,
    channel: Seq<char>,
    slack_id: Seq<char>,
    id: u128,
    now: Timestamp,
) -> bool {
    &&& item.id == id
    &&& item.student_slack_id@ == slack_id
    &&& item.film_name@ == Seq::<char>::empty()
    &&& item.role == role
    &&& item.priority is None
    &&& item.msg_ts matches Some(t) && t@ == msg_ts
    &&& item.channel matches Some(c) && c@ == channel
    &&& item.created_at == now
}

/// What putting the current role of a film into the jobs queue does, with
/// the id `id` and the time `now`: `r` is what comes back and `post` the
/// engine afterwards.
///
/// A store that is down fails, and so does an id that a jobs row has
/// already; nothing changes then. Otherwise the insert succeeds: the item
/// comes back, is the last jobs row of the store and is in the jobs queue.
pub open spec fn job_inserted(
    pre: EngineView,
    film: Film,
    slack_id: Seq<char>,
    id: u128,
    now: Timestamp,
    r: Result<QueueItem, Error>,
    post: EngineView,
) -> bool {
    if !pre.db.success {
        store_failed(r) && post == pre
    } else if has_row(pre.db.jobs, id) {
        key_conflict(r) && post == pre
    } else {
        &&& r matches Ok(job)
        &&& is_job_for(job, film, slack_id, id, now)
        &&& post == (EngineView {
            db: StoreView { jobs: pre.db.jobs.push(job), ..pre.db },
            jobs: pre.jobs.insert(job),
            waits: pre.waits,
        })
    }
}

/// What putting a student who asked for work at `role` into the wait queue
/// does, with the id `id` and the time `now`; see `job_inserted`.
pub open spec fn waiter_inserted(
    pre: EngineView,
    role: Role,
    msg_ts: Seq<char>,
    channel: Seq<char>,
    slack_id: Seq<char>,
    id: u128,
    now: Timestamp,
    r: Result<QueueItem, Error>,
    post: EngineView,
) -> bool {
    if !pre.db.success {
        store_failed(r) && post == pre
    } else if has_row(pre.db.waits, id) {
        key_conflict(r) && post == pre
    } else {
        &&& r matches Ok(waiter)
        &&& is_waiter_for(waiter, role, msg_ts, channel, slack_id, id, now)
        &&& post == (EngineView {
            db: StoreView { waits: pre.db.waits.push(waiter), ..pre.db },
            jobs: pre.jobs,
            waits: pre.waits.insert(waiter),
        })
    }
}

/// The request was refused because the student has done every role.
pub open spec fn done_error<T>(r: Result<T, Error>) -> bool {
    r matches Err(Error::Duplicate(m)) && m@ == "You're done! No more work to do :)"@
}

/// The request met a state that the engine never produces.
pub open spec fn impossible<T>(r: Result<T, Error>) -> bool {
    r matches Err(Error::Internal(m)) && m@ == "Impossible state"@
}

/// The student as the store has them once the film is assigned: holding
/// the film, with role and record untouched.
pub open spec fn holding(student: Student, film: Film) -> Student {
    Student { current_film: Some(film.name), ..student }
}

/// What matching a student with a job does: `r` is what comes
/// back and `post` the engine afterwards.
///
/// A student at `Done` is refused, and so is one whose chat user id
/// another student of the store has. Otherwise the jobs queue is searched for
/// a first job at the student's role whose film is new to the student (or
/// any film, where no eligible film is new). Without such a job nothing
/// changes and `None` comes back. With one, the student holds the film, the
/// pair is in the junction, and the job has left the queue and the store.
pub open spec fn assigned(
    pre: EngineView,
    student: Student,
    r: Result<Option<QueueItem>, Error>,
    post: EngineView,
) -> bool {
    let role = student.current_role;
    let worked = pre.db.worked_films(student.id);
    let eligible = pre.db.eligible_films(student.group_number, role);
    let fresh = fresh_exists(eligible, worked);
    if !pre.db.success {
        store_failed(r) && post == pre
    } else if role == Role::Done {
        done_error(r) && post == pre
    } else if update_refused(pre.db.students, student) {
        key_conflict(r) && post == pre
    } else if no_match(pre.jobs, worked, role, fresh) {
        r == Ok::<Option<QueueItem>, Error>(None) && post == pre
    } else {
        ||| {
            &&& impossible(r)
            &&& post == pre
            &&& exists|job: QueueItem| #[trigger]
                first_match(pre.jobs, job, worked, role, fresh) && !has_film_named(
                    pre.db.films,
                    job.film_name@,
                )
        }
        ||| {
            &&& r matches Ok(Some(job))
            &&& first_match(pre.jobs, job, worked, role, fresh)
            &&& has_film_named(pre.db.films, job.film_name@)
            &&& post == (EngineView {
                db: StoreView {
                    students: students_updated(
                        pre.db.students,
                        holding(student, film_named(pre.db.films, job.film_name@)),
                    ),
                    worked: pairs_with(
                        pre.db.worked,
                        (student.id, film_named(pre.db.films, job.film_name@).id),
                    ),
                    jobs: rows_without(pre.db.jobs, job.id),
                    ..pre.db
                },
                jobs: pre.jobs.remove(job),
                waits: pre.waits,
            })
        }
    }
}

/// The job has left the jobs queue and the jobs rows of the store, and it
/// alone: it was in the queue before, and the rows are those of before
/// without the row of its id. Where queue and rows agreed before, the queue
/// holds no item with the id of the job any more.
pub open spec fn job_taken(pre: EngineView, job: QueueItem, post: EngineView) -> bool {
    &&& pre.jobs.contains(job)
    &&& post.jobs == pre.jobs.remove(job)
    &&& post.db.jobs == rows_without(pre.db.jobs, job.id)
    &&& !has_row(post.db.jobs, job.id)
    &&& pre.jobs_in_sync() ==> forall|x: QueueItem|
        post.jobs.contains(x) ==> (#[trigger] x.id) != job.id
}

/// What putting a student who found no job into the wait queue does.
///
/// Fails with an internal error, changing nothing, when the id for the
/// wait item is taken; otherwise the wait item is in the queue and in the
/// store, and `None` comes back.
pub open spec fn parked(
    pre: EngineView,
    role: Role,
    msg_ts: Seq<char>,
    channel: Seq<char>,
    slack_id: Seq<char>,
    fresh: Fresh,
    r: Result<Option<QueueItem>, Error>,
    post: EngineView,
) -> bool {
    if has_row(pre.db.waits, fresh.item_id) {
        key_conflict(r) && post == pre
    } else {
        &&& r == Ok::<Option<QueueItem>, Error>(None)
        &&& exists|waiter: QueueItem| #[trigger]
            is_waiter_for(waiter, role, msg_ts, channel, slack_id, fresh.item_id, fresh.now)
                && post == (EngineView {
                db: StoreView { waits: pre.db.waits.push(waiter), ..pre.db },
                jobs: pre.jobs,
                waits: pre.waits.insert(waiter),
            })
    }
}

/// What a request for work does to an engine whose store works, where
/// looking up the student gave `found` and left the store as `mid`.
///
/// A failed lookup is handed on. A student who is matched with a job gets
/// it; one for whom no job suits is put into the wait queue.
pub open spec fn requested(
    pre: EngineView,
    found: Result<Student, Error>,
    mid: StoreView,
    msg_ts: Seq<char>,
    channel: Seq<char>,
    slack_id: Seq<char>,
    fresh: Fresh,
    r: Result<Option<QueueItem>, Error>,
    post: EngineView,
) -> bool {
    match found {
        Err(e) => r == Err::<Option<QueueItem>, Error>(e) && post == pre,
        Ok(student) => exists|outcome: Result<Option<QueueItem>, Error>, after: EngineView|
            #[trigger] assigned(EngineView { db: mid, ..pre }, student, outcome, after) && (match outcome {
                Ok(None) => parked(
                    after,
                    student.current_role,
                    msg_ts,
                    channel,
                    slack_id,
                    fresh,
                    r,
                    post,
                ),
                _ => r == outcome && post == after,
            }),
    }
}

/// The student after a delivery of the film: advanced by one role, with
/// the film's name as marker, and holding no film.
pub open spec fn relieved(student: Student, film: Film) -> Student {
    Student { current_film: None, ..student.advanced(film.name) }
}

/// What a delivery by a student does: `r` is what comes back
/// and `post` the engine afterwards.
///
/// A student who holds no film, or a film that the store does not have, is
/// refused with an internal error, and so is one whose chat user id another
/// student of the store has. Otherwise film and student both advance
/// by one role, each recording the other's name, and the store takes both
/// over. Unless the film is `Done` then, its new current role goes into the
/// jobs queue and the store as one new item with the given id and time; if
/// that id is taken the delivery fails with nothing changed.
pub open spec fn delivered(
    pre: EngineView,
    student: Student,
    slack_id: Seq<char>,
    id: u128,
    now: Timestamp,
    r: Result<(), Error>,
    post: EngineView,
) -> bool {
    if !pre.db.success {
        store_failed(r) && post == pre
    } else if student.current_film is None || !has_film_named(
        pre.db.films,
        student.current_film.unwrap()@,
    ) {
        impossible(r) && post == pre
    } else {
        let film = film_named(pre.db.films, student.current_film.unwrap()@);
        let film2 = film.advanced(student.name);
        let db2 = StoreView {
            films: films_updated(pre.db.films, film2),
            students: students_updated(pre.db.students, relieved(student, film)),
            ..pre.db
        };
        if update_refused(pre.db.students, student) {
            key_conflict(r) && post == pre
        } else if film2.current_role == Role::Done {
            r == Ok::<(), Error>(()) && post == (EngineView { db: db2, ..pre })
        } else if has_row(pre.db.jobs, id) {
            key_conflict(r) && post == pre
        } else {
            &&& r == Ok::<(), Error>(())
            &&& exists|job: QueueItem| #[trigger]
                is_job_for(job, film2, slack_id, id, now) && post == (EngineView {
                    db: StoreView { jobs: pre.db.jobs.push(job), ..db2 },
                    jobs: pre.jobs.insert(job),
                    waits: pre.waits,
                })
        }
    }
}

/// `result` is `job` with the chat user id of `waiter` stamped on it, and
/// with the message and channel in which the waiter asked.
pub open spec fn stamped(result: QueueItem, job: QueueItem, waiter: QueueItem) -> bool {
    result == (QueueItem {
        student_slack_id: waiter.student_slack_id,
        msg_ts: waiter.msg_ts,
        channel: waiter.channel,
        ..job
    })
}

/// What holds of a pass over the wait queue in which the waiters `served`
/// got the jobs `taken`, one each and in that order.
///
/// Every waiter of before is still waiting or among the served, every job
/// of before is still open or among the taken, and the jobs handed out are
/// the taken ones with the chat user id of their waiter.
pub open spec fn drained(
    pre: EngineView,
    served: Seq<QueueItem>,
    taken: Seq<QueueItem>,
    r: Result<Vec<QueueItem>, Error>,
    post: EngineView,
) -> bool {
    &&& served.len() == taken.len()
    &&& pre.waits == post.waits.add(served.to_multiset())
    &&& pre.jobs == post.jobs.add(taken.to_multiset())
    &&& r matches Ok(jobs) ==> jobs@.len() == served.len() && forall|k: int|
        0 <= k < jobs@.len() ==> stamped(#[trigger] jobs@[k], taken[k], served[k])
}

/// What giving a waiter who has left the wait queue a turn does: `r` is
/// what comes back and `post` the engine afterwards.
///
/// The student of the waiter is looked up, with `fresh` as the id for a
/// student who has to be created, and matched with a job as `assigned`
/// says. A waiter who gets a job loses their wait row in the store, and the
/// job comes back stamped with the waiter's chat user id, message and
/// channel. Nobody is put into the wait queue.
pub open spec fn waiter_served(
    pre: EngineView,
    waiter: QueueItem,
    fresh: u128,
    r: Result<Option<QueueItem>, Error>,
    post: EngineView,
) -> bool {
    if !pre.db.success {
        store_failed(r) && post == pre
    } else {
        exists|found: Result<Student, Error>, mid: StoreView| #[trigger]
            resolved(pre.db, waiter.student_slack_id@, fresh, found, mid) && (match found {
                Err(e) => r == Err::<Option<QueueItem>, Error>(e) && post == pre,
                Ok(student) => exists|
                    outcome: Result<Option<QueueItem>, Error>,
                    after: EngineView,
                | #[trigger]
                    assigned(EngineView { db: mid, ..pre }, student, outcome, after) && (
                    match outcome {
                        Ok(Some(job)) => {
                            &&& r matches Ok(Some(result))
                            &&& stamped(result, job, waiter)
                            &&& post == (EngineView {
                                db: StoreView {
                                    waits: rows_without(after.db.waits, waiter.id),
                                    ..after.db
                                },
                                ..after
                            })
                        },
                        _ => r == outcome && post == after,
                    }),
            })
    }
}

/// `waiter` is one of `left` that none of them precedes (where they are
/// all of one kind): it may be the next to leave the queue.
pub open spec fn first_of(left: Multiset<QueueItem>, waiter: QueueItem) -> bool {
    &&& left.contains(waiter)
    &&& uniform(left) ==> forall|y: QueueItem| left.contains(y) ==> !#[trigger] precedes(y, waiter)
}

/// The waiter is next in `left`, and their turn, taken with store `db` and
/// jobs `jobs`, gave `res` and left the engine as `after`.
pub open spec fn turn_taken(
    db: StoreView,
    jobs: Multiset<QueueItem>,
    left: Multiset<QueueItem>,
    waiter: QueueItem,
    fresh: u128,
    res: Result<Option<QueueItem>, Error>,
    after: EngineView,
) -> bool {
    &&& first_of(left, waiter)
    &&& waiter_served(
        EngineView { db, jobs, waits: left.remove(waiter) },
        waiter,
        fresh,
        res,
        after,
    )
}

/// The rest of a pass over the wait queue: with the waiters `left` still in
/// the queue, the waiters `kept` held back and the jobs `handed` out so
/// far, the pass ends with `r` and the engine `post`.
///
/// While waiters are left the next one takes a turn. If the turn fails the
/// pass ends with that error, and everyone left or kept is in the queue
/// again. A waiter who gets no job is kept; a job that a waiter gets is
/// handed out. When no one is left the kept waiters are the queue, and the
/// jobs handed out come back.
pub open spec fn pass_from(
    db: StoreView,
    jobs: Multiset<QueueItem>,
    left: Multiset<QueueItem>,
    kept: Multiset<QueueItem>,
    handed: Seq<QueueItem>,
    r: Result<Vec<QueueItem>, Error>,
    post: EngineView,
) -> bool
    decreases left.len(),
{
    if left.len() == 0 {
        &&& r matches Ok(v)
        &&& v@ == handed
        &&& post == (EngineView { db, jobs, waits: kept })
    } else {
        exists|
            waiter: QueueItem,
            fresh: u128,
            res: Result<Option<QueueItem>, Error>,
            after: EngineView,
        | #[trigger]
            turn_taken(db, jobs, left, waiter, fresh, res, after) && left.contains(waiter) && (
            match res {
                Err(e) => r == Err::<Vec<QueueItem>, Error>(e) && post == (EngineView {
                    waits: left.add(kept),
                    ..after
                }),
                Ok(None) => pass_from(
                    after.db,
                    after.jobs,
                    left.remove(waiter),
                    kept.insert(waiter),
                    handed,
                    r,
                    post,
                ),
                Ok(Some(job)) => pass_from(
                    after.db,
                    after.jobs,
                    left.remove(waiter),
                    kept,
                    handed.push(job),
                    r,
                    post,
                ),
            })
    }
}

/// A pass over the wait queue of `pre` ends with `r` and the engine `post`.
pub open spec fn pass_made(
    pre: EngineView,
    r: Result<Vec<QueueItem>, Error>,
    post: EngineView,
) -> bool {
    pass_from(pre.db, pre.jobs, pre.waits, Multiset::empty(), Seq::empty(), r, post)
}

/// What a request for work with the given chat user id does: `r` is what
/// comes back and `post` the engine afterwards.
///
/// With a store that fails the request fails and nothing changes. Otherwise
/// the student is looked up as `resolved` says and served as `requested` says.
pub open spec fn work_requested(
    pre: EngineView,
    slack_id: Seq<char>,
    msg_ts: Seq<char>,
    channel: Seq<char>,
    fresh: Fresh,
    r: Result<Option<QueueItem>, Error>,
    post: EngineView,
) -> bool {
    if !pre.db.success {
        store_failed(r) && post == pre
    } else {
        exists|found: Result<Student, Error>, mid: StoreView| #[trigger]
            resolved(pre.db, slack_id, fresh.entity_id, found, mid) && requested(
                pre,
                found,
                mid,
                msg_ts,
                channel,
                slack_id,
                fresh,
                r,
                post,
            )
    }
}

} // verus!
