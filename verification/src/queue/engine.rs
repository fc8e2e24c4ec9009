//! The assignment engine: two queues over a store.

use vstd::multiset::Multiset;
use vstd::prelude::*;
use vstd::seq_lib::*;
use vstd::string::*;
use crate::clock::Timestamp;
use crate::errors::Error;
use crate::ids::fresh_id;
use crate::models::films::Film;
use crate::models::shared::{clone_marker, Role};
use crate::models::students::Student;
use crate::queue::heap::PriorityQueue;
use crate::queue::item::{precedes, same_kind, uniform, QueueItem};
use crate::queue::laws::{
    lemma_assignment_recorded, lemma_assignment_takes_the_job,
};
use crate::queue::rules::{
    assigned, delivered, drained, first_match, first_of, fresh_exists, holding, is_job_for,
    is_waiter_for, job_inserted, job_taken, no_match, parked, pass_from, pass_made, relieved,
    requested, stamped, suits, turn_taken, waiter_inserted, waiter_served, work_requested,
    EngineView, Fresh,
};
use crate::store::mock::{Database, MockClient};
use crate::store::state::{
    film_named, has_film_named, has_row, key_conflict, lemma_rows_without_multiset, resolved,
    rows_without, store_failed, update_refused, StoreView,
};
use crate::text::same_text;

verus! {

/// The engine: the queue of open jobs, the queue of waiting students and
/// the store that both are mirrored in.
pub struct Queue {
    pub jobs_q: PriorityQueue,
    pub wait_q: PriorityQueue,
    pub db: Database,
}

impl View for Queue {
    type V = EngineView;

    open spec fn view(&self) -> EngineView {
        EngineView { db: self.db@, jobs: self.jobs_q@, waits: self.wait_q@ }
    }
}

/// Whether a film of the given name is among `films`.
pub fn names_film(films: &Vec<Film>, name: &str) -> (found: bool)
    ensures
        found == has_film_named(films@, name@),
{
    let mut i: usize = 0;
    while i < films.len()
        invariant
            i <= films@.len(),
            forall|j: int| 0 <= j < i ==> (#[trigger] films@[j]).name@ != name@,
        decreases films@.len() - i,
    {
        if same_text(films[i].name.as_str(), name) {
            return true;
        }
        i += 1;
    }
    false
}

/// Whether some eligible film has not been worked yet.
pub fn any_fresh(eligible: &Vec<Film>, worked: &Vec<Film>) -> (fresh: bool)
    ensures
        fresh == fresh_exists(eligible@, worked@),
{
    let mut i: usize = 0;
    while i < eligible.len()
        invariant
            i <= eligible@.len(),
            forall|j: int|
                0 <= j < i ==> has_film_named(worked@, (#[trigger] eligible@[j]).name@),
        decreases eligible@.len() - i,
    {
        if !names_film(worked, eligible[i].name.as_str()) {
            return true;
        }
        i += 1;
    }
    false
}

impl Queue {
    /// An engine with empty queues over an empty store.
    pub fn _new() -> (engine: Queue)
        ensures
            engine@.wf(),
            engine@.in_sync(),
            engine@.db.success,
            engine@.jobs.len() == 0,
            engine@.waits.len() == 0,
            engine@.db.films.len() == 0,
            engine@.db.students.len() == 0,
            engine@.db.worked.len() == 0,
            engine@.db.jobs.len() == 0,
            engine@.db.waits.len() == 0,
            engine@.db.directory.len() == 0,
    {
        let engine = Queue {
            jobs_q: PriorityQueue::new(),
            wait_q: PriorityQueue::new(),
            db: MockClient::new(),
        };
        proof {
            assert(engine.db@.jobs =~= Seq::<QueueItem>::empty());
            assert(engine.db@.waits =~= Seq::<QueueItem>::empty());
            assert(Seq::<QueueItem>::empty().to_multiset() =~= Multiset::<QueueItem>::empty()) by {
                broadcast use group_to_multiset_ensures;

            }
        }
        engine
    }

    /// An engine over the given store, with both queues filled from the
    /// rows of the store. Fails as the store does.
    pub fn from_db(db: Database) -> (r: Result<Queue, Error>)
        ensures
            !db@.success ==> store_failed(r),
            db@.success ==> r is Ok && r->Ok_0@.db == db@ && r->Ok_0@.in_sync(),
    {
        let waits = match db.get_queue(true) {
            Ok(rows) => rows,
            Err(e) => {
                return Err(e);
            },
        };
        let jobs = match db.get_queue(false) {
            Ok(rows) => rows,
            Err(e) => {
                return Err(e);
            },
        };
        Ok(
            Queue {
                jobs_q: PriorityQueue::from_vec(jobs),
                wait_q: PriorityQueue::from_vec(waits),
                db,
            },
        )
    }

    /// Searches the jobs queue for work: takes jobs out in queue order until
    /// one suits, and puts the others back.
    ///
    /// Returns `None`, leaving the queue as it was, exactly when no job
    /// suits. Otherwise the job returned is a first one among the suitable
    /// jobs, and it alone has left the queue.
    pub fn get_job(
        &mut self,
        worked_films: &Vec<Film>,
        role: Role,
        eligible_films_exist: bool,
    ) -> (job: Option<QueueItem>)
        ensures
            final(self).db == old(self).db,
            final(self).wait_q == old(self).wait_q,
            job is None <==> no_match(old(self)@.jobs, worked_films@, role, eligible_films_exist),
            job is None ==> final(self)@.jobs == old(self)@.jobs,
            job matches Some(j) ==> first_match(
                old(self)@.jobs,
                j,
                worked_films@,
                role,
                eligible_films_exist,
            ) && final(self)@.jobs == old(self)@.jobs.remove(j),
    {
        let mut recycle: Vec<QueueItem> = Vec::new();
        let mut eligible_job: Option<QueueItem> = None;
        let ghost all = self.jobs_q@;
        proof {
            broadcast use group_to_multiset_ensures;

            assert(recycle@.to_multiset() =~= Multiset::<QueueItem>::empty());
            assert(self.jobs_q@.add(recycle@.to_multiset()) =~= all);
        }
        loop
            invariant_except_break
                eligible_job is None,
                self.jobs_q@.add(recycle@.to_multiset()) == all,
            invariant
                self.db == old(self).db,
                self.wait_q == old(self).wait_q,
                all == old(self).jobs_q@,
                forall|x: QueueItem|
                    recycle@.contains(x) ==> !#[trigger] suits(
                        x,
                        worked_films@,
                        role,
                        eligible_films_exist,
                    ),
            ensures
                eligible_job is None ==> self.jobs_q@.len() == 0 && self.jobs_q@.add(
                    recycle@.to_multiset(),
                ) == all,
                eligible_job matches Some(j) ==> first_match(
                    all,
                    j,
                    worked_films@,
                    role,
                    eligible_films_exist,
                ) && self.jobs_q@.add(recycle@.to_multiset()) == all.remove(j),
            decreases self.jobs_q@.len(),
        {
            let ghost before = self.jobs_q@;
            let ghost recycled = recycle@;
            let job = match self.jobs_q.pop() {
                Some(job) => job,
                None => {
                    break ;
                },
            };
            let worked_on_film = names_film(worked_films, job.film_name.as_str());
            let eligible = job.role == role;
            if eligible && (!worked_on_film || !eligible_films_exist) {
                proof {
                    broadcast use group_to_multiset_ensures;

                    assert(before.remove(job).add(recycled.to_multiset()) =~= all.remove(job));
                    if uniform(all) {
                        assert(uniform(before)) by {
                            assert forall|a: QueueItem, b: QueueItem|
                                before.contains(a) && before.contains(b) implies #[trigger]
                                same_kind(a, b) by {
                                assert(all.contains(a) && all.contains(b));
                            }
                        }
                        assert forall|y: QueueItem|
                            all.contains(y) && suits(
                                y,
                                worked_films@,
                                role,
                                eligible_films_exist,
                            ) implies !#[trigger] precedes(y, job) by {
                            if !before.contains(y) {
                                assert(recycled.to_multiset().count(y) > 0);
                                assert(recycled.contains(y));
                            }
                        }
                    }
                }
                eligible_job = Some(job);
                break ;
            } else {
                recycle.push(job);
                proof {
                    broadcast use group_to_multiset_ensures;

                    assert(recycle@.to_multiset() =~= recycled.to_multiset().insert(job));
                    assert(before.remove(job).add(recycled.to_multiset().insert(job)) =~= all);
                    assert forall|x: QueueItem| recycle@.contains(x) implies !#[trigger] suits(
                        x,
                        worked_films@,
                        role,
                        eligible_films_exist,
                    ) by {
                        if x != job {
                            assert(recycled.contains(x));
                        }
                    }
                }
            }
        }
        proof {
            broadcast use group_to_multiset_ensures;

            if eligible_job is None {
                assert(self.jobs_q@ =~= Multiset::<QueueItem>::empty());
                assert(recycle@.to_multiset() =~= all);
                assert forall|x: QueueItem| all.contains(x) implies !#[trigger] suits(
                    x,
                    worked_films@,
                    role,
                    eligible_films_exist,
                ) by {
                    assert(recycle@.contains(x));
                }
            }
        }
        self.jobs_q.extend(recycle);
        eligible_job
    }

    /// Puts the current role of the film into the jobs queue and into the
    /// store, as an item with the given id and time.
    ///
    /// Fails with an internal error, changing nothing, exactly when the jobs
    /// rows of the store hold the id already.
    pub fn insert_job_at(
        &mut self,
        f: &Film,
        slack_id: &str,
        id: u128,
        now: Timestamp,
    ) -> (r: Result<QueueItem, Error>)
        requires
            old(self)@.wf(),
        ensures
            final(self)@.wf(),
            job_inserted(old(self)@, *f, slack_id@, id, now, r, final(self)@),
            !old(self)@.db.success ==> store_failed(r) && final(self)@ == old(self)@,
            old(self)@.db.success && has_row(old(self)@.db.jobs, id) ==> key_conflict(r)
                && final(self)@ == old(self)@,
            old(self)@.db.success && !has_row(old(self)@.db.jobs, id) ==> {
                &&& r matches Ok(job)
                &&& is_job_for(job, *f, slack_id@, id, now)
                &&& final(self)@ == (EngineView {
                    db: StoreView { jobs: old(self)@.db.jobs.push(job), ..old(self)@.db },
                    jobs: old(self)@.jobs.insert(job),
                    waits: old(self)@.waits,
                })
            },
            old(self)@.in_sync() ==> final(self)@.in_sync(),
            old(self)@.db.roles_consistent() ==> final(self)@.db.roles_consistent(),
    {
        let job = QueueItem {
            id,
            student_slack_id: String::from_str(slack_id),
            film_name: f.name.clone(),
            channel: None,
            msg_ts: None,
            priority: Some(f.priority),
            created_at: now,
            role: f.current_role,
        };
        match self.db.insert_to_queue(job, false) {
            Ok(job) => {
                self.jobs_q.push(job.clone());
                proof {
                    broadcast use group_to_multiset_ensures;

                }
                Ok(job)
            },
            Err(e) => Err(e),
        }
    }

    /// Puts the current role of the film into the jobs queue and into the
    /// store, under a freshly drawn id and with the current time: what
    /// happens is what `job_inserted` says for the id drawn and the time read.
    /// While the store holds no jobs row the insert succeeds.
    pub fn insert_job(&mut self, f: &Film, slack_id: &str) -> (r: Result<QueueItem, Error>)
        requires
            old(self)@.wf(),
        ensures
            final(self)@.wf(),
            exists|id: u128, now: Timestamp| #[trigger]
                job_inserted(old(self)@, *f, slack_id@, id, now, r, final(self)@),
            old(self)@.in_sync() ==> final(self)@.in_sync(),
            old(self)@.db.roles_consistent() ==> final(self)@.db.roles_consistent(),
    {
        self.insert_job_at(f, slack_id, fresh_id(), Timestamp::now())
    }

    /// Puts a student who asked for work at `role` into the wait queue and
    /// into the store, as an item with the given id and time.
    ///
    /// Fails with an internal error, changing nothing, exactly when the wait
    /// rows of the store hold the id already.
    pub fn insert_waiter_at(
        &mut self,
        role: Role,
        msg_ts: &str,
        channel: &str,
        slack_id: &str,
        id: u128,
        now: Timestamp,
    ) -> (r: Result<QueueItem, Error>)
        requires
            old(self)@.wf(),
        ensures
            final(self)@.wf(),
            waiter_inserted(
                old(self)@,
                role,
                msg_ts@,
                channel@,
                slack_id@,
                id,
                now,
                r,
                final(self)@,
            ),
            !old(self)@.db.success ==> store_failed(r) && final(self)@ == old(self)@,
            old(self)@.db.success && has_row(old(self)@.db.waits, id) ==> key_conflict(r)
                && final(self)@ == old(self)@,
            old(self)@.db.success && !has_row(old(self)@.db.waits, id) ==> {
                &&& r matches Ok(waiter)
                &&& is_waiter_for(waiter, role, msg_ts@, channel@, slack_id@, id, now)
                &&& final(self)@ == (EngineView {
                    db: StoreView { waits: old(self)@.db.waits.push(waiter), ..old(self)@.db },
                    jobs: old(self)@.jobs,
                    waits: old(self)@.waits.insert(waiter),
                })
            },
            old(self)@.in_sync() ==> final(self)@.in_sync(),
            old(self)@.db.roles_consistent() ==> final(self)@.db.roles_consistent(),
    {
        let waiter = QueueItem {
            id,
            student_slack_id: String::from_str(slack_id),
            film_name: String::new(),
            channel: Some(String::from_str(channel)),
            msg_ts: Some(String::from_str(msg_ts)),
            priority: None,
            created_at: now,
            role,
        };
        match self.db.insert_to_queue(waiter, true) {
            Ok(waiter) => {
                self.wait_q.push(waiter.clone());
                proof {
                    broadcast use group_to_multiset_ensures;

                }
                Ok(waiter)
            },
            Err(e) => Err(e),
        }
    }

    /// Matches a student with a job, without putting anyone into the wait
    /// queue. What happens is spelled out in `assigned`.
    pub fn assign_job(&mut self, student: Student) -> (r: Result<Option<QueueItem>, Error>)
        requires
            old(self)@.wf(),
        ensures
            final(self)@.wf(),
            assigned(old(self)@, student, r, final(self)@),
            old(self)@.in_sync() ==> final(self)@.in_sync(),
            old(self)@.db.roles_consistent() && student.wf() ==> final(self)@.db.roles_consistent(),
    {
        let mut student = student;
        let ghost asked = student;
        let group = student.group_number;
        let role = student.current_role;
        if !self.db.is_up() {
            return Err(Error::Internal(String::from_str("sample error")));
        }
        if role == Role::Done {
            return Err(Error::Duplicate(String::from_str("You're done! No more work to do :)")));
        }
        if !self.db.can_update_student(&student) {
            return Err(Error::Internal(String::from_str("duplicate key")));
        }
        let eligible = match self.db.get_films_exclusionary(group, role) {
            Ok(films) => films,
            Err(e) => {
                return Err(e);
            },
        };
        let worked_films = match self.db.get_worked_films(student.id) {
            Ok(films) => films,
            Err(e) => {
                return Err(e);
            },
        };
        let eligible_films_exist = any_fresh(&eligible, &worked_films);
        let job = match self.get_job(&worked_films, role, eligible_films_exist) {
            Some(job) => job,
            None => {
                return Ok(None);
            },
        };
        let film = match self.db.get_film(job.film_name.as_str()) {
            Ok(Some(film)) => film,
            Ok(None) => {
                self.jobs_q.push(job);
                assert(self.jobs_q@ =~= old(self).jobs_q@);
                return Err(Error::Internal(String::from_str("Impossible state")));
            },
            Err(e) => {
                self.jobs_q.push(job);
                assert(self.jobs_q@ =~= old(self).jobs_q@);
                return Err(e);
            },
        };
        proof {
            let films = old(self)@.db.films;
            let k = choose|k: int| 0 <= k < films.len() && films[k] == film;
            assert(film_named(films, job.film_name@) == film);
            if old(self)@.in_sync() {
                broadcast use group_to_multiset_ensures;

                assert(old(self)@.db.jobs.contains(job));
                lemma_rows_without_multiset(old(self)@.db.jobs, job);
            }
        }
        student.current_film = Some(film.name.clone());
        assert(!update_refused(old(self)@.db.students, student));
        if let Err(e) = self.db.insert_student_films(student.id, film.id) {
            return Err(e);
        }
        if let Err(e) = self.db.update_student(&student) {
            return Err(e);
        }
        if let Err(e) = self.db.delete_from_queue(job.id, false) {
            return Err(e);
        }
        assert(student == holding(asked, film));
        Ok(Some(job))
    }

    /// Tries to give the student with the given chat user id a job, using
    /// the ids and the time of `fresh` for what has to be created.
    ///
    /// The student is looked up (and created if unknown to the store but
    /// known to the directory), then matched with a job; a student for whom
    /// no job suits is put into the wait queue. The student's role does not
    /// advance. What happens is spelled out in `resolved` and `requested`.
    pub fn try_assign_job_at(
        &mut self,
        slack_id: &str,
        ts: &str,
        channel: &str,
        fresh: Fresh,
    ) -> (r: Result<Option<QueueItem>, Error>)
        requires
            old(self)@.wf(),
        ensures
            final(self)@.wf(),
            work_requested(old(self)@, slack_id@, ts@, channel@, fresh, r, final(self)@),
            r matches Ok(Some(job)) ==> job_taken(old(self)@, job, final(self)@),
            r matches Ok(Some(job)) ==> !has_row(final(self)@.db.jobs, job.id) && exists|
                student: Student,
                film: Film,
            |
                {
                    &&& #[trigger] final(self)@.db.students.contains(student)
                    &&& #[trigger] final(self)@.db.films.contains(film)
                    &&& film.name@ == job.film_name@
                    &&& student.current_film == Some(film.name)
                    &&& final(self)@.db.has_worked(student.id, film.id)
                },
            old(self)@.in_sync() ==> final(self)@.in_sync(),
            old(self)@.db.roles_consistent() ==> final(self)@.db.roles_consistent(),
    {
        let found = self.db.get_student_with_id(slack_id, fresh.entity_id);
        let ghost mid = self.db@;
        let ghost seen = found;
        let student = match found {
            Ok(student) => student,
            Err(e) => {
                return Err(e);
            },
        };
        let role = student.current_role;
        let ghost before = self@;
        let outcome = self.assign_job(student);
        let ghost after = self@;
        match outcome {
            Ok(None) => {
                let r = match self.insert_waiter_at(
                    role,
                    ts,
                    channel,
                    slack_id,
                    fresh.item_id,
                    fresh.now,
                ) {
                    Ok(_) => Ok(None),
                    Err(e) => Err(e),
                };
                proof {
                    assert(parked(after, role, ts@, channel@, slack_id@, fresh, r, self@));
                    assert(assigned(before, student, outcome, after));
                    assert(requested(
                        old(self)@,
                        seen,
                        mid,
                        ts@,
                        channel@,
                        slack_id@,
                        fresh,
                        r,
                        self@,
                    ));
                }
                r
            },
            Ok(Some(job)) => {
                proof {
                    assert(assigned(before, student, outcome, after));
                    assert(requested(
                        old(self)@,
                        seen,
                        mid,
                        ts@,
                        channel@,
                        slack_id@,
                        fresh,
                        outcome,
                        self@,
                    ));
                    lemma_assignment_recorded(before, student, job, after);
                    lemma_assignment_takes_the_job(before, student, job, after);
                }
                Ok(Some(job))
            },
            Err(e) => {
                proof {
                    assert(assigned(before, student, outcome, after));
                    assert(requested(
                        old(self)@,
                        seen,
                        mid,
                        ts@,
                        channel@,
                        slack_id@,
                        fresh,
                        outcome,
                        self@,
                    ));
                }
                Err(e)
            },
        }
    }

    /// Tries to give the student with the given chat user id a job; see
    /// `try_assign_job_at`. The ids for what has to be created are freshly
    /// drawn, and the time is the current time.
    pub fn try_assign_job(&mut self, slack_id: &str, ts: &str, channel: &str) -> (r: Result<
        Option<QueueItem>,
        Error,
    >)
        requires
            old(self)@.wf(),
        ensures
            final(self)@.wf(),
            exists|fresh: Fresh| #[trigger]
                work_requested(old(self)@, slack_id@, ts@, channel@, fresh, r, final(self)@),
            r matches Ok(Some(job)) ==> job_taken(old(self)@, job, final(self)@),
            r matches Ok(Some(job)) ==> !has_row(final(self)@.db.jobs, job.id) && exists|
                student: Student,
                film: Film,
            |
                {
                    &&& #[trigger] final(self)@.db.students.contains(student)
                    &&& #[trigger] final(self)@.db.films.contains(film)
                    &&& film.name@ == job.film_name@
                    &&& student.current_film == Some(film.name)
                    &&& final(self)@.db.has_worked(student.id, film.id)
                },
            old(self)@.in_sync() ==> final(self)@.in_sync(),
            old(self)@.db.roles_consistent() ==> final(self)@.db.roles_consistent(),
    {
        let fresh = Fresh { entity_id: fresh_id(), item_id: fresh_id(), now: Timestamp::now() };
        self.try_assign_job_at(slack_id, ts, channel, fresh)
    }

    /// Delivers the work of a student: film and student advance
    /// by one role, and the film's next role, if any, becomes a job with the
    /// given id and time. What happens is spelled out in `delivered`.
    pub fn deliver_at(
        &mut self,
        student: Student,
        slack_id: &str,
        item_id: u128,
        now: Timestamp,
    ) -> (r: Result<(), Error>)
        requires
            old(self)@.wf(),
        ensures
            final(self)@.wf(),
            delivered(old(self)@, student, slack_id@, item_id, now, r, final(self)@),
            old(self)@.in_sync() ==> final(self)@.in_sync(),
            old(self)@.db.roles_consistent() && student.wf() ==> final(self)@.db.roles_consistent(),
    {
        if !self.db.is_up() {
            return Err(Error::Internal(String::from_str("sample error")));
        }
        let mut student = student;
        let ghost asked = student;
        let curr_film = match &student.current_film {
            Some(f) => f.clone(),
            None => {
                return Err(Error::Internal(String::from_str("Impossible state")));
            },
        };
        let mut film = match self.db.get_film(curr_film.as_str()) {
            Ok(Some(f)) => f,
            Ok(None) => {
                return Err(Error::Internal(String::from_str("Impossible state")));
            },
            Err(e) => {
                return Err(e);
            },
        };
        let ghost stored = film;
        proof {
            let films = old(self)@.db.films;
            let k = choose|k: int| 0 <= k < films.len() && films[k] == film;
            assert(film_named(films, curr_film@) == film);
            if old(self)@.db.roles_consistent() {
                assert(films[k].wf());
            }
        }
        if !self.db.can_update_student(&student) {
            return Err(Error::Internal(String::from_str("duplicate key")));
        }
        film.increment_role(student.name.clone());
        student.increment_role(film.name.clone());
        student.current_film = None;
        assert(student == relieved(asked, stored));
        if film.current_role != Role::Done {
            match self.insert_job_at(&film, slack_id, item_id, now) {
                Ok(_) => {},
                Err(e) => {
                    return Err(e);
                },
            }
        }
        if let Err(e) = self.db.update_film(&film) {
            return Err(e);
        }
        if let Err(e) = self.db.update_student(&student) {
            return Err(e);
        }
        Ok(())
    }

    /// Delivers the work of a student; see `deliver_at`. The id
    /// of the new job is freshly drawn, and its time is the current time.
    pub fn deliver(&mut self, student: Student, slack_id: &str) -> (r: Result<(), Error>)
        requires
            old(self)@.wf(),
        ensures
            final(self)@.wf(),
            exists|id: u128, now: Timestamp| #[trigger]
                delivered(old(self)@, student, slack_id@, id, now, r, final(self)@),
            old(self)@.in_sync() ==> final(self)@.in_sync(),
            old(self)@.db.roles_consistent() && student.wf() ==> final(self)@.db.roles_consistent(),
    {
        self.deliver_at(student, slack_id, fresh_id(), Timestamp::now())
    }

    /// Gives a waiter who has left the wait queue a turn: looks up the
    /// student, with `fresh` as the id for a student who has to be created,
    /// and matches them with a job. What happens is spelled out in
    /// `waiter_served`.
    pub fn serve_waiter_at(&mut self, waiter: &QueueItem, fresh: u128) -> (r: Result<
        Option<QueueItem>,
        Error,
    >)
        requires
            old(self)@.wf(),
        ensures
            final(self)@.wf(),
            waiter_served(old(self)@, *waiter, fresh, r, final(self)@),
            final(self)@.waits == old(self)@.waits,
            final(self)@.db.films == old(self)@.db.films,
            final(self)@.db.success == old(self)@.db.success,
            r matches Ok(Some(result)) ==> final(self)@.db.waits == rows_without(
                old(self)@.db.waits,
                waiter.id,
            ) && exists|job: QueueItem| #[trigger]
                stamped(result, job, *waiter) && old(self)@.jobs.contains(job) && final(self)@.jobs
                    == old(self)@.jobs.remove(job),
            !(r matches Ok(Some(_))) ==> final(self)@.jobs == old(self)@.jobs
                && final(self)@.db.waits == old(self)@.db.waits
                && final(self)@.db.jobs == old(self)@.db.jobs,
            old(self)@.jobs_in_sync() ==> final(self)@.jobs_in_sync(),
            old(self)@.db.roles_consistent() ==> final(self)@.db.roles_consistent(),
    {
        let found = self.db.get_student_with_id(waiter.student_slack_id.as_str(), fresh);
        let ghost seen = found;
        let ghost mid = self.db@;
        let student = match found {
            Ok(student) => student,
            Err(e) => {
                return Err(e);
            },
        };
        let ghost before = self@;
        let outcome = self.assign_job(student);
        let ghost after = self@;
        proof {
            if old(self)@.jobs_in_sync() && outcome is Ok && outcome->Ok_0 is Some {
                broadcast use group_to_multiset_ensures;

                let job = outcome->Ok_0->Some_0;
                assert(before.db.jobs.contains(job));
                lemma_rows_without_multiset(before.db.jobs, job);
            }
        }
        match outcome {
            Ok(Some(job)) => {
                let ghost plain = job;
                let mut job = job;
                job.student_slack_id = waiter.student_slack_id.clone();
                job.msg_ts = clone_marker(&waiter.msg_ts);
                job.channel = clone_marker(&waiter.channel);
                if let Err(e) = self.db.delete_from_queue(waiter.id, true) {
                    return Err(e);
                }
                proof {
                    assert(stamped(job, plain, *waiter));
                    assert(assigned(before, student, outcome, after));
                    assert(resolved(old(self)@.db, waiter.student_slack_id@, fresh, seen, mid));
                }
                Ok(Some(job))
            },
            other => {
                proof {
                    assert(assigned(before, student, outcome, after));
                    assert(resolved(old(self)@.db, waiter.student_slack_id@, fresh, seen, mid));
                }
                other
            },
        }
    }

    /// Goes once through the wait queue and gives every waiter a job for
    /// whom one suits. Returns the jobs handed out, each with the chat user
    /// id of its waiter and the message and channel in which the waiter asked.
    ///
    /// Waiters leave the queue in queue order and take their turn as
    /// `serve_waiter_at` says, each with a freshly drawn id for a student who
    /// has to be created. One who gets a job leaves the wait queue and the
    /// wait rows of the store for good; one who gets none is kept back and
    /// returned to the queue at the end, as is everyone not yet reached when
    /// a turn fails. A failure ends the pass and is handed on. The pass is
    /// spelled out in `pass_made`; no waiter is lost and no waiter gets two
    /// jobs, as `drained` says.
    pub fn try_empty_wait_queue(&mut self) -> (r: Result<Vec<QueueItem>, Error>)
        requires
            old(self)@.wf(),
        ensures
            final(self)@.wf(),
            pass_made(old(self)@, r, final(self)@),
            exists|served: Seq<QueueItem>, taken: Seq<QueueItem>| #[trigger]
                drained(old(self)@, served, taken, r, final(self)@),
            old(self)@.waits.len() == 0 ==> r is Ok && r->Ok_0@.len() == 0 && final(self)@ == old(
                self,
            )@,
            !old(self)@.db.success && old(self)@.waits.len() > 0 ==> store_failed(r)
                && final(self)@ == old(self)@,
            final(self)@.db.films == old(self)@.db.films,
            old(self)@.in_sync() ==> final(self)@.in_sync(),
            old(self)@.db.roles_consistent() ==> final(self)@.db.roles_consistent(),
    {
        let mut successes: Vec<QueueItem> = Vec::new();
        let mut recycle: Vec<QueueItem> = Vec::new();
        let ghost mut served: Seq<QueueItem> = Seq::empty();
        let ghost mut taken: Seq<QueueItem> = Seq::empty();
        proof {
            broadcast use group_to_multiset_ensures;

            assert(recycle@.to_multiset() =~= Multiset::<QueueItem>::empty());
            assert(served.to_multiset() =~= Multiset::<QueueItem>::empty());
            assert(self.wait_q@.add(recycle@.to_multiset()).add(served.to_multiset())
                =~= old(self)@.waits);
            assert(self.jobs_q@.add(taken.to_multiset()) =~= old(self)@.jobs);
            assert(self.wait_q@.add(recycle@.to_multiset()) =~= self.wait_q@);
            assert(successes@ =~= Seq::<QueueItem>::empty());
        }
        loop
            invariant
                self@.wf(),
                forall|r: Result<Vec<QueueItem>, Error>, post: EngineView| #[trigger]
                    pass_from(
                        self.db@,
                        self.jobs_q@,
                        self.wait_q@,
                        recycle@.to_multiset(),
                        successes@,
                        r,
                        post,
                    ) ==> pass_made(old(self)@, r, post),
                self.wait_q@.add(recycle@.to_multiset()).add(served.to_multiset()) == old(
                    self,
                )@.waits,
                self.jobs_q@.add(taken.to_multiset()) == old(self)@.jobs,
                served.len() == taken.len(),
                successes@.len() == served.len(),
                forall|k: int|
                    0 <= k < successes@.len() ==> stamped(
                        #[trigger] successes@[k],
                        taken[k],
                        served[k],
                    ),
                self.db@.films == old(self)@.db.films,
                self.db@.success == old(self)@.db.success,
                !old(self)@.db.success ==> served.len() == 0 && recycle@.len() == 0 && self.db@
                    == old(self)@.db && self.jobs_q@ == old(self)@.jobs,
                old(self)@.waits.len() == 0 ==> self.db@ == old(self)@.db && self.jobs_q@ == old(
                    self,
                )@.jobs && recycle@.len() == 0 && served.len() == 0,
                old(self)@.in_sync() ==> self.jobs_q@ == self.db@.jobs.to_multiset()
                    && self.wait_q@.add(recycle@.to_multiset()) == self.db@.waits.to_multiset(),
                old(self)@.db.roles_consistent() ==> self.db@.roles_consistent(),
            ensures
                self.wait_q@.len() == 0,
            decreases self.wait_q@.len(),
        {
            let ghost waiting = self.wait_q@;
            let ghost kept = recycle@;
            let ghost open_jobs = self.jobs_q@;
            let ghost db0 = self.db@;
            let ghost handed = successes@;
            let waiter = match self.wait_q.pop() {
                Some(waiter) => waiter,
                None => {
                    break ;
                },
            };
            let fresh = fresh_id();
            let ghost before = self@;
            let res = self.serve_waiter_at(&waiter, fresh);
            let ghost after = self@;
            proof {
                assert(first_of(waiting, waiter));
                assert(before == (EngineView {
                    db: db0,
                    jobs: open_jobs,
                    waits: waiting.remove(waiter),
                }));
                assert(turn_taken(db0, open_jobs, waiting, waiter, fresh, res, after));
            }
            match res {
                Ok(None) => {
                    recycle.push(waiter);
                    proof {
                        broadcast use group_to_multiset_ensures;

                        assert(recycle@.to_multiset() =~= kept.to_multiset().insert(waiter));
                        assert(waiting.remove(waiter).add(kept.to_multiset().insert(waiter))
                            =~= waiting.add(kept.to_multiset()));
                        assert forall|r: Result<Vec<QueueItem>, Error>, post: EngineView| #[trigger]
                            pass_from(
                                self.db@,
                                self.jobs_q@,
                                self.wait_q@,
                                recycle@.to_multiset(),
                                successes@,
                                r,
                                post,
                            ) implies pass_made(old(self)@, r, post) by {
                            assert(pass_from(
                                db0,
                                open_jobs,
                                waiting,
                                kept.to_multiset(),
                                handed,
                                r,
                                post,
                            ));
                        }
                    }
                },
                Ok(Some(job)) => {
                    let ghost plain = choose|plain: QueueItem| #[trigger]
                        stamped(job, plain, waiter) && open_jobs.contains(plain) && after.jobs
                            == open_jobs.remove(plain);
                    proof {
                        broadcast use group_to_multiset_ensures;

                        if old(self)@.in_sync() {
                            assert(waiting.add(kept.to_multiset()).contains(waiter));
                            assert(db0.waits.contains(waiter));
                            lemma_rows_without_multiset(db0.waits, waiter);
                            assert(waiting.remove(waiter).add(kept.to_multiset())
                                =~= waiting.add(kept.to_multiset()).remove(waiter));
                        }
                    }
                    successes.push(job);
                    proof {
                        broadcast use group_to_multiset_ensures;

                        let served0 = served;
                        let taken0 = taken;
                        served = served.push(waiter);
                        taken = taken.push(plain);
                        assert(served.to_multiset() =~= served0.to_multiset().insert(waiter));
                        assert(taken.to_multiset() =~= taken0.to_multiset().insert(plain));
                        assert(waiting.remove(waiter).add(kept.to_multiset()).add(
                            served0.to_multiset().insert(waiter),
                        ) =~= waiting.add(kept.to_multiset()).add(served0.to_multiset()));
                        assert(open_jobs.remove(plain).add(taken0.to_multiset().insert(plain))
                            =~= open_jobs.add(taken0.to_multiset()));
                        assert forall|r: Result<Vec<QueueItem>, Error>, post: EngineView| #[trigger]
                            pass_from(
                                self.db@,
                                self.jobs_q@,
                                self.wait_q@,
                                recycle@.to_multiset(),
                                successes@,
                                r,
                                post,
                            ) implies pass_made(old(self)@, r, post) by {
                            assert(successes@ == handed.push(job));
                            assert(pass_from(
                                db0,
                                open_jobs,
                                waiting,
                                kept.to_multiset(),
                                handed,
                                r,
                                post,
                            ));
                        }
                    }
                },
                Err(e) => {
                    recycle.push(waiter);
                    proof {
                        broadcast use group_to_multiset_ensures;

                        assert(recycle@.to_multiset() =~= kept.to_multiset().insert(waiter));
                        assert(waiting.remove(waiter).add(kept.to_multiset().insert(waiter))
                            =~= waiting.add(kept.to_multiset()));
                    }
                    self.wait_q.extend(recycle);
                    let r = Err(e);
                    proof {
                        broadcast use group_to_multiset_ensures;

                        assert(self.wait_q@ =~= waiting.add(kept.to_multiset()));
                        assert(self@ == (EngineView {
                            waits: waiting.add(kept.to_multiset()),
                            ..after
                        }));
                        assert(pass_from(
                            db0,
                            open_jobs,
                            waiting,
                            kept.to_multiset(),
                            handed,
                            r,
                            self@,
                        ));
                        assert(drained(old(self)@, served, taken, r, self@));
                        if old(self)@.waits.len() == 0 {
                            assert(waiting.len() == 0);
                        }
                        if !old(self)@.db.success {
                            assert(served.to_multiset() =~= Multiset::<QueueItem>::empty());
                            assert(kept.to_multiset() =~= Multiset::<QueueItem>::empty());
                            assert(self.wait_q@ =~= old(self)@.waits);
                        }
                    }
                    return r;
                },
            }
        }
        let ghost kept = recycle@;
        let ghost db0 = self.db@;
        let ghost open_jobs = self.jobs_q@;
        let ghost left = self.wait_q@;
        let ghost handed = successes@;
        self.wait_q.extend(recycle);
        let r = Ok(successes);
        proof {
            broadcast use group_to_multiset_ensures;

            assert(self.wait_q@ =~= kept.to_multiset());
            assert(pass_from(db0, open_jobs, left, kept.to_multiset(), handed, r, self@));
            assert(drained(old(self)@, served, taken, r, self@));
            if old(self)@.waits.len() == 0 {
                assert(served.to_multiset() =~= Multiset::<QueueItem>::empty());
                assert(kept.to_multiset() =~= Multiset::<QueueItem>::empty());
                assert(self.wait_q@ =~= old(self)@.waits);
            }
            if !old(self)@.db.success {
                assert(served.to_multiset() =~= Multiset::<QueueItem>::empty());
                assert(kept.to_multiset() =~= Multiset::<QueueItem>::empty());
                assert(self.wait_q@ =~= old(self)@.waits);
                assert(old(self)@.waits.len() == 0);
            }
        }
        r
    }
}

} // verus!
