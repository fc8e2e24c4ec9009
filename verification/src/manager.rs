//! The operations that the chat adapter calls, and the texts it sends back.

use vstd::prelude::*;
use vstd::string::*;
use crate::clock::Timestamp;
use crate::csv_parser::structs::{FilmInput, StudentInput};
use crate::errors::Error;
use crate::ids::fresh_id;
use crate::models::films::Film;
use crate::models::shared::{clone_marker, Priority, Role};
use crate::models::students::Student;
use crate::queue::engine::Queue;
use crate::queue::item::QueueItem;
use crate::queue::rules::{delivered, is_job_for, pass_made, work_requested, EngineView, Fresh};
use crate::slack::app_mentions::Response;
use crate::store::state::{
    has_film_id, has_film_named, has_row, has_student_id, key_conflict, resolved, store_failed,
    StoreView,
};
use crate::slack::message::{join_messages, lines_text};
use crate::text::{decimal, decimal_text, join_with, joined_text, texts};

verus! {

pub const DELIVER: &'static str =
    "Good job!! You've delivered your work.\n\nWhen you're ready to pick up another job, just type `@ShereeBot request-work`.\nThen, I'll message you back when there's a job ready for you.";

pub const INTERNAL_ERR: &'static str = "Something went wrong internally - please let Sheree know!";

pub const NO_WORK: &'static str =
    "No work is available yet :cry:\nI'll reply in this thread once I find some work for you!";

pub const ALL_DONE: &'static str = "You're all done! No more work for you :)";

/// The text that tells a student which role on which film is theirs.
pub open spec fn assignment_text(
    slack_id: Seq<char>,
    role: Role,
    film_name: Seq<char>,
) -> Seq<char> {
    "<@"@ + slack_id + "> You've been assigned to work `"@ + role.text() + "` on `"@ + film_name
        + "`!"@
}

/// The answer to a request for work, given how the request went.
pub open spec fn reply_text(
    slack_id: Seq<char>,
    outcome: Result<Option<QueueItem>, Error>,
) -> Seq<char> {
    match outcome {
        Ok(Some(job)) => assignment_text(slack_id, job.role, job.film_name@),
        Ok(None) => NO_WORK@,
        Err(Error::Duplicate(_)) => ALL_DONE@,
        Err(_) => INTERNAL_ERR@,
    }
}

/// The text that tells a student which role on which film is theirs.
pub fn assignment_message(slack_id: &str, job: &QueueItem) -> (msg: String)
    ensures
        msg@ == assignment_text(slack_id@, job.role, job.film_name@),
{
    String::from_str("<@").concat(slack_id).concat("> You've been assigned to work `").concat(
        job.role.as_ref(),
    ).concat("` on `").concat(job.film_name.as_str()).concat("`!")
}

/// The answer to a request for work, given how the request went: the
/// assignment, the promise to come back, or the refusal. Internal errors are
/// not shown in detail.
pub fn request_reply(slack_id: &str, outcome: &Result<Option<QueueItem>, Error>) -> (msg: String)
    ensures
        msg@ == reply_text(slack_id@, *outcome),
{
    match outcome {
        Ok(Some(job)) => assignment_message(slack_id, job),
        Ok(None) => String::from_str(NO_WORK),
        Err(Error::Duplicate(_)) => String::from_str(ALL_DONE),
        Err(_) => String::from_str(INTERNAL_ERR),
    }
}

/// The message that tells a waiter of the job they got: posted in the
/// channel and thread in which they asked, or to the student directly
/// where the job names no channel.
pub open spec fn is_notice(notice: Response, job: QueueItem) -> bool {
    &&& notice.channel@ == (match job.channel {
        Some(channel) => channel@,
        None => job.student_slack_id@,
    })
    &&& notice.text@ == assignment_text(job.student_slack_id@, job.role, job.film_name@)
    &&& notice.thread_ts == job.msg_ts
}

/// The notices are those for the jobs, one each and in order.
pub open spec fn are_notices(notices: Seq<Response>, jobs: Seq<QueueItem>) -> bool {
    &&& notices.len() == jobs.len()
    &&& forall|k: int| 0 <= k < notices.len() ==> is_notice(#[trigger] notices[k], jobs[k])
}

/// The message that tells a waiter of the job they got.
pub fn notice_for(job: &QueueItem) -> (notice: Response)
    ensures
        is_notice(notice, *job),
{
    let channel = match &job.channel {
        Some(channel) => channel.clone(),
        None => job.student_slack_id.clone(),
    };
    let msg = assignment_message(job.student_slack_id.as_str(), job);
    Response::new(channel, msg, clone_marker(&job.msg_ts))
}

/// The messages that tell the waiters of the jobs they got.
pub fn notices_for(jobs: &Vec<QueueItem>) -> (notices: Vec<Response>)
    ensures
        are_notices(notices@, jobs@),
{
    let mut notices: Vec<Response> = Vec::new();
    let mut i: usize = 0;
    while i < jobs.len()
        invariant
            i <= jobs@.len(),
            notices@.len() == i,
            forall|k: int| 0 <= k < i ==> is_notice(#[trigger] notices@[k], jobs@[k]),
        decreases jobs@.len() - i,
    {
        notices.push(notice_for(&jobs[i]));
        i += 1;
    }
    notices
}

/// What a delivery yields: the answer to the student who delivered, and
/// the messages for the waiters who got a job because of it.
#[derive(Debug)]
pub struct Delivery {
    pub reply: String,
    pub notices: Vec<Response>,
}

/// What the delivery of work by the student with the given chat user id
/// does: `out` is what comes back and `post` the engine afterwards.
///
/// Where the student cannot be looked up or the delivery is refused, the
/// answer is the internal-error text and no one is notified. Otherwise the
/// answer is the thanks, the wait queue is gone through once, and every
/// waiter who got a job gets a notice; if that pass fails, no one does.
pub open spec fn work_delivered(
    pre: EngineView,
    slack_id: Seq<char>,
    fresh: Fresh,
    out: Delivery,
    post: EngineView,
) -> bool {
    if !pre.db.success {
        out.reply@ == INTERNAL_ERR@ && out.notices@.len() == 0 && post == pre
    } else {
        exists|found: Result<Student, Error>, mid: StoreView| #[trigger]
            resolved(pre.db, slack_id, fresh.entity_id, found, mid) && (match found {
                Err(_) => out.reply@ == INTERNAL_ERR@ && out.notices@.len() == 0 && post == pre,
                Ok(student) => exists|r1: Result<(), Error>, e1: EngineView| #[trigger]
                    delivered(
                        EngineView { db: mid, ..pre },
                        student,
                        slack_id,
                        fresh.item_id,
                        fresh.now,
                        r1,
                        e1,
                    ) && (if r1 is Err {
                        out.reply@ == INTERNAL_ERR@ && out.notices@.len() == 0 && post == e1
                    } else {
                        out.reply@ == DELIVER@ && exists|r2: Result<Vec<QueueItem>, Error>|
                            #[trigger] pass_made(e1, r2, post) && (match r2 {
                                Ok(jobs) => are_notices(out.notices@, jobs@),
                                Err(_) => out.notices@.len() == 0,
                            })
                    }),
            })
    }
}

pub const FILMS_INSERTED: &'static str = " films(s)!\n";

pub const FILMS_SKIPPED: &'static str = "Skipped duplicate films:\n";

pub const STUDENTS_INSERTED: &'static str = " student(s)!\n";

pub const STUDENTS_SKIPPED: &'static str = "Skipped duplicate students:\n";

/// The summary of a bulk insert: how many were inserted and which, then
/// which were skipped as duplicates. A part without names is left out.
pub open spec fn summary_text(
    inserted: Seq<Seq<char>>,
    skipped: Seq<Seq<char>>,
    inserted_unit: Seq<char>,
    skipped_head: Seq<char>,
) -> Seq<char> {
    let head = if inserted.len() > 0 {
        "Successfully inserted "@ + decimal_text(inserted.len()) + inserted_unit + joined_text(
            inserted,
            ", "@,
        )
    } else {
        Seq::empty()
    };
    let gap = if inserted.len() > 0 && skipped.len() > 0 {
        "\n"@
    } else {
        Seq::empty()
    };
    let tail = if skipped.len() > 0 {
        skipped_head + joined_text(skipped, ", "@)
    } else {
        Seq::empty()
    };
    head + gap + tail
}

/// The summary of a bulk insert.
pub fn summarize(
    inserted: &Vec<String>,
    skipped: &Vec<String>,
    inserted_unit: &str,
    skipped_head: &str,
) -> (msg: String)
    ensures
        msg@ == summary_text(texts(inserted@), texts(skipped@), inserted_unit@, skipped_head@),
{
    let mut msg = String::new();
    if inserted.len() > 0 {
        msg = msg.concat("Successfully inserted ");
        msg = msg.concat(decimal(inserted.len() as u64).as_str());
        msg = msg.concat(inserted_unit);
        msg = msg.concat(join_with(inserted, ", ").as_str());
    }
    if skipped.len() > 0 {
        if inserted.len() > 0 {
            msg = msg.concat("\n");
        }
        msg = msg.concat(skipped_head);
        msg = msg.concat(join_with(skipped, ", ").as_str());
    }
    assert(msg@ =~= summary_text(
        texts(inserted@),
        texts(skipped@),
        inserted_unit@,
        skipped_head@,
    ));
    msg
}

/// What inserting a film with a job for its first role does: `r` is what
/// comes back and `post` the engine afterwards.
///
/// A film whose name or id the store has already is a `Duplicate`, and
/// nothing changes. Otherwise the blank film is in the store; its job is in
/// the store and in the jobs queue, unless the id for the job is taken:
/// then the film stays without a job and the error is internal.
pub open spec fn film_added(
    pre: EngineView,
    name: Seq<char>,
    group: i32,
    priority: Priority,
    fresh: Fresh,
    r: Result<Film, Error>,
    post: EngineView,
) -> bool {
    if !pre.db.success {
        store_failed(r) && post == pre
    } else if has_film_named(pre.db.films, name) || has_film_id(pre.db.films, fresh.entity_id) {
        &&& r matches Err(Error::Duplicate(n))
        &&& n@ == name
        &&& post == pre
    } else {
        exists|film: Film| #[trigger]
            is_new_film(film, name, group, priority, fresh.entity_id) && (if has_row(
                pre.db.jobs,
                fresh.item_id,
            ) {
                key_conflict(r) && post == (EngineView {
                    db: StoreView { films: pre.db.films.push(film), ..pre.db },
                    ..pre
                })
            } else {
                r == Ok::<Film, Error>(film) && exists|job: QueueItem| #[trigger]
                    is_job_for(job, film, Seq::<char>::empty(), fresh.item_id, fresh.now) && post
                        == (EngineView {
                        db: StoreView {
                            films: pre.db.films.push(film),
                            jobs: pre.db.jobs.push(job),
                            ..pre.db
                        },
                        jobs: pre.jobs.insert(job),
                        waits: pre.waits,
                    })
            })
    }
}

/// The blank film of the given name, group, priority and id.
pub open spec fn is_new_film(
    film: Film,
    name: Seq<char>,
    group: i32,
    priority: Priority,
    id: u128,
) -> bool {
    &&& film.id == id
    &&& film.name@ == name
    &&& film.group_number == group
    &&& film.priority == priority
    &&& film.is_blank()
}

/// The rest of a bulk insert of films: with the films from place `i` on
/// still to insert, and the names `inserted` and `skipped` so far, the
/// insert ends with the answer `reply` and the engine `post`.
///
/// Each film is inserted as `film_added` says, with values freshly drawn
/// for it. A duplicate is skipped; any other error ends the insert, and the
/// answer is its text. At the end the answer is the summary.
pub open spec fn films_added_from(
    pre: EngineView,
    films: Seq<Film>,
    i: int,
    inserted: Seq<Seq<char>>,
    skipped: Seq<Seq<char>>,
    reply: Seq<char>,
    post: EngineView,
) -> bool
    decreases films.len() - i,
{
    if i < 0 || i >= films.len() {
        reply == summary_text(inserted, skipped, FILMS_INSERTED@, FILMS_SKIPPED@) && post == pre
    } else {
        exists|fresh: Fresh, r: Result<Film, Error>, after: EngineView| #[trigger]
            film_added(
                pre,
                films[i].name@,
                films[i].group_number,
                films[i].priority,
                fresh,
                r,
                after,
            ) && (match r {
                Ok(_) => films_added_from(
                    after,
                    films,
                    i + 1,
                    inserted.push(films[i].name@),
                    skipped,
                    reply,
                    post,
                ),
                Err(Error::Duplicate(_)) => films_added_from(
                    after,
                    films,
                    i + 1,
                    inserted,
                    skipped.push(films[i].name@),
                    reply,
                    post,
                ),
                Err(e) => reply == e.text() && post == after,
            })
    }
}

/// A bulk insert of the films ends with the answer `reply` and the engine
/// `post`.
pub open spec fn films_added(
    pre: EngineView,
    films: Seq<Film>,
    reply: Seq<char>,
    post: EngineView,
) -> bool {
    films_added_from(pre, films, 0, Seq::empty(), Seq::empty(), reply, post)
}

/// What inserting a student of a class list does: `r` is what comes back
/// and `post` the engine afterwards. A student whose id the store has
/// already is a `Duplicate`.
pub open spec fn student_added(
    pre: EngineView,
    name: Seq<char>,
    group: i32,
    class: Seq<char>,
    id: u128,
    r: Result<Student, Error>,
    post: EngineView,
) -> bool {
    if !pre.db.success {
        store_failed(r) && post == pre
    } else if has_student_id(pre.db.students, id) {
        &&& r matches Err(Error::Duplicate(n))
        &&& n@ == name
        &&& post == pre
    } else {
        &&& r matches Ok(student)
        &&& student.id == id
        &&& student.slack_id@ == Seq::<char>::empty()
        &&& student.name@ == name
        &&& student.group_number == group
        &&& student.class@ == class
        &&& student.is_blank()
        &&& post == (EngineView {
            db: StoreView { students: pre.db.students.push(student), ..pre.db },
            ..pre
        })
    }
}

/// The rest of a bulk insert of students; see `films_added_from`.
pub open spec fn students_added_from(
    pre: EngineView,
    students: Seq<Student>,
    i: int,
    inserted: Seq<Seq<char>>,
    skipped: Seq<Seq<char>>,
    reply: Seq<char>,
    post: EngineView,
) -> bool
    decreases students.len() - i,
{
    if i < 0 || i >= students.len() {
        reply == summary_text(inserted, skipped, STUDENTS_INSERTED@, STUDENTS_SKIPPED@) && post
            == pre
    } else {
        exists|id: u128, r: Result<Student, Error>, after: EngineView| #[trigger]
            student_added(
                pre,
                students[i].name@,
                students[i].group_number,
                students[i].class@,
                id,
                r,
                after,
            ) && (match r {
                Ok(_) => students_added_from(
                    after,
                    students,
                    i + 1,
                    inserted.push(students[i].name@),
                    skipped,
                    reply,
                    post,
                ),
                Err(Error::Duplicate(_)) => students_added_from(
                    after,
                    students,
                    i + 1,
                    inserted,
                    skipped.push(students[i].name@),
                    reply,
                    post,
                ),
                Err(e) => reply == e.text() && post == after,
            })
    }
}

/// A bulk insert of the students ends with the answer `reply` and the
/// engine `post`.
pub open spec fn students_added(
    pre: EngineView,
    students: Seq<Student>,
    reply: Seq<char>,
    post: EngineView,
) -> bool {
    students_added_from(pre, students, 0, Seq::empty(), Seq::empty(), reply, post)
}

/// A list that was uploaded as a file: films or students.
#[derive(Debug)]
pub enum Upload {
    Films(Vec<FilmInput>),
    Students(Vec<StudentInput>),
}

/// The films are those of the entries, one each and in order.
pub open spec fn films_of(films: Seq<Film>, entries: Seq<FilmInput>) -> bool {
    &&& films.len() == entries.len()
    &&& forall|k: int|
        0 <= k < films.len() ==> {
            &&& (#[trigger] films[k]).name@ == entries[k].code@
            &&& films[k].group_number == entries[k].group
            &&& films[k].priority == entries[k].priority
        }
}

/// The students are those of the entries, one each and in order: named by
/// first and last name with a space between.
pub open spec fn students_of(students: Seq<Student>, entries: Seq<StudentInput>) -> bool {
    &&& students.len() == entries.len()
    &&& forall|k: int|
        0 <= k < students.len() ==> {
            &&& (#[trigger] students[k]).name@ == entries[k].first@ + " "@ + entries[k].last@
            &&& students[k].group_number == entries[k].group
            &&& students[k].class@ == entries[k].class@
        }
}

/// What inserting one uploaded list does: `msg` is the summary and `post`
/// the engine afterwards.
pub open spec fn upload_added(
    pre: EngineView,
    upload: Upload,
    msg: Seq<char>,
    post: EngineView,
) -> bool {
    match upload {
        Upload::Films(entries) => exists|films: Seq<Film>| #[trigger]
            films_of(films, entries@) && films_added(pre, films, msg, post),
        Upload::Students(entries) => exists|students: Seq<Student>| #[trigger]
            students_of(students, entries@) && students_added(pre, students, msg, post),
    }
}

/// The rest of an insert of uploaded lists: with the lists from place `i`
/// on still to insert and the summaries `messages` so far, the insert ends
/// with the answer `reply` and the engine `post`. The answer holds the
/// summaries in order, each followed by a line feed.
pub open spec fn uploads_added_from(
    pre: EngineView,
    uploads: Seq<Upload>,
    i: int,
    messages: Seq<Seq<char>>,
    reply: Seq<char>,
    post: EngineView,
) -> bool
    decreases uploads.len() - i,
{
    if i < 0 || i >= uploads.len() {
        reply == lines_text(messages) && post == pre
    } else {
        exists|msg: Seq<char>, after: EngineView| #[trigger]
            upload_added(pre, uploads[i], msg, after) && uploads_added_from(
                after,
                uploads,
                i + 1,
                messages.push(msg),
                reply,
                post,
            )
    }
}

/// An insert of the uploaded lists ends with the answer `reply` and the
/// engine `post`.
pub open spec fn uploads_added(
    pre: EngineView,
    uploads: Seq<Upload>,
    reply: Seq<char>,
    post: EngineView,
) -> bool {
    uploads_added_from(pre, uploads, 0, Seq::empty(), reply, post)
}

/// The blank films of the entries, each with a freshly drawn id.
pub fn films_from(entries: &Vec<FilmInput>) -> (films: Vec<Film>)
    ensures
        films_of(films@, entries@),
{
    let mut films: Vec<Film> = Vec::new();
    let mut i: usize = 0;
    while i < entries.len()
        invariant
            i <= entries@.len(),
            films@.len() == i,
            forall|k: int|
                0 <= k < i ==> {
                    &&& (#[trigger] films@[k]).name@ == entries@[k].code@
                    &&& films@[k].group_number == entries@[k].group
                    &&& films@[k].priority == entries@[k].priority
                },
        decreases entries@.len() - i,
    {
        films.push(entries[i].to_film());
        i += 1;
    }
    films
}

/// The blank students of the entries, each with a freshly drawn id.
pub fn students_from(entries: &Vec<StudentInput>) -> (students: Vec<Student>)
    ensures
        students_of(students@, entries@),
{
    let mut students: Vec<Student> = Vec::new();
    let mut i: usize = 0;
    while i < entries.len()
        invariant
            i <= entries@.len(),
            students@.len() == i,
            forall|k: int|
                0 <= k < i ==> {
                    &&& (#[trigger] students@[k]).name@ == entries@[k].first@ + " "@
                        + entries@[k].last@
                    &&& students@[k].group_number == entries@[k].group
                    &&& students@[k].class@ == entries@[k].class@
                },
        decreases entries@.len() - i,
    {
        students.push(entries[i].to_student());
        i += 1;
    }
    students
}

/// The operations that the chat adapter calls.
pub struct Manager {
    pub state: Queue,
}

impl Manager {
    pub fn new(state: Queue) -> (manager: Manager)
        ensures
            manager.state == state,
    {
        Manager { state }
    }

    /// Handles a request for work and returns the answer to send back,
    /// using the ids and the time of `fresh` for what has to be created.
    pub fn request_work_at(
        &mut self,
        slack_id: &str,
        ts: &str,
        channel: &str,
        fresh: Fresh,
    ) -> (msg: String)
        requires
            old(self).state@.wf(),
        ensures
            final(self).state@.wf(),
            exists|outcome: Result<Option<QueueItem>, Error>| #[trigger]
                work_requested(
                    old(self).state@,
                    slack_id@,
                    ts@,
                    channel@,
                    fresh,
                    outcome,
                    final(self).state@,
                ) && msg@ == reply_text(slack_id@, outcome),
            old(self).state@.in_sync() ==> final(self).state@.in_sync(),
            old(self).state@.db.roles_consistent() ==> final(self).state@.db.roles_consistent(),
    {
        let outcome = self.state.try_assign_job_at(slack_id, ts, channel, fresh);
        let msg = request_reply(slack_id, &outcome);
        assert(work_requested(
            old(self).state@,
            slack_id@,
            ts@,
            channel@,
            fresh,
            outcome,
            self.state@,
        ) && msg@ == reply_text(slack_id@, outcome));
        msg
    }

    /// Handles a request for work and returns the answer to send back. The
    /// ids for what has to be created are freshly drawn, and the time is the
    /// current time.
    pub fn request_work(&mut self, slack_id: &str, ts: &str, channel: &str) -> (msg: String)
        requires
            old(self).state@.wf(),
        ensures
            final(self).state@.wf(),
            exists|fresh: Fresh, outcome: Result<Option<QueueItem>, Error>| #[trigger]
                work_requested(
                    old(self).state@,
                    slack_id@,
                    ts@,
                    channel@,
                    fresh,
                    outcome,
                    final(self).state@,
                ) && msg@ == reply_text(slack_id@, outcome),
            old(self).state@.in_sync() ==> final(self).state@.in_sync(),
            old(self).state@.db.roles_consistent() ==> final(self).state@.db.roles_consistent(),
    {
        let fresh = Fresh { entity_id: fresh_id(), item_id: fresh_id(), now: Timestamp::now() };
        self.request_work_at(slack_id, ts, channel, fresh)
    }

    /// Delivers the work of the student with the given chat user id, then
    /// goes through the wait queue once. What happens is spelled out in
    /// `work_delivered`.
    pub fn deliver_work_at(&mut self, slack_id: &str, fresh: Fresh) -> (out: Delivery)
        requires
            old(self).state@.wf(),
        ensures
            final(self).state@.wf(),
            work_delivered(old(self).state@, slack_id@, fresh, out, final(self).state@),
            old(self).state@.in_sync() ==> final(self).state@.in_sync(),
            old(self).state@.db.roles_consistent() ==> final(self).state@.db.roles_consistent(),
    {
        let found = self.state.db.get_student_with_id(slack_id, fresh.entity_id);
        let ghost seen = found;
        let ghost mid = self.state.db@;
        let student = match found {
            Ok(student) => student,
            Err(_) => {
                return Delivery { reply: String::from_str(INTERNAL_ERR), notices: Vec::new() };
            },
        };
        let ghost e0 = self.state@;
        let r1 = self.state.deliver_at(student, slack_id, fresh.item_id, fresh.now);
        let ghost e1 = self.state@;
        if r1.is_err() {
            let out = Delivery { reply: String::from_str(INTERNAL_ERR), notices: Vec::new() };
            proof {
                assert(delivered(e0, student, slack_id@, fresh.item_id, fresh.now, r1, e1));
                assert(resolved(old(self).state@.db, slack_id@, fresh.entity_id, seen, mid));
            }
            return out;
        }
        let r2 = self.state.try_empty_wait_queue();
        let notices = match &r2 {
            Ok(jobs) => notices_for(jobs),
            Err(_) => Vec::new(),
        };
        let out = Delivery { reply: String::from_str(DELIVER), notices };
        proof {
            assert(pass_made(e1, r2, self.state@));
            assert(delivered(e0, student, slack_id@, fresh.item_id, fresh.now, r1, e1));
            assert(resolved(old(self).state@.db, slack_id@, fresh.entity_id, seen, mid));
        }
        out
    }

    /// Delivers the work of the student with the given chat user id, then
    /// goes through the wait queue once; see `deliver_work_at`. The ids for
    /// what has to be created are freshly drawn, and the time is the current
    /// time.
    pub fn deliver_work(&mut self, slack_id: &str) -> (out: Delivery)
        requires
            old(self).state@.wf(),
        ensures
            final(self).state@.wf(),
            exists|fresh: Fresh| #[trigger]
                work_delivered(old(self).state@, slack_id@, fresh, out, final(self).state@),
            old(self).state@.in_sync() ==> final(self).state@.in_sync(),
            old(self).state@.db.roles_consistent() ==> final(self).state@.db.roles_consistent(),
    {
        let fresh = Fresh { entity_id: fresh_id(), item_id: fresh_id(), now: Timestamp::now() };
        self.deliver_work_at(slack_id, fresh)
    }

    /// Inserts a blank film and puts its first role into the jobs queue,
    /// with the ids and the time of `fresh`. What happens is spelled out in
    /// `film_added`.
    pub fn insert_film_at(
        &mut self,
        film_name: &str,
        group: i32,
        priority: Priority,
        fresh: Fresh,
    ) -> (r: Result<Film, Error>)
        requires
            old(self).state@.wf(),
        ensures
            final(self).state@.wf(),
            film_added(old(self).state@, film_name@, group, priority, fresh, r, final(self).state@),
            old(self).state@.in_sync() ==> final(self).state@.in_sync(),
            old(self).state@.db.roles_consistent() ==> final(self).state@.db.roles_consistent(),
    {
        let film = match self.state.db.insert_film_with_id(
            fresh.entity_id,
            film_name,
            group,
            priority,
        ) {
            Ok(film) => film,
            Err(e) => {
                return Err(e);
            },
        };
        proof {
            assert(is_new_film(film, film_name@, group, priority, fresh.entity_id));
        }
        match self.state.insert_job_at(&film, "", fresh.item_id, fresh.now) {
            Ok(job) => {
                proof {
                    reveal_strlit("");
                    assert(""@ =~= Seq::<char>::empty());
                    assert(is_job_for(job, film, Seq::<char>::empty(), fresh.item_id, fresh.now));
                }
                Ok(film)
            },
            Err(e) => Err(e),
        }
    }

    /// Inserts a blank film and puts its first role into the jobs queue; see
    /// `insert_film_at`. The ids are freshly drawn, and the time is the
    /// current time.
    pub fn insert_film(&mut self, film_name: &str, group: i32, priority: Priority) -> (r: Result<
        Film,
        Error,
    >)
        requires
            old(self).state@.wf(),
        ensures
            final(self).state@.wf(),
            exists|fresh: Fresh| #[trigger]
                film_added(
                    old(self).state@,
                    film_name@,
                    group,
                    priority,
                    fresh,
                    r,
                    final(self).state@,
                ),
            old(self).state@.in_sync() ==> final(self).state@.in_sync(),
            old(self).state@.db.roles_consistent() ==> final(self).state@.db.roles_consistent(),
    {
        let fresh = Fresh { entity_id: fresh_id(), item_id: fresh_id(), now: Timestamp::now() };
        self.insert_film_at(film_name, group, priority, fresh)
    }

    /// Inserts the films one by one, each with a job for its first role, and
    /// returns the summary: the names inserted and the names skipped as
    /// duplicates. Any other error ends the batch, and its text comes back.
    /// The insert is spelled out in `films_added`.
    pub fn insert_films(&mut self, films: Vec<Film>) -> (msg: String)
        requires
            old(self).state@.wf(),
        ensures
            final(self).state@.wf(),
            films_added(old(self).state@, films@, msg@, final(self).state@),
            old(self).state@.in_sync() ==> final(self).state@.in_sync(),
            old(self).state@.db.roles_consistent() ==> final(self).state@.db.roles_consistent(),
    {
        let mut inserted: Vec<String> = Vec::new();
        let mut skipped: Vec<String> = Vec::new();
        let mut i: usize = 0;
        assert(texts(inserted@) =~= Seq::<Seq<char>>::empty());
        assert(texts(skipped@) =~= Seq::<Seq<char>>::empty());
        while i < films.len()
            invariant
                i <= films@.len(),
                self.state@.wf(),
                forall|reply: Seq<char>, post: EngineView| #[trigger]
                    films_added_from(
                        self.state@,
                        films@,
                        i as int,
                        texts(inserted@),
                        texts(skipped@),
                        reply,
                        post,
                    ) ==> films_added(old(self).state@, films@, reply, post),
                old(self).state@.in_sync() ==> self.state@.in_sync(),
                old(self).state@.db.roles_consistent() ==> self.state@.db.roles_consistent(),
            decreases films@.len() - i,
        {
            let film = &films[i];
            let ghost before = self.state@;
            let ghost inserted0 = texts(inserted@);
            let ghost skipped0 = texts(skipped@);
            let fresh = Fresh { entity_id: fresh_id(), item_id: fresh_id(), now: Timestamp::now() };
            let r = self.insert_film_at(
                film.name.as_str(),
                film.group_number,
                film.priority,
                fresh,
            );
            let ghost after = self.state@;
            match r {
                Ok(_) => {
                    inserted.push(film.name.clone());
                    assert(texts(inserted@) =~= inserted0.push(film.name@));
                },
                Err(Error::Duplicate(_)) => {
                    skipped.push(film.name.clone());
                    assert(texts(skipped@) =~= skipped0.push(film.name@));
                },
                Err(e) => {
                    let msg = e.message();
                    assert(films_added_from(
                        before,
                        films@,
                        i as int,
                        inserted0,
                        skipped0,
                        msg@,
                        self.state@,
                    ));
                    return msg;
                },
            }
            proof {
                assert forall|reply: Seq<char>, post: EngineView| #[trigger]
                    films_added_from(
                        self.state@,
                        films@,
                        i + 1,
                        texts(inserted@),
                        texts(skipped@),
                        reply,
                        post,
                    ) implies films_added(old(self).state@, films@, reply, post) by {
                    assert(films_added_from(
                        before,
                        films@,
                        i as int,
                        inserted0,
                        skipped0,
                        reply,
                        post,
                    ));
                }
            }
            i += 1;
        }
        let msg = summarize(&inserted, &skipped, FILMS_INSERTED, FILMS_SKIPPED);
        assert(films_added_from(
            self.state@,
            films@,
            i as int,
            texts(inserted@),
            texts(skipped@),
            msg@,
            self.state@,
        ));
        msg
    }

    /// Inserts the students of a class list one by one and returns the
    /// summary: the names inserted and the names skipped as duplicates. Any
    /// other error ends the batch, and its text comes back. The insert is
    /// spelled out in `students_added`.
    pub fn insert_students_from_csv(&mut self, students: Vec<Student>) -> (msg: String)
        requires
            old(self).state@.wf(),
        ensures
            final(self).state@.wf(),
            students_added(old(self).state@, students@, msg@, final(self).state@),
            old(self).state@.in_sync() ==> final(self).state@.in_sync(),
            old(self).state@.db.roles_consistent() ==> final(self).state@.db.roles_consistent(),
    {
        let mut inserted: Vec<String> = Vec::new();
        let mut skipped: Vec<String> = Vec::new();
        let mut i: usize = 0;
        assert(texts(inserted@) =~= Seq::<Seq<char>>::empty());
        assert(texts(skipped@) =~= Seq::<Seq<char>>::empty());
        while i < students.len()
            invariant
                i <= students@.len(),
                self.state@.wf(),
                forall|reply: Seq<char>, post: EngineView| #[trigger]
                    students_added_from(
                        self.state@,
                        students@,
                        i as int,
                        texts(inserted@),
                        texts(skipped@),
                        reply,
                        post,
                    ) ==> students_added(old(self).state@, students@, reply, post),
                old(self).state@.in_sync() ==> self.state@.in_sync(),
                old(self).state@.db.roles_consistent() ==> self.state@.db.roles_consistent(),
            decreases students@.len() - i,
        {
            let student = &students[i];
            let ghost before = self.state@;
            let ghost inserted0 = texts(inserted@);
            let ghost skipped0 = texts(skipped@);
            let id = fresh_id();
            let r = self.state.db.insert_student_from_csv_with_id(
                id,
                student.name.as_str(),
                student.group_number,
                student.class.as_str(),
            );
            proof {
                assert(student_added(
                    before,
                    student.name@,
                    student.group_number,
                    student.class@,
                    id,
                    r,
                    self.state@,
                ));
            }
            match r {
                Ok(_) => {
                    inserted.push(student.name.clone());
                    assert(texts(inserted@) =~= inserted0.push(student.name@));
                },
                Err(Error::Duplicate(_)) => {
                    skipped.push(student.name.clone());
                    assert(texts(skipped@) =~= skipped0.push(student.name@));
                },
                Err(e) => {
                    let msg = e.message();
                    assert(students_added_from(
                        before,
                        students@,
                        i as int,
                        inserted0,
                        skipped0,
                        msg@,
                        self.state@,
                    ));
                    return msg;
                },
            }
            proof {
                assert forall|reply: Seq<char>, post: EngineView| #[trigger]
                    students_added_from(
                        self.state@,
                        students@,
                        i + 1,
                        texts(inserted@),
                        texts(skipped@),
                        reply,
                        post,
                    ) implies students_added(old(self).state@, students@, reply, post) by {
                    assert(students_added_from(
                        before,
                        students@,
                        i as int,
                        inserted0,
                        skipped0,
                        reply,
                        post,
                    ));
                }
            }
            i += 1;
        }
        let msg = summarize(&inserted, &skipped, STUDENTS_INSERTED, STUDENTS_SKIPPED);
        assert(students_added_from(
            self.state@,
            students@,
            i as int,
            texts(inserted@),
            texts(skipped@),
            msg@,
            self.state@,
        ));
        msg
    }

    /// Inserts the uploaded lists one after the other and returns their
    /// summaries, each followed by a line feed. The insert is spelled out in
    /// `uploads_added`.
    pub fn insert_from_files(&mut self, files: &Vec<Upload>) -> (msg: String)
        requires
            old(self).state@.wf(),
        ensures
            final(self).state@.wf(),
            uploads_added(old(self).state@, files@, msg@, final(self).state@),
            old(self).state@.in_sync() ==> final(self).state@.in_sync(),
            old(self).state@.db.roles_consistent() ==> final(self).state@.db.roles_consistent(),
    {
        let mut messages: Vec<String> = Vec::new();
        let mut i: usize = 0;
        assert(texts(messages@) =~= Seq::<Seq<char>>::empty());
        while i < files.len()
            invariant
                i <= files@.len(),
                self.state@.wf(),
                forall|reply: Seq<char>, post: EngineView| #[trigger]
                    uploads_added_from(
                        self.state@,
                        files@,
                        i as int,
                        texts(messages@),
                        reply,
                        post,
                    ) ==> uploads_added(old(self).state@, files@, reply, post),
                old(self).state@.in_sync() ==> self.state@.in_sync(),
                old(self).state@.db.roles_consistent() ==> self.state@.db.roles_consistent(),
            decreases files@.len() - i,
        {
            let ghost before = self.state@;
            let ghost said = texts(messages@);
            let msg = match &files[i] {
                Upload::Films(entries) => {
                    let films = films_from(entries);
                    let ghost given = films@;
                    let msg = self.insert_films(films);
                    assert(films_of(given, entries@) && films_added(
                        before,
                        given,
                        msg@,
                        self.state@,
                    ));
                    msg
                },
                Upload::Students(entries) => {
                    let students = students_from(entries);
                    let ghost given = students@;
                    let msg = self.insert_students_from_csv(students);
                    assert(students_of(given, entries@) && students_added(
                        before,
                        given,
                        msg@,
                        self.state@,
                    ));
                    msg
                },
            };
            assert(upload_added(before, files@[i as int], msg@, self.state@));
            messages.push(msg);
            proof {
                assert(texts(messages@) =~= said.push(msg@));
                assert forall|reply: Seq<char>, post: EngineView| #[trigger]
                    uploads_added_from(
                        self.state@,
                        files@,
                        i + 1,
                        texts(messages@),
                        reply,
                        post,
                    ) implies uploads_added(old(self).state@, files@, reply, post) by {
                    assert(uploads_added_from(before, files@, i as int, said, reply, post));
                }
            }
            i += 1;
        }
        let msg = join_messages(&messages);
        assert(uploads_added_from(
            self.state@,
            files@,
            i as int,
            texts(messages@),
            msg@,
            self.state@,
        ));
        msg
    }
}

} // verus!
