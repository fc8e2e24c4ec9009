use shbot::clock::Timestamp;
use shbot::models::{Film, Priority, Role, Student};
use shbot::queue::{Fresh, Queue, QueueItem};
use shbot::store::MockClient;
use shbot::Error;

const TODAY: i64 = 1_700_000_000;
const YESTERDAY: i64 = TODAY - 86_400;

fn at(secs: i64) -> Timestamp {
    Timestamp { secs, nanos: 0 }
}

fn fresh(student_id: u128, item_id: u128, secs: i64) -> Fresh {
    Fresh { entity_id: student_id, item_id, now: at(secs) }
}

/// Inserts a film and the job for its first role.
fn seed_film(engine: &mut Queue, id: u128, name: &str, group: i32, priority: Priority, secs: i64) -> Film {
    let film = engine.db.insert_film_with_id(id, name, group, priority).unwrap();
    engine.insert_job_at(&film, "", 1000 + id, at(secs)).unwrap();
    film
}

/// Inserts a student of the given group who is known as `slack_id`.
fn seed_student(engine: &mut Queue, id: u128, slack_id: &str, name: &str, group: i32) -> Student {
    engine.db.register_user(slack_id, name);
    engine.db.insert_student_from_csv_with_id(id, name, group, "A").unwrap()
}

fn job_names(engine: &Queue) -> Vec<String> {
    engine.db.get_queue(false).unwrap().into_iter().map(|j| j.film_name).collect()
}

#[test]
fn fresh_assignment() {
    let mut engine = Queue::_new();
    let film = seed_film(&mut engine, 1, "F", 1, Priority::High, TODAY);
    let student = seed_student(&mut engine, 2, "US", "S", 2);

    let job = engine.try_assign_job_at("US", "ts", "chan", fresh(90, 91, TODAY)).unwrap().unwrap();
    assert_eq!("F", job.film_name);
    assert_eq!(Role::Ae, job.role);
    assert_eq!(1001, job.id);

    assert_eq!(vec![film], engine.db.get_worked_films(student.id).unwrap());
    assert!(engine.db.get_queue(false).unwrap().iter().all(|row| row.id != job.id));
    assert!(engine.jobs_q.is_empty());
    assert!(engine.db.get_queue(false).unwrap().is_empty());
    assert!(engine.wait_q.is_empty());

    let stored = engine.db.get_student("US").unwrap();
    assert_eq!(Some("F".to_string()), stored.current_film);
    assert_eq!(Role::Ae, stored.current_role);
    assert_eq!(None, stored.roles.ae);
    assert_eq!(Role::Ae, engine.db.get_film("F").unwrap().unwrap().current_role);
}

#[test]
fn group_exclusion_shapes_the_pool_not_the_scan() {
    let mut engine = Queue::_new();
    seed_film(&mut engine, 1, "F1", 1, Priority::High, YESTERDAY);
    seed_film(&mut engine, 2, "F2", 2, Priority::High, TODAY);
    seed_student(&mut engine, 3, "US", "S", 1);

    let pool = engine.db.get_films_exclusionary(1, Role::Ae).unwrap();
    assert_eq!(1, pool.len());
    assert_eq!("F2", pool[0].name);

    // The scan of the jobs queue goes by role and worked films alone, so the
    // older job leaves first although its film is of the student's group.
    let job = engine.try_assign_job_at("US", "ts", "chan", fresh(90, 91, TODAY)).unwrap().unwrap();
    assert_eq!("F1", job.film_name);
    assert_eq!(vec!["F2".to_string()], job_names(&engine));
}

#[test]
fn priority_ordering() {
    let mut engine = Queue::_new();
    seed_film(&mut engine, 1, "F1", 1, Priority::Low, TODAY);
    seed_film(&mut engine, 2, "F2", 1, Priority::High, TODAY);
    seed_student(&mut engine, 3, "US", "S", 2);

    let job = engine.try_assign_job_at("US", "ts", "chan", fresh(90, 91, TODAY)).unwrap().unwrap();
    assert_eq!("F2", job.film_name);
    assert_eq!(Some(Priority::High), job.priority);
    assert_eq!(vec!["F1".to_string()], job_names(&engine));
    assert_eq!(1, engine.jobs_q.len());
}

#[test]
fn no_films_means_waiting() {
    let mut engine = Queue::_new();
    seed_student(&mut engine, 3, "US", "S", 2);

    let got = engine.try_assign_job_at("US", "12.5", "C1", fresh(90, 91, TODAY)).unwrap();
    assert_eq!(None, got);

    let waiter = QueueItem {
        id: 91,
        student_slack_id: "US".to_string(),
        film_name: "".to_string(),
        role: Role::Ae,
        priority: None,
        msg_ts: Some("12.5".to_string()),
        channel: Some("C1".to_string()),
        created_at: at(TODAY),
    };
    assert_eq!(vec![waiter.clone()], engine.db.get_queue(true).unwrap());
    assert_eq!(1, engine.wait_q.len());
    assert_eq!(Some(waiter), engine.wait_q.pop());
    assert_eq!(None, engine.db.get_student("US").unwrap().current_film);
}

#[test]
fn a_job_at_another_role_does_not_suit() {
    let mut engine = Queue::_new();
    let mut film = engine.db.insert_film_with_id(1, "F", 1, Priority::High).unwrap();
    film.increment_role("someone".to_string());
    engine.db.update_film(&film).unwrap();
    engine.insert_job_at(&film, "", 50, at(TODAY)).unwrap();
    seed_student(&mut engine, 3, "US", "S", 2);

    assert_eq!(None, engine.try_assign_job_at("US", "ts", "chan", fresh(90, 91, TODAY)).unwrap());
    assert_eq!(vec!["F".to_string()], job_names(&engine));
    assert_eq!(1, engine.jobs_q.len());
    assert_eq!(1, engine.wait_q.len());
}

#[test]
fn a_worked_film_is_passed_over_while_a_fresh_one_exists() {
    let mut engine = Queue::_new();
    let old = seed_film(&mut engine, 1, "old", 1, Priority::High, YESTERDAY);
    seed_film(&mut engine, 2, "new", 1, Priority::Low, TODAY);
    let student = seed_student(&mut engine, 3, "US", "S", 2);
    engine.db.insert_student_films(student.id, old.id).unwrap();

    let job = engine.try_assign_job_at("US", "ts", "chan", fresh(90, 91, TODAY)).unwrap().unwrap();
    assert_eq!("new", job.film_name);
    assert_eq!(vec!["old".to_string()], job_names(&engine));
    assert_eq!(1, engine.jobs_q.len());
    assert_eq!("old", engine.jobs_q.pop().unwrap().film_name);
}

#[test]
fn repeat_when_unavoidable() {
    let mut engine = Queue::_new();
    let film = seed_film(&mut engine, 1, "F", 1, Priority::High, TODAY);
    let student = seed_student(&mut engine, 3, "US", "S", 2);

    // S works F at AE and delivers: both are at Editor then.
    engine.try_assign_job_at("US", "ts", "chan", fresh(90, 91, TODAY)).unwrap().unwrap();
    let holding = engine.db.get_student("US").unwrap();
    assert_eq!(Ok(()), engine.deliver_at(holding, "US", 92, at(TODAY + 1)));

    let pool = engine.db.get_films_exclusionary(2, Role::Editor).unwrap();
    let worked = engine.db.get_worked_films(student.id).unwrap();
    assert_eq!(1, pool.len());
    assert_eq!(pool, worked);

    let job = engine.try_assign_job_at("US", "ts", "chan", fresh(93, 94, TODAY + 2)).unwrap().unwrap();
    assert_eq!("F", job.film_name);
    assert_eq!(Role::Editor, job.role);
    assert_eq!(92, job.id);
    assert_eq!(vec![engine.db.get_film("F").unwrap().unwrap()], engine.db.get_worked_films(student.id).unwrap());
    assert_eq!(film.id, engine.db.get_worked_films(student.id).unwrap()[0].id);
    assert!(engine.db.get_queue(false).unwrap().is_empty());
    assert!(engine.wait_q.is_empty());
}

#[test]
fn a_student_who_is_done_is_refused() {
    let mut engine = Queue::_new();
    seed_film(&mut engine, 1, "F", 1, Priority::High, TODAY);
    let mut student = seed_student(&mut engine, 3, "US", "S", 2);
    for name in ["a", "b", "c", "d"] {
        student.increment_role(name.to_string());
    }
    assert_eq!(Role::Done, student.current_role);
    engine.db.update_student(&student).unwrap();

    assert_eq!(
        Err(Error::Duplicate("You're done! No more work to do :)".to_string())),
        engine.try_assign_job_at("US", "ts", "chan", fresh(90, 91, TODAY))
    );
    assert_eq!(1, engine.jobs_q.len());
    assert!(engine.wait_q.is_empty());
    assert!(engine.db.get_queue(true).unwrap().is_empty());
}

#[test]
fn an_unknown_student_is_not_found() {
    let mut engine = Queue::_new();
    seed_film(&mut engine, 1, "F", 1, Priority::High, TODAY);
    assert_eq!(
        Err(Error::NotFound("U404".to_string())),
        engine.try_assign_job_at("U404", "ts", "chan", fresh(90, 91, TODAY))
    );
    assert_eq!(Err(Error::NotFound("U404".to_string())), engine.try_assign_job("U404", "ts", "chan"));
    assert_eq!(1, engine.jobs_q.len());
}

#[test]
fn a_student_known_to_the_directory_only_is_created_on_request() {
    let mut engine = Queue::_new();
    seed_film(&mut engine, 1, "F", 1, Priority::High, TODAY);
    engine.db.register_user("UN", "New Kid");
    let job = engine.try_assign_job_at("UN", "ts", "chan", fresh(90, 91, TODAY)).unwrap().unwrap();
    assert_eq!("F", job.film_name);
    let student = engine.db.get_student("UN").unwrap();
    assert_eq!(90, student.id);
    assert_eq!("New Kid", student.name);
    assert_eq!(Some("F".to_string()), student.current_film);
}

#[test]
fn a_job_for_a_film_that_the_store_lacks_is_an_impossible_state() {
    let mut engine = Queue::_new();
    let ghost = Film::with_id(5, "ghost", Priority::High, 1);
    engine.insert_job_at(&ghost, "", 50, at(TODAY)).unwrap();
    seed_student(&mut engine, 3, "US", "S", 2);
    assert_eq!(
        Err(Error::Internal("Impossible state".to_string())),
        engine.try_assign_job_at("US", "ts", "chan", fresh(90, 91, TODAY))
    );
    assert_eq!(1, engine.jobs_q.len());
    assert_eq!(1, engine.db.get_queue(false).unwrap().len());
    assert!(engine.wait_q.is_empty());
}

#[test]
fn a_taken_waiter_id_fails_the_request() {
    let mut engine = Queue::_new();
    seed_student(&mut engine, 3, "US", "S", 2);
    assert_eq!(None, engine.try_assign_job_at("US", "ts", "chan", fresh(90, 91, TODAY)).unwrap());
    assert_eq!(
        Err(Error::Internal("duplicate key".to_string())),
        engine.try_assign_job_at("US", "ts", "chan", fresh(90, 91, TODAY + 1))
    );
    assert_eq!(1, engine.wait_q.len());
}

#[test]
fn deliver_without_a_film_is_an_impossible_state() {
    let mut engine = Queue::_new();
    seed_film(&mut engine, 1, "F", 1, Priority::High, TODAY);
    let student = seed_student(&mut engine, 3, "US", "S", 2);
    assert_eq!(
        Err(Error::Internal("Impossible state".to_string())),
        engine.deliver_at(student.clone(), "US", 92, at(TODAY))
    );
    assert_eq!(Err(Error::Internal("Impossible state".to_string())), engine.deliver(student, "US"));
    assert_eq!(1, engine.jobs_q.len());
    assert_eq!(Role::Ae, engine.db.get_student("US").unwrap().current_role);
}

#[test]
fn deliver_of_a_film_that_the_store_lacks_is_an_impossible_state() {
    let mut engine = Queue::_new();
    let mut student = seed_student(&mut engine, 3, "US", "S", 2);
    student.current_film = Some("gone".to_string());
    engine.db.update_student(&student).unwrap();
    assert_eq!(
        Err(Error::Internal("Impossible state".to_string())),
        engine.deliver_at(student, "US", 92, at(TODAY))
    );
}

#[test]
fn deliver_advances_film_and_student_and_adds_one_job() {
    let mut engine = Queue::_new();
    seed_film(&mut engine, 1, "F", 1, Priority::Low, TODAY);
    seed_student(&mut engine, 3, "US", "S", 2);
    engine.try_assign_job_at("US", "ts", "chan", fresh(90, 91, TODAY)).unwrap().unwrap();
    let holding = engine.db.get_student("US").unwrap();

    assert_eq!(Ok(()), engine.deliver_at(holding, "US", 92, at(TODAY + 5)));

    let film = engine.db.get_film("F").unwrap().unwrap();
    assert_eq!(Role::Editor, film.current_role);
    assert_eq!(Some("S".to_string()), film.roles.ae);
    assert_eq!(None, film.roles.editor);
    let student = engine.db.get_student("US").unwrap();
    assert_eq!(Role::Editor, student.current_role);
    assert_eq!(Some("F".to_string()), student.roles.ae);
    assert_eq!(None, student.current_film);

    let job = QueueItem {
        id: 92,
        student_slack_id: "US".to_string(),
        film_name: "F".to_string(),
        role: Role::Editor,
        priority: Some(Priority::Low),
        msg_ts: None,
        channel: None,
        created_at: at(TODAY + 5),
    };
    assert_eq!(vec![job.clone()], engine.db.get_queue(false).unwrap());
    assert_eq!(1, engine.jobs_q.len());
    assert_eq!(Some(job), engine.jobs_q.pop());
}

#[test]
fn the_last_delivery_adds_no_job() {
    let mut engine = Queue::_new();
    let mut film = engine.db.insert_film_with_id(1, "F", 1, Priority::High).unwrap();
    for name in ["a", "b", "c"] {
        film.increment_role(name.to_string());
    }
    engine.db.update_film(&film).unwrap();
    let mut student = seed_student(&mut engine, 3, "US", "S", 2);
    for name in ["x", "y", "z"] {
        student.increment_role(name.to_string());
    }
    student.current_film = Some("F".to_string());
    engine.db.update_student(&student).unwrap();

    assert_eq!(Ok(()), engine.deliver_at(student, "US", 92, at(TODAY)));
    assert_eq!(Role::Done, engine.db.get_film("F").unwrap().unwrap().current_role);
    assert_eq!(Role::Done, engine.db.get_student("US").unwrap().current_role);
    assert!(engine.db.get_queue(false).unwrap().is_empty());
    assert!(engine.jobs_q.is_empty());
}

#[test]
fn a_taken_job_id_fails_the_delivery_and_changes_nothing() {
    let mut engine = Queue::_new();
    seed_film(&mut engine, 1, "F", 1, Priority::High, TODAY);
    seed_film(&mut engine, 2, "G", 1, Priority::Low, TODAY);
    seed_student(&mut engine, 3, "US", "S", 2);
    engine.try_assign_job_at("US", "ts", "chan", fresh(90, 91, TODAY)).unwrap().unwrap();
    let holding = engine.db.get_student("US").unwrap();
    assert_eq!(
        Err(Error::Internal("duplicate key".to_string())),
        engine.deliver_at(holding.clone(), "US", 1002, at(TODAY))
    );
    assert_eq!(Role::Ae, engine.db.get_film("F").unwrap().unwrap().current_role);
    assert_eq!(holding, engine.db.get_student("US").unwrap());
    assert_eq!(1, engine.jobs_q.len());
}

#[test]
fn deliver_and_drain() {
    let mut engine = Queue::_new();
    seed_film(&mut engine, 1, "F1", 1, Priority::High, TODAY);
    seed_student(&mut engine, 3, "U1", "S1", 2);
    seed_student(&mut engine, 4, "U2", "S2", 2);

    let job = engine.try_assign_job_at("U1", "1.0", "C", fresh(90, 91, TODAY)).unwrap().unwrap();
    assert_eq!("F1", job.film_name);
    assert_eq!(None, engine.try_assign_job_at("U2", "2.0", "C", fresh(92, 93, TODAY + 1)).unwrap());
    assert_eq!(1, engine.wait_q.len());

    let s1 = engine.db.get_student("U1").unwrap();
    assert_eq!(Ok(()), engine.deliver_at(s1, "U1", 94, at(TODAY + 2)));
    assert_eq!(Role::Editor, engine.db.get_queue(false).unwrap()[0].role);

    // S2 is still at AE and the only job is for Editor: S2 stays waiting.
    assert_eq!(Ok(vec![]), engine.try_empty_wait_queue());
    assert_eq!(1, engine.wait_q.len());
    assert_eq!(1, engine.db.get_queue(true).unwrap().len());
    assert_eq!(93, engine.db.get_queue(true).unwrap()[0].id);
    assert_eq!(1, engine.jobs_q.len());
}

#[test]
fn the_drain_serves_waiters_in_queue_order_and_keeps_the_rest() {
    let mut engine = Queue::_new();
    seed_student(&mut engine, 3, "U1", "S1", 2);
    seed_student(&mut engine, 4, "U2", "S2", 2);
    seed_student(&mut engine, 5, "U3", "S3", 2);
    assert_eq!(None, engine.try_assign_job_at("U2", "2.0", "C2", fresh(90, 92, TODAY + 2)).unwrap());
    assert_eq!(None, engine.try_assign_job_at("U1", "1.0", "C1", fresh(90, 91, TODAY + 1)).unwrap());
    assert_eq!(None, engine.try_assign_job_at("U3", "3.0", "C3", fresh(90, 93, TODAY + 3)).unwrap());
    assert_eq!(3, engine.wait_q.len());

    seed_film(&mut engine, 1, "low", 1, Priority::Low, TODAY);
    seed_film(&mut engine, 2, "high", 1, Priority::High, TODAY);

    let served = engine.try_empty_wait_queue().unwrap();
    assert_eq!(2, served.len());
    assert_eq!("U1", served[0].student_slack_id);
    assert_eq!("high", served[0].film_name);
    assert_eq!(Some("1.0".to_string()), served[0].msg_ts);
    assert_eq!(Some("C1".to_string()), served[0].channel);
    assert_eq!(1002, served[0].id);
    assert_eq!("U2", served[1].student_slack_id);
    assert_eq!("low", served[1].film_name);
    assert_eq!(Some("C2".to_string()), served[1].channel);

    assert_eq!(1, engine.wait_q.len());
    let waits = engine.db.get_queue(true).unwrap();
    assert_eq!(1, waits.len());
    assert_eq!("U3", waits[0].student_slack_id);
    assert!(engine.jobs_q.is_empty());
    assert!(engine.db.get_queue(false).unwrap().is_empty());
    assert_eq!(Some("high".to_string()), engine.db.get_student("U1").unwrap().current_film);
    assert_eq!(Some("low".to_string()), engine.db.get_student("U2").unwrap().current_film);
    assert_eq!(None, engine.db.get_student("U3").unwrap().current_film);
}

#[test]
fn a_failing_drain_loses_no_waiter() {
    let mut engine = Queue::_new();
    seed_student(&mut engine, 3, "U1", "S1", 2);
    seed_student(&mut engine, 4, "U2", "S2", 2);
    assert_eq!(None, engine.try_assign_job_at("U1", "1.0", "C1", fresh(90, 91, TODAY + 1)).unwrap());
    assert_eq!(None, engine.try_assign_job_at("U2", "2.0", "C2", fresh(90, 92, TODAY + 2)).unwrap());
    seed_film(&mut engine, 1, "F", 1, Priority::Low, TODAY);

    engine.db.set_success(false);
    assert_eq!(Err(Error::Internal("sample error".to_string())), engine.try_empty_wait_queue());
    assert_eq!(2, engine.wait_q.len());
    assert_eq!(1, engine.jobs_q.len());

    engine.db.set_success(true);
    assert_eq!(2, engine.db.get_queue(true).unwrap().len());
    assert_eq!(1, engine.try_empty_wait_queue().unwrap().len());
    assert_eq!(1, engine.wait_q.len());
}

#[test]
fn an_empty_wait_queue_drains_to_nothing() {
    let mut engine = Queue::_new();
    seed_film(&mut engine, 1, "F", 1, Priority::Low, TODAY);
    assert_eq!(Ok(vec![]), engine.try_empty_wait_queue());
    engine.db.set_success(false);
    assert_eq!(Ok(vec![]), engine.try_empty_wait_queue());
    assert_eq!(1, engine.jobs_q.len());
}

#[test]
fn the_engine_is_rebuilt_from_the_rows_of_the_store() {
    let mut engine = Queue::_new();
    seed_film(&mut engine, 1, "low", 1, Priority::Low, YESTERDAY);
    seed_film(&mut engine, 2, "high", 1, Priority::High, TODAY);
    seed_student(&mut engine, 3, "U1", "S1", 2);
    let mut done = seed_student(&mut engine, 4, "U2", "S2", 2);
    done.increment_role("x".to_string());
    engine.db.update_student(&done).unwrap();
    assert_eq!(None, engine.try_assign_job_at("U2", "2.0", "C2", fresh(90, 92, TODAY)).unwrap());

    let mut rebuilt = Queue::from_db(engine.db).unwrap();
    assert_eq!(2, rebuilt.jobs_q.len());
    assert_eq!(1, rebuilt.wait_q.len());
    assert_eq!("high", rebuilt.jobs_q.pop().unwrap().film_name);
    assert_eq!("low", rebuilt.jobs_q.pop().unwrap().film_name);
    assert_eq!("U2", rebuilt.wait_q.pop().unwrap().student_slack_id);

    let mut down = MockClient::new();
    down.set_success(false);
    assert!(matches!(Queue::from_db(down), Err(Error::Internal(_))));
}

#[test]
fn get_job_recycles_what_does_not_suit() {
    let mut engine = Queue::_new();
    let a = seed_film(&mut engine, 1, "a", 1, Priority::High, TODAY);
    seed_film(&mut engine, 2, "b", 1, Priority::Low, TODAY);
    assert_eq!(None, engine.get_job(&vec![], Role::Editor, true));
    assert_eq!(2, engine.jobs_q.len());
    let job = engine.get_job(&vec![a.clone()], Role::Ae, true).unwrap();
    assert_eq!("b", job.film_name);
    assert_eq!(1, engine.jobs_q.len());
    let job = engine.get_job(&vec![a], Role::Ae, false).unwrap();
    assert_eq!("a", job.film_name);
    assert_eq!(None, engine.get_job(&vec![], Role::Ae, false));
}

#[test]
fn insert_job_and_waiter_draw_id_and_time() {
    let mut engine = Queue::_new();
    let film = Film::with_id(1, "F", Priority::Low, 1);
    let job = engine.insert_job(&film, "U9").unwrap();
    assert_eq!("F", job.film_name);
    assert_eq!("U9", job.student_slack_id);
    assert_eq!(Some(Priority::Low), job.priority);
    assert_eq!(Role::Ae, job.role);
    assert!(job.created_at.secs > 1_600_000_000);
    assert_eq!(vec![job], engine.db.get_queue(false).unwrap());
    let waiter = engine.insert_waiter_at(Role::Sound, "5.5", "C", "U9", 7, at(TODAY)).unwrap();
    assert_eq!(Role::Sound, waiter.role);
    assert_eq!(None, waiter.priority);
    assert_eq!("", waiter.film_name);
    assert_eq!(
        Err(Error::Internal("duplicate key".to_string())),
        engine.insert_waiter_at(Role::Sound, "5.5", "C", "U9", 7, at(TODAY))
    );
    assert_eq!(1, engine.wait_q.len());
}

#[test]
fn a_student_with_the_chat_id_of_another_is_refused() {
    let mut engine = Queue::_new();
    seed_film(&mut engine, 1, "F", 1, Priority::High, TODAY);
    engine.db.insert_student_with_id(3, "U1", "S1").unwrap();
    let mut other = engine.db.insert_student_with_id(4, "U2", "S2").unwrap();
    assert!(engine.db.can_update_student(&other));
    other.slack_id = "U1".to_string();
    other.current_film = Some("F".to_string());
    assert!(!engine.db.can_update_student(&other));

    let refused = Err(Error::Internal("duplicate key".to_string()));
    assert_eq!(refused, engine.assign_job(other.clone()).map(|_| ()));
    assert_eq!(refused, engine.deliver_at(other, "U2", 92, at(TODAY)));
    assert_eq!(1, engine.jobs_q.len());
    assert_eq!(Role::Ae, engine.db.get_film("F").unwrap().unwrap().current_role);
    assert_eq!("U2", engine.db.list_students().unwrap()[1].slack_id);
    assert!(engine.db.get_worked_films(4).unwrap().is_empty());
}

#[test]
fn a_waiter_takes_a_turn() {
    let mut engine = Queue::_new();
    seed_film(&mut engine, 1, "F", 1, Priority::High, TODAY);
    seed_student(&mut engine, 3, "US", "S", 2);
    let waiter = QueueItem {
        id: 70,
        student_slack_id: "US".to_string(),
        film_name: "".to_string(),
        role: Role::Ae,
        priority: None,
        msg_ts: Some("3.0".to_string()),
        channel: Some("C3".to_string()),
        created_at: at(TODAY),
    };
    engine.db.insert_to_queue(waiter.clone(), true).unwrap();

    let job = engine.serve_waiter_at(&waiter, 90).unwrap().unwrap();
    assert_eq!(("F", "US"), (job.film_name.as_str(), job.student_slack_id.as_str()));
    assert_eq!((Some("3.0".to_string()), Some("C3".to_string())), (job.msg_ts, job.channel));
    assert!(engine.db.get_queue(true).unwrap().is_empty());
    assert!(engine.db.get_queue(false).unwrap().is_empty());

    assert_eq!(Ok(None), engine.serve_waiter_at(&waiter, 91));
    let unknown = QueueItem { student_slack_id: "U404".to_string(), ..waiter };
    assert_eq!(Err(Error::NotFound("U404".to_string())), engine.serve_waiter_at(&unknown, 92));
}
