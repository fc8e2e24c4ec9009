use shbot::clock::Timestamp;
use shbot::csv_parser::{FilmInput, StudentInput};
use shbot::manager::{
    assignment_message, films_from, notice_for, notices_for, request_reply, students_from,
    summarize, Manager, Upload, DELIVER, INTERNAL_ERR, NO_WORK,
};
use shbot::models::{Film, Priority, Role, Student};
use shbot::queue::{Fresh, Queue, QueueItem};
use shbot::slack::Response;
use shbot::Error;

const TODAY: i64 = 1_700_000_000;

fn fresh(student_id: u128, item_id: u128, secs: i64) -> Fresh {
    Fresh { entity_id: student_id, item_id, now: Timestamp { secs, nanos: 0 } }
}

fn job(film: &str, role: Role, slack_id: &str, channel: Option<&str>, ts: Option<&str>) -> QueueItem {
    QueueItem {
        id: 1,
        student_slack_id: slack_id.to_string(),
        film_name: film.to_string(),
        role,
        priority: Some(Priority::High),
        msg_ts: ts.map(|t| t.to_string()),
        channel: channel.map(|c| c.to_string()),
        created_at: Timestamp { secs: TODAY, nanos: 0 },
    }
}

fn manager_with_student() -> Manager {
    let mut engine = Queue::_new();
    engine.db.register_user("U1", "Ann Lee");
    engine.db.insert_student_from_csv_with_id(1, "Ann Lee", 2, "A").unwrap();
    Manager::new(engine)
}

#[test]
fn the_texts_of_a_request() {
    let j = job("star wars", Role::Sound, "", None, None);
    assert_eq!(
        "<@U1> You've been assigned to work `SOUND` on `star wars`!",
        assignment_message("U1", &j)
    );
    assert_eq!(
        "<@U1> You've been assigned to work `SOUND` on `star wars`!",
        request_reply("U1", &Ok(Some(j)))
    );
    assert_eq!(
        "No work is available yet :cry:\nI'll reply in this thread once I find some work for you!",
        request_reply("U1", &Ok(None))
    );
    assert_eq!(
        "You're all done! No more work for you :)",
        request_reply("U1", &Err(Error::Duplicate("x".to_string())))
    );
    let internal = "Something went wrong internally - please let Sheree know!";
    assert_eq!(internal, request_reply("U1", &Err(Error::Internal("x".to_string()))));
    assert_eq!(internal, request_reply("U1", &Err(Error::NotFound("x".to_string()))));
    assert_eq!(internal, request_reply("U1", &Err(Error::ParseError)));
    assert_eq!(internal, INTERNAL_ERR);
}

#[test]
fn a_request_is_answered_with_the_job_or_the_promise() {
    let mut manager = manager_with_student();
    assert_eq!(NO_WORK, manager.request_work_at("U1", "1.0", "C", fresh(90, 91, TODAY)));
    assert_eq!(1, manager.state.wait_q.len());

    let mut manager = manager_with_student();
    manager.insert_film("heat", 1, Priority::Low).unwrap();
    assert_eq!(
        "<@U1> You've been assigned to work `AE` on `heat`!",
        manager.request_work_at("U1", "1.0", "C", fresh(90, 91, TODAY))
    );
    assert_eq!(INTERNAL_ERR, manager.request_work("U404", "1.0", "C"));
    manager.state.db.set_success(false);
    assert_eq!(INTERNAL_ERR, manager.request_work("U1", "1.0", "C"));
}

#[test]
fn a_student_who_is_done_is_told_so() {
    let mut manager = manager_with_student();
    let mut student = manager.state.db.get_student("U1").unwrap();
    for name in ["a", "b", "c", "d"] {
        student.increment_role(name.to_string());
    }
    manager.state.db.update_student(&student).unwrap();
    assert_eq!(
        "You're all done! No more work for you :)",
        manager.request_work_at("U1", "1.0", "C", fresh(90, 91, TODAY))
    );
}

#[test]
fn a_notice_goes_to_the_channel_and_thread_of_the_waiter() {
    let stamped = job("heat", Role::Ae, "U2", Some("C7"), Some("5.5"));
    assert_eq!(
        Response::new(
            "C7".to_string(),
            "<@U2> You've been assigned to work `AE` on `heat`!".to_string(),
            Some("5.5".to_string())
        ),
        notice_for(&stamped)
    );
    let direct = job("heat", Role::Editor, "U3", None, None);
    assert_eq!(
        Response::new(
            "U3".to_string(),
            "<@U3> You've been assigned to work `EDITOR` on `heat`!".to_string(),
            None
        ),
        notice_for(&direct)
    );
    let notices = notices_for(&vec![stamped, direct]);
    assert_eq!(2, notices.len());
    assert_eq!("C7", notices[0].channel);
    assert_eq!("U3", notices[1].channel);
    assert!(notices_for(&vec![]).is_empty());
}

#[test]
fn a_delivery_is_thanked_and_serves_the_waiters() {
    let mut manager = manager_with_student();
    manager.state.db.register_user("U2", "Bo Diaz");
    manager.state.db.insert_student_from_csv_with_id(2, "Bo Diaz", 2, "A").unwrap();
    // Bo has done AE elsewhere and waits for an Editor job.
    let mut bo = manager.state.db.get_student("U2").unwrap();
    bo.increment_role("older film".to_string());
    manager.state.db.update_student(&bo).unwrap();
    assert_eq!(NO_WORK, manager.request_work_at("U2", "2.0", "C2", fresh(90, 91, TODAY)));

    manager.insert_film("heat", 1, Priority::High).unwrap();
    assert_eq!(
        "<@U1> You've been assigned to work `AE` on `heat`!",
        manager.request_work_at("U1", "1.0", "C1", fresh(92, 93, TODAY + 1))
    );

    let out = manager.deliver_work_at("U1", fresh(94, 95, TODAY + 2));
    assert_eq!(DELIVER, out.reply);
    assert_eq!(
        vec![Response::new(
            "C2".to_string(),
            "<@U2> You've been assigned to work `EDITOR` on `heat`!".to_string(),
            Some("2.0".to_string())
        )],
        out.notices
    );
    assert!(manager.state.wait_q.is_empty());
    assert!(manager.state.db.get_queue(true).unwrap().is_empty());
    assert!(manager.state.jobs_q.is_empty());
    assert_eq!(Some("heat".to_string()), manager.state.db.get_student("U2").unwrap().current_film);
    let ann = manager.state.db.get_student("U1").unwrap();
    assert_eq!(None, ann.current_film);
    assert_eq!(Role::Editor, ann.current_role);
    let heat = manager.state.db.get_film("heat").unwrap().unwrap();
    assert_eq!(Some("Ann Lee".to_string()), heat.roles.ae);
}

#[test]
fn a_delivery_that_cannot_be_made_is_an_internal_error() {
    let mut manager = manager_with_student();
    let out = manager.deliver_work_at("U1", fresh(94, 95, TODAY));
    assert_eq!(INTERNAL_ERR, out.reply);
    assert!(out.notices.is_empty());
    let out = manager.deliver_work("U404");
    assert_eq!(INTERNAL_ERR, out.reply);
    manager.state.db.set_success(false);
    let out = manager.deliver_work("U1");
    assert_eq!(INTERNAL_ERR, out.reply);
    assert!(out.notices.is_empty());
}

#[test]
fn the_summary_of_a_bulk_insert() {
    let names = |v: &[&str]| v.iter().map(|s| s.to_string()).collect::<Vec<_>>();
    assert_eq!("", summarize(&names(&[]), &names(&[]), " films(s)!\n", "Skipped duplicate films:\n"));
    assert_eq!(
        "Successfully inserted 1 films(s)!\na",
        summarize(&names(&["a"]), &names(&[]), " films(s)!\n", "Skipped duplicate films:\n")
    );
    assert_eq!(
        "Skipped duplicate films:\nx, y",
        summarize(&names(&[]), &names(&["x", "y"]), " films(s)!\n", "Skipped duplicate films:\n")
    );
    assert_eq!(
        "Successfully inserted 3 films(s)!\na, b, c\nSkipped duplicate films:\nx",
        summarize(&names(&["a", "b", "c"]), &names(&["x"]), " films(s)!\n", "Skipped duplicate films:\n")
    );
    let twelve = names(&["a"; 12]);
    assert!(summarize(&twelve, &names(&[]), " student(s)!\n", "Skipped duplicate students:\n")
        .starts_with("Successfully inserted 12 student(s)!\na, a, "));
}

#[test]
fn films_are_inserted_in_bulk_with_a_job_each() {
    let mut manager = Manager::new(Queue::_new());
    manager.insert_film("old", 1, Priority::Low).unwrap();
    let films = vec![
        Film::new("a", Priority::High, 1),
        Film::new("old", Priority::High, 2),
        Film::new("b", Priority::Low, 3),
        Film::new("a", Priority::Low, 4),
    ];
    assert_eq!(
        "Successfully inserted 2 films(s)!\na, b\nSkipped duplicate films:\nold, a",
        manager.insert_films(films)
    );
    let stored = manager.state.db.list_films().unwrap();
    assert_eq!(3, stored.len());
    assert_eq!(("old", 1), (stored[0].name.as_str(), stored[0].group_number));
    assert_eq!(("a", 1, Priority::High), (stored[1].name.as_str(), stored[1].group_number, stored[1].priority));
    assert_eq!(("b", 3, Priority::Low), (stored[2].name.as_str(), stored[2].group_number, stored[2].priority));
    let jobs = manager.state.db.get_queue(false).unwrap();
    assert_eq!(3, jobs.len());
    assert!(jobs.iter().all(|j| j.role == Role::Ae && j.student_slack_id.is_empty()));
    assert_eq!(Some(Priority::High), jobs[1].priority);
    assert_eq!(3, manager.state.jobs_q.len());
    assert_eq!("a", manager.state.jobs_q.pop().unwrap().film_name);

    assert_eq!("", manager.insert_films(vec![]));
    assert_eq!(Err(Error::Duplicate("a".to_string())), manager.insert_film("a", 1, Priority::Low));
}

#[test]
fn students_are_inserted_in_bulk() {
    let mut manager = Manager::new(Queue::_new());
    let students = vec![
        Student::with_id(0, "", "Ann Lee", 1, "A"),
        Student::with_id(0, "", "Bo Diaz", 2, "B"),
    ];
    assert_eq!(
        "Successfully inserted 2 student(s)!\nAnn Lee, Bo Diaz",
        manager.insert_students_from_csv(students)
    );
    let stored = manager.state.db.list_students().unwrap();
    assert_eq!(2, stored.len());
    assert_eq!(("Bo Diaz", 2, "B"), (stored[1].name.as_str(), stored[1].group_number, stored[1].class.as_str()));
    assert_eq!("", stored[1].slack_id);
    assert_ne!(stored[0].id, stored[1].id);
    assert_eq!("", manager.insert_students_from_csv(vec![]));
}

#[test]
fn another_error_than_a_duplicate_ends_the_batch() {
    let mut manager = Manager::new(Queue::_new());
    manager.state.db.set_success(false);
    assert_eq!("sample error", manager.insert_films(vec![Film::new("a", Priority::High, 1)]));
    assert_eq!(
        "sample error",
        manager.insert_students_from_csv(vec![Student::with_id(0, "", "Ann Lee", 1, "A")])
    );
    manager.state.db.set_success(true);
    assert!(manager.state.db.list_films().unwrap().is_empty());
    assert!(manager.state.db.list_students().unwrap().is_empty());
}

#[test]
fn uploaded_lists_are_inserted_one_after_the_other() {
    let film = |code: &str, group: i32, priority: Priority| FilmInput {
        code: code.to_string(),
        group,
        priority,
    };
    let student = |first: &str, last: &str| StudentInput {
        class: "A".to_string(),
        group: 3,
        first: first.to_string(),
        last: last.to_string(),
    };
    let films = films_from(&vec![film("heat", 1, Priority::Low), film("ran", 2, Priority::High)]);
    assert_eq!(("heat", 1, Priority::Low), (films[0].name.as_str(), films[0].group_number, films[0].priority));
    assert_eq!(("ran", 2, Priority::High), (films[1].name.as_str(), films[1].group_number, films[1].priority));
    let students = students_from(&vec![student("Ann", "Lee")]);
    assert_eq!(("Ann Lee", 3, "A", ""), (
        students[0].name.as_str(),
        students[0].group_number,
        students[0].class.as_str(),
        students[0].slack_id.as_str(),
    ));

    let mut manager = Manager::new(Queue::_new());
    let uploads = vec![
        Upload::Films(vec![film("heat", 1, Priority::Low), film("ran", 2, Priority::High)]),
        Upload::Students(vec![student("Ann", "Lee"), student("Bo", "Diaz")]),
        Upload::Films(vec![film("ran", 5, Priority::Low)]),
    ];
    assert_eq!(
        "Successfully inserted 2 films(s)!\nheat, ran\n\
         Successfully inserted 2 student(s)!\nAnn Lee, Bo Diaz\n\
         Skipped duplicate films:\nran\n",
        manager.insert_from_files(&uploads)
    );
    assert_eq!(2, manager.state.db.list_films().unwrap().len());
    assert_eq!(2, manager.state.db.list_students().unwrap().len());
    assert_eq!(2, manager.state.jobs_q.len());
    assert_eq!("", manager.insert_from_files(&vec![]));
}
