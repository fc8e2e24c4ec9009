use chrono::Utc;
use shbot::clock::Timestamp;
use shbot::models::{Film, Priority, Role, Roles, Student};
use shbot::queue::QueueItem;
use shbot::store::rows::{format_row_into_film, format_row_into_item, format_row_into_student};
use shbot::store::{new_mock, MockClient};
use shbot::Error;

fn row(id: u128, name: &str) -> QueueItem {
    QueueItem {
        id,
        student_slack_id: "U038V25S1MJ".to_string(),
        film_name: name.to_string(),
        role: Role::Ae,
        priority: Some(Priority::High),
        msg_ts: None,
        channel: None,
        created_at: Timestamp { secs: 1057049557, nanos: 0 },
    }
}

#[test]
fn insert_film_then_get_film() {
    let mut db = MockClient::new();
    let film = db.insert_film("a", 4, Priority::Low).unwrap();
    let found = db.get_film("a").unwrap().unwrap();
    assert_eq!(film, found);
    assert_eq!("a", found.name);
    assert_eq!(Priority::Low, found.priority);
    assert_eq!(4, found.group_number);
    assert_eq!(Role::Ae, found.current_role);
    assert_eq!(Roles::default(), found.roles);
    assert_eq!(None, db.get_film("b").unwrap());
}

#[test]
fn films() {
    let mut db = new_mock();
    db.insert_film("b", 1, Priority::High).unwrap();
    let mut film = db.insert_film("a", 1, Priority::High).unwrap();
    assert_eq!("a", film.name);

    film.roles.ae = Some("mikatpt".to_string());
    db.update_film(&film).unwrap();

    let film = db.get_film("a").unwrap().unwrap();
    assert_eq!(Some("mikatpt".to_string()), film.roles.ae);

    let films = db.list_films().unwrap();
    assert_eq!(2, films.len());
    assert_eq!("b", films[0].name);
    assert_eq!("a", films[1].name);
}

#[test]
fn a_second_film_of_the_same_name_or_id_is_a_duplicate() {
    let mut db = MockClient::new();
    db.insert_film_with_id(1, "a", 1, Priority::High).unwrap();
    assert_eq!(
        Err(Error::Duplicate("a".to_string())),
        db.insert_film_with_id(2, "a", 2, Priority::Low)
    );
    assert_eq!(Err(Error::Duplicate("a".to_string())), db.insert_film("a", 2, Priority::Low));
    assert_eq!(
        Err(Error::Duplicate("b".to_string())),
        db.insert_film_with_id(1, "b", 2, Priority::Low)
    );
    assert_eq!(1, db.list_films().unwrap().len());
}

#[test]
fn update_film_without_such_a_film_changes_nothing() {
    let mut db = MockClient::new();
    db.insert_film_with_id(1, "a", 1, Priority::High).unwrap();
    let mut other = Film::with_id(9, "zzz", Priority::Low, 5);
    other.increment_role("x".to_string());
    assert_eq!(Ok(()), db.update_film(&other));
    let films = db.list_films().unwrap();
    assert_eq!(vec![Film::with_id(1, "a", Priority::High, 1)], films);
}

#[test]
fn update_film_takes_roles_and_current_role_only() {
    let mut db = MockClient::new();
    db.insert_film_with_id(1, "a", 1, Priority::High).unwrap();
    let mut changed = Film::with_id(77, "a", Priority::Low, 9);
    changed.increment_role("ann".to_string());
    db.update_film(&changed).unwrap();
    let stored = db.get_film("a").unwrap().unwrap();
    assert_eq!(1, stored.id);
    assert_eq!(Priority::High, stored.priority);
    assert_eq!(1, stored.group_number);
    assert_eq!(Role::Editor, stored.current_role);
    assert_eq!(Some("ann".to_string()), stored.roles.ae);
}

#[test]
fn students() {
    let mut db = MockClient::new();
    let id = "U038V25S1MJ";
    let mut student = db.insert_student(id, "a").unwrap();

    student.roles.ae = Some("star wars".to_string());
    db.update_student(&student).unwrap();

    let student = db.get_student(id).unwrap();
    assert_eq!(Some("star wars".to_string()), student.roles.ae);

    let sts = db.list_students().unwrap();
    assert_eq!(1, sts.len());

    let film = db.insert_film("a", 0, Priority::High).unwrap();
    let film2 = db.insert_film("b", 0, Priority::High).unwrap();

    db.insert_student_films(student.id, film.id).unwrap();
    db.insert_student_films(student.id, film2.id).unwrap();

    let films = db.get_worked_films(student.id).unwrap();
    assert!(films.contains(&film));
    assert!(films.contains(&film2));
    assert_eq!(2, films.len());
}

#[test]
fn csv_student_roles_round_trip() {
    let mut db = MockClient::new();
    db.register_user("U7", "Ann Lee");
    let mut student = db.insert_student_from_csv_with_id(5, "Ann Lee", 3, "B").unwrap();
    assert_eq!("", student.slack_id);
    assert_eq!(3, student.group_number);
    assert_eq!("B", student.class);
    student.increment_role("alien".to_string());
    student.current_film = Some("heat".to_string());
    db.update_student(&student).unwrap();
    let found = db.get_student("U7").unwrap();
    assert_eq!(5, found.id);
    assert_eq!(student.roles, found.roles);
    assert_eq!(Role::Editor, found.current_role);
    assert_eq!(Some("heat".to_string()), found.current_film);
    assert_eq!(1, db.list_students().unwrap().len());
}

#[test]
fn get_student_creates_a_student_the_directory_knows() {
    let mut db = MockClient::new();
    db.register_user("U1", "Bo Diaz");
    assert_eq!(Some("Bo Diaz".to_string()), db.lookup_user_name("U1"));
    assert_eq!(None, db.lookup_user_name("U2"));
    let made = db.get_student_with_id("U1", 42).unwrap();
    assert_eq!(42, made.id);
    assert_eq!("U1", made.slack_id);
    assert_eq!("Bo Diaz", made.name);
    assert_eq!(Role::Ae, made.current_role);
    let again = db.get_student_with_id("U1", 43).unwrap();
    assert_eq!(made, again);
    assert_eq!(1, db.list_students().unwrap().len());
}

#[test]
fn get_student_fails_for_an_id_that_nobody_resolves() {
    let mut db = MockClient::new();
    assert_eq!(Err(Error::NotFound("U404".to_string())), db.get_student("U404"));
    assert_eq!(Err(Error::NotFound("".to_string())), db.get_student(""));
    assert_eq!(0, db.list_students().unwrap().len());
}

#[test]
fn get_student_fails_when_the_fresh_id_is_taken() {
    let mut db = MockClient::new();
    db.insert_student_with_id(1, "U1", "a").unwrap();
    db.register_user("U2", "b");
    assert_eq!(Err(Error::Duplicate("b".to_string())), db.get_student_with_id("U2", 1));
}

#[test]
fn students_are_duplicates_by_id_or_chat_id_not_by_name() {
    let mut db = MockClient::new();
    db.insert_student_with_id(1, "U1", "a").unwrap();
    assert_eq!(Err(Error::Duplicate("b".to_string())), db.insert_student_with_id(2, "U1", "b"));
    assert_eq!(Err(Error::Duplicate("b".to_string())), db.insert_student_with_id(1, "U2", "b"));
    assert_eq!(Err(Error::Duplicate("b".to_string())), db.insert_student("U1", "b"));
    assert!(db.insert_student_from_csv_with_id(3, "a", 1, "A").is_ok());
    assert!(db.insert_student_from_csv("a", 1, "A").is_ok());
    assert_eq!(
        Err(Error::Duplicate("c".to_string())),
        db.insert_student_from_csv_with_id(3, "c", 1, "A")
    );
    assert_eq!(3, db.list_students().unwrap().len());
}

#[test]
fn update_student_refuses_a_chat_id_that_another_student_has() {
    let mut db = MockClient::new();
    db.insert_student_with_id(1, "U1", "a").unwrap();
    let mut b = db.insert_student_with_id(2, "U2", "b").unwrap();
    b.slack_id = "U1".to_string();
    assert_eq!(Err(Error::Internal("duplicate key".to_string())), db.update_student(&b));
    assert_eq!("U2", db.get_student("U2").unwrap().slack_id);
}

#[test]
fn eligible_films_are_of_another_group_and_open_at_the_role() {
    let mut db = MockClient::new();
    db.insert_film_with_id(1, "own", 1, Priority::High).unwrap();
    db.insert_film_with_id(2, "other", 2, Priority::High).unwrap();
    let mut done = db.insert_film_with_id(3, "worked", 3, Priority::High).unwrap();
    done.increment_role("ann".to_string());
    db.update_film(&done).unwrap();

    let names = |films: Vec<Film>| films.into_iter().map(|f| f.name).collect::<Vec<_>>();
    assert_eq!(vec!["other"], names(db.get_films_exclusionary(1, Role::Ae).unwrap()));
    assert_eq!(vec!["own", "other", "worked"], names(db.get_films_exclusionary(9, Role::Editor).unwrap()));
    assert_eq!(vec!["own", "other"], names(db.get_films_exclusionary(9, Role::Ae).unwrap()));
    assert_eq!(vec!["own", "worked"], names(db.get_films_exclusionary(2, Role::Finish).unwrap()));
    assert_eq!(
        Err(Error::Internal("no such role slot".to_string())),
        db.get_films_exclusionary(1, Role::Done)
    );
}

#[test]
fn the_junction_is_a_set() {
    let mut db = MockClient::new();
    db.insert_film_with_id(10, "a", 1, Priority::High).unwrap();
    db.insert_student_films(1, 10).unwrap();
    db.insert_student_films(1, 10).unwrap();
    db.insert_student_films(2, 11).unwrap();
    assert_eq!(1, db.get_worked_films(1).unwrap().len());
    assert_eq!(0, db.get_worked_films(2).unwrap().len());
    assert_eq!(0, db.get_worked_films(3).unwrap().len());
}

#[test]
fn queue() {
    let mut db = MockClient::new();

    let date_str = "Tue, 1 Jul 2003 10:52:37 +0200";
    let date = chrono::DateTime::parse_from_rfc2822(date_str).unwrap();
    let date = date.with_timezone(&Utc);

    let job_q = QueueItem {
        id: uuid::Uuid::new_v4().as_u128(),
        student_slack_id: "U038V25S1MJ".to_string(),
        film_name: "test".to_string(),
        role: Role::Ae,
        priority: Some(Priority::High),
        msg_ts: None,
        channel: None,
        created_at: Timestamp { secs: date.timestamp(), nanos: date.timestamp_subsec_nanos() },
    };

    let mut wait_q = job_q.clone();
    wait_q.id = uuid::Uuid::new_v4().as_u128();
    wait_q.priority = None;
    wait_q.msg_ts = Some("1234".to_string());
    wait_q.channel = Some("ASD".to_string());

    db.insert_to_queue(wait_q.clone(), true).unwrap();
    db.insert_to_queue(job_q.clone(), false).unwrap();
    db.delete_from_queue(wait_q.id, true).unwrap();
    db.delete_from_queue(job_q.id, true).unwrap();

    let mut jobs = db.get_queue(false).unwrap();
    let mut j = jobs.pop().unwrap();
    j.created_at = job_q.created_at;
    assert_eq!(j, job_q);
    assert_eq!(1057049557, j.created_at.secs);

    let waits = db.get_queue(true).unwrap();
    assert!(waits.is_empty());
}

#[test]
fn queue_rows_have_unique_ids_per_queue() {
    let mut db = MockClient::new();
    assert_eq!(Ok(row(1, "a")), db.insert_to_queue(row(1, "a"), false));
    assert_eq!(
        Err(Error::Internal("duplicate key".to_string())),
        db.insert_to_queue(row(1, "b"), false)
    );
    assert_eq!(Ok(row(1, "b")), db.insert_to_queue(row(1, "b"), true));
    db.insert_to_queue(row(2, "c"), false).unwrap();
    db.insert_to_queue(row(3, "d"), false).unwrap();
    db.delete_from_queue(2, false).unwrap();
    assert_eq!(vec![row(1, "a"), row(3, "d")], db.get_queue(false).unwrap());
    db.delete_from_queue(99, false).unwrap();
    assert_eq!(2, db.get_queue(false).unwrap().len());
}

#[test]
fn a_store_that_is_down_fails_and_changes_nothing() {
    let mut db = MockClient::new();
    db.insert_film_with_id(1, "a", 1, Priority::High).unwrap();
    db.insert_student_with_id(2, "U1", "s").unwrap();
    db.success = false;
    assert!(!db.is_up());
    let down = || Error::Internal("sample error".to_string());
    assert_eq!(Err(down()), db.list_films());
    assert_eq!(Err(down()), db.get_film("a"));
    assert_eq!(Err(down()), db.insert_film("b", 1, Priority::High));
    assert_eq!(Err(down()), db.update_film(&Film::with_id(1, "a", Priority::High, 1)));
    assert_eq!(Err(down()), db.get_worked_films(2));
    assert_eq!(Err(down()), db.insert_student_films(2, 1));
    assert_eq!(Err(down()), db.get_films_exclusionary(2, Role::Ae));
    assert_eq!(Err(down()), db.list_students());
    assert_eq!(Err(down()), db.get_student("U1"));
    assert_eq!(Err(down()), db.insert_student("U2", "t"));
    assert_eq!(Err(down()), db.insert_student_from_csv("t", 1, "A"));
    assert_eq!(Err(down()), db.get_queue(true));
    assert_eq!(Err(down()), db.insert_to_queue(row(1, "a"), false));
    assert_eq!(Err(down()), db.delete_from_queue(1, false));
    assert_eq!(Err(down()), db.drop_db());
    db.set_success(true);
    assert_eq!(1, db.list_films().unwrap().len());
    assert_eq!(1, db.list_students().unwrap().len());
    assert_eq!(0, db.get_queue(false).unwrap().len());
    assert_eq!(Ok(()), db.drop_db());
    assert_eq!(0, db.list_films().unwrap().len());
    assert_eq!(0, db.list_students().unwrap().len());
}

#[test]
fn rows_are_read_into_films_students_and_items() {
    let roles = || Roles::new(Some("ann".to_string()), None, None, None);
    let film = format_row_into_film(7, "heat".to_string(), "LOW", "EDITOR", 3, roles()).unwrap();
    assert_eq!(
        Film {
            id: 7,
            name: "heat".to_string(),
            current_role: Role::Editor,
            priority: Priority::Low,
            roles: roles(),
            group_number: 3,
        },
        film
    );
    assert_eq!(
        Err(Error::ParseError),
        format_row_into_film(7, "heat".to_string(), "low", "EDITOR", 3, roles())
    );
    assert_eq!(
        Err(Error::ParseError),
        format_row_into_film(7, "heat".to_string(), "LOW", "COLOR", 3, roles())
    );

    let student = format_row_into_student(
        1,
        "Ann Lee".to_string(),
        "U1".to_string(),
        Some("heat".to_string()),
        "DONE",
        roles(),
        2,
        "B".to_string(),
    )
    .unwrap();
    assert_eq!(
        Student {
            id: 1,
            slack_id: "U1".to_string(),
            name: "Ann Lee".to_string(),
            group_number: 2,
            class: "B".to_string(),
            current_film: Some("heat".to_string()),
            current_role: Role::Done,
            roles: roles(),
        },
        student
    );
    assert!(format_row_into_student(
        1,
        "a".to_string(),
        "".to_string(),
        None,
        "",
        roles(),
        0,
        "".to_string()
    )
    .is_err());

    let at = Timestamp { secs: 5, nanos: 6 };
    let read = |role: &str, priority: Option<&str>| {
        format_row_into_item(
            9,
            "U1".to_string(),
            "heat".to_string(),
            role,
            priority.map(|p| p.to_string()),
            None,
            Some("C".to_string()),
            at,
        )
    };
    let item = read("SOUND", Some("HIGH")).unwrap();
    assert_eq!((Role::Sound, Some(Priority::High), at), (item.role, item.priority, item.created_at));
    assert_eq!((9, "U1", "heat"), (item.id, item.student_slack_id.as_str(), item.film_name.as_str()));
    assert_eq!(Some("C".to_string()), item.channel);
    assert_eq!(None, read("AE", None).unwrap().priority);
    assert_eq!(Err(Error::ParseError), read("AE", Some("urgent")));
    assert_eq!(Err(Error::ParseError), read("ae", Some("HIGH")));
}

#[test]
fn inserts_into_empty_tables_succeed_whatever_id_is_drawn() {
    for _ in 0..20 {
        let mut db = MockClient::new();
        let film = db.insert_film("a", 1, Priority::Low).unwrap();
        assert_eq!(("a", 1, Priority::Low, Role::Ae), (film.name.as_str(), film.group_number, film.priority, film.current_role));
        assert_eq!(Roles::default(), film.roles);
        assert_eq!(Some(film), db.get_film("a").unwrap());
        let student = db.insert_student("U1", "Ann").unwrap();
        assert_eq!(vec![student], db.list_students().unwrap());

        let mut db = MockClient::new();
        let student = db.insert_student_from_csv("Ann", 2, "B").unwrap();
        assert_eq!(("Ann", 2, "B", ""), (student.name.as_str(), student.group_number, student.class.as_str(), student.slack_id.as_str()));
        assert_eq!(vec![student], db.list_students().unwrap());
    }
}
