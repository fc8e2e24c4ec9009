use chrono::{DateTime, Duration, Utc};
use shbot::clock::Timestamp;
use shbot::models::{Priority, Role};
use shbot::queue::{PriorityQueue, QueueItem};
use std::cmp::Ordering;
use uuid::Uuid;

fn stamp(date: DateTime<Utc>) -> Timestamp {
    Timestamp { secs: date.timestamp(), nanos: date.timestamp_subsec_nanos() }
}

fn get_job(name: &str, priority: Priority, date: DateTime<Utc>) -> QueueItem {
    QueueItem {
        id: Uuid::new_v4().as_u128(),
        film_name: name.to_string(),
        priority: Some(priority),
        created_at: stamp(date),
        student_slack_id: "".to_string(),
        role: Role::Ae,
        msg_ts: None,
        channel: None,
    }
}

fn item(id: u128, name: &str, priority: Option<Priority>, secs: i64, nanos: u32) -> QueueItem {
    QueueItem {
        id,
        film_name: name.to_string(),
        priority,
        created_at: Timestamp { secs, nanos },
        student_slack_id: "".to_string(),
        role: Role::Ae,
        msg_ts: None,
        channel: None,
    }
}

#[test]
// Queue should pop high priority items, then earliest items, then alphabetical.
fn queue_check_order() {
    let yesterday = Utc::now() - Duration::days(1);
    let today = Utc::now();

    let mut jobs = vec![
        get_job("b", Priority::Low, today),
        get_job("a", Priority::Low, today),
        get_job("a", Priority::Low, yesterday),
        get_job("b", Priority::High, today),
        get_job("a", Priority::High, today),
        get_job("b", Priority::High, yesterday),
        get_job("a", Priority::High, yesterday),
    ];

    let mut job_queue = PriorityQueue::from_vec(jobs.clone());
    assert_eq!(7, job_queue.len());

    let mut compared = 0;
    while let (Some(expected), Some(actual)) = (jobs.pop(), job_queue.pop()) {
        println!("{actual:?}");
        assert_eq!(expected, actual);
        compared += 1;
    }
    assert_eq!(7, compared);
    assert!(job_queue.is_empty());
}

#[test]
fn pop_order_does_not_depend_on_insertion_order() {
    let wanted = vec![
        item(1, "a", Some(Priority::High), 10, 0),
        item(2, "b", Some(Priority::High), 10, 0),
        item(3, "a", Some(Priority::High), 10, 5),
        item(4, "a", Some(Priority::High), 11, 0),
        item(5, "a", Some(Priority::Low), 1, 0),
        item(6, "ab", Some(Priority::Low), 1, 0),
        item(7, "b", Some(Priority::Low), 1, 0),
    ];
    let mut queue = PriorityQueue::new();
    for k in [3usize, 6, 0, 5, 2, 4, 1] {
        queue.push(wanted[k].clone());
    }
    for expected in &wanted {
        assert_eq!(Some(expected.clone()), queue.pop());
    }
    assert_eq!(None, queue.pop());
}

#[test]
fn waiters_leave_oldest_first() {
    let mut queue = PriorityQueue::new();
    queue.extend(vec![item(1, "", None, 30, 0), item(2, "", None, 10, 0), item(3, "", None, 20, 0)]);
    assert_eq!(3, queue.len());
    assert_eq!(2, queue.pop().unwrap().id);
    assert_eq!(3, queue.pop().unwrap().id);
    assert_eq!(1, queue.pop().unwrap().id);
    assert!(queue.is_empty());
}

#[test]
fn cmp_puts_the_item_that_leaves_first_on_top() {
    let high = item(1, "z", Some(Priority::High), 50, 0);
    let low = item(2, "a", Some(Priority::Low), 1, 0);
    assert_eq!(Ordering::Greater, high.cmp(&low));
    assert_eq!(Ordering::Less, low.cmp(&high));
    assert!(high.outranks(&low));
    assert!(!low.outranks(&high));

    let old = item(3, "z", Some(Priority::Low), 1, 0);
    let new = item(4, "a", Some(Priority::Low), 1, 1);
    assert_eq!(Ordering::Greater, old.cmp(&new));
    assert_eq!(Some(Ordering::Less), new.partial_cmp(&old));

    let a = item(5, "a", Some(Priority::Low), 1, 0);
    let b = item(6, "b", Some(Priority::Low), 1, 0);
    assert_eq!(Ordering::Greater, a.cmp(&b));
    assert_eq!(Ordering::Less, b.cmp(&a));
    assert_eq!(Ordering::Equal, a.cmp(&item(7, "a", Some(Priority::Low), 1, 0)));
}

#[test]
fn an_item_without_priority_is_compared_by_age_and_name_only() {
    let waiter = item(1, "", None, 5, 0);
    let high = item(2, "a", Some(Priority::High), 6, 0);
    assert_eq!(Ordering::Greater, waiter.cmp(&high));
    let low_older = item(3, "a", Some(Priority::Low), 4, 0);
    assert_eq!(Ordering::Less, waiter.cmp(&low_older));
}

#[test]
fn names_are_ordered_by_their_bytes() {
    assert!(shbot::text::name_before("a", "b"));
    assert!(shbot::text::name_before("a", "ab"));
    assert!(shbot::text::name_before("", "a"));
    assert!(shbot::text::name_before("Z", "a"));
    assert!(shbot::text::name_before("z", "é"));
    assert!(!shbot::text::name_before("b", "a"));
    assert!(!shbot::text::name_before("a", "a"));
    assert!(!shbot::text::name_before("", ""));
    assert!(shbot::text::same_text("film", "film"));
    assert!(!shbot::text::same_text("film", "films"));
    assert!(!shbot::text::same_text("film", "fulm"));
}

#[test]
fn timestamps_compare_by_seconds_then_nanoseconds() {
    let a = Timestamp { secs: 1, nanos: 999_999_999 };
    let b = Timestamp { secs: 2, nanos: 0 };
    let c = Timestamp { secs: 2, nanos: 1 };
    assert!(a.is_before(&b));
    assert!(b.is_before(&c));
    assert!(!c.is_before(&b));
    assert!(!b.is_before(&b));
    let first = Timestamp::now();
    assert!(first.secs > 1_600_000_000);
    assert!(first.nanos < 1_000_000_000);
}
