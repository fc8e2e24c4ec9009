//! Rows of a relational store, read into films, students and queue items.
//!
//! Roles and priorities are stored by their upper-case names; a row with
//! any other text in their place cannot be read.

use vstd::prelude::*;
use crate::clock::Timestamp;
use crate::errors::Error;
use crate::models::films::Film;
use crate::models::shared::{Priority, Role, Roles};
use crate::models::students::Student;
use crate::queue::item::QueueItem;

verus! {

/// The film of a row. The priority is read before the current role.
pub fn format_row_into_film(
    id: u128,
    name: String,
    priority: &str,
    current: &str,
    group_number: i32,
    roles: Roles,
) -> (r: Result<Film, Error>)
    ensures
        r == (match (Priority::named(priority@), Role::named(current@)) {
            (Some(priority), Some(current_role)) => Ok::<Film, Error>(
                Film { id, name, current_role, priority, roles, group_number },
            ),
            _ => Err::<Film, Error>(Error::ParseError),
        }),
{
    let priority = match Priority::from_str(priority) {
        Ok(p) => p,
        Err(e) => {
            return Err(e);
        },
    };
    let current_role = match Role::from_str(current) {
        Ok(r) => r,
        Err(e) => {
            return Err(e);
        },
    };
    Ok(Film { id, name, current_role, priority, roles, group_number })
}

/// The student of a row.
pub fn format_row_into_student(
    id: u128,
    name: String,
    slack_id: String,
    current_film: Option<String>,
    current: &str,
    roles: Roles,
    group_number: i32,
    class: String,
) -> (r: Result<Student, Error>)
    ensures
        r == (match Role::named(current@) {
            Some(current_role) => Ok::<Student, Error>(
                Student {
                    id,
                    slack_id,
                    name,
                    group_number,
                    class,
                    current_film,
                    current_role,
                    roles,
                },
            ),
            None => Err::<Student, Error>(Error::ParseError),
        }),
{
    let current_role = match Role::from_str(current) {
        Ok(r) => r,
        Err(e) => {
            return Err(e);
        },
    };
    Ok(Student { id, slack_id, name, group_number, class, current_film, current_role, roles })
}

/// The priority that a queue row names, if it names one.
pub open spec fn priority_of(text: Option<String>) -> Option<Option<Priority>> {
    match text {
        None => Some(None),
        Some(name) => match Priority::named(name@) {
            Some(p) => Some(Some(p)),
            None => None,
        },
    }
}

/// The queue item of a row. The role is read before the priority; a row
/// without priority gives an item without one.
pub fn format_row_into_item(
    id: u128,
    student_slack_id: String,
    film_name: String,
    role: &str,
    priority: Option<String>,
    msg_ts: Option<String>,
    channel: Option<String>,
    created_at: Timestamp,
) -> (r: Result<QueueItem, Error>)
    ensures
        r == (match (Role::named(role@), priority_of(priority)) {
            (Some(role), Some(priority)) => Ok::<QueueItem, Error>(
                QueueItem {
                    id,
                    student_slack_id,
                    film_name,
                    role,
                    priority,
                    msg_ts,
                    channel,
                    created_at,
                },
            ),
            _ => Err::<QueueItem, Error>(Error::ParseError),
        }),
{
    let role = match Role::from_str(role) {
        Ok(r) => r,
        Err(e) => {
            return Err(e);
        },
    };
    let priority = match priority {
        Some(name) => match Priority::from_str(name.as_str()) {
            Ok(p) => Some(p),
            Err(e) => {
                return Err(e);
            },
        },
        None => None,
    };
    Ok(
        QueueItem {
            id,
            student_slack_id,
            film_name,
            role,
            priority,
            msg_ts,
            channel,
            created_at,
        },
    )
}

} // verus!
