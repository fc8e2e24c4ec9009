//! Domain model: roles, priorities, films and students.

pub mod films;
pub mod shared;
pub mod students;

pub use crate::models::films::Film;
pub use crate::models::shared::{Priority, Role, Roles};
pub use crate::models::students::Student;
