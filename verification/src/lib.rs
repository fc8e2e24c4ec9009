//! Assignment engine for a film post-production course.
//!
//! Students rotate through the role pipeline AE, Editor, Sound, Finish by
//! working on films one role at a time. The crate holds
//!
//! - the domain model (`models`): roles, films and students;
//! - the store (`store`): films, students, the junction of worked films and
//!   the rows of both queues, kept in memory;
//! - the queues and the engine (`queue`): the order in which items leave a
//!   queue, the rules of assignment, delivery and the pass over the wait
//!   queue, and the engine that follows them;
//! - the operations of the chat adapter (`manager`, `slack`) and the texts
//!   they answer with;
//! - lists and reports (`csv_parser`), errors, and helpers for text, ids and
//!   time.
//!
//! Every operation states what it returns and how it changes the engine.
//! Operations that draw ids or read the clock have a twin, named `..._at` or
//! `..._with_id`, that takes those values as arguments.

pub mod clock;
pub mod csv_parser;
pub mod errors;
pub mod ids;
pub mod manager;
pub mod models;
pub mod queue;
pub mod slack;
pub mod store;
pub mod text;

pub use crate::errors::{Error, UserError};

use vstd::prelude::*;

verus! {

/// The result of an engine operation.
pub type Result<T> = std::result::Result<T, Error>;

} // verus!
