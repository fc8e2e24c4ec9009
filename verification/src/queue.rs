//! The queues of open jobs and waiting students, and the engine that
//! matches them.

pub mod engine;
pub mod heap;
pub mod item;
pub mod laws;
pub mod rules;

pub use crate::queue::engine::Queue;
pub use crate::queue::heap::PriorityQueue;
pub use crate::queue::item::QueueItem;
pub use crate::queue::rules::{EngineView, Fresh};
