//! The store of films, students, worked films and queue rows.

pub mod mock;
pub mod rows;
pub mod state;

pub use crate::store::mock::{new_mock, Database, MockClient};
pub use crate::store::state::StoreView;
