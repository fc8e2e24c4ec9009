//! Class lists and film lists as they come in, and the reports that go out
//! as CSV.

pub mod convertors;
pub mod structs;
pub mod writer;

pub use crate::csv_parser::structs::{FilmInput, FilmOutput, StudentInput, StudentOutput};
pub use crate::csv_parser::writer::{to_csv_string, CsvRow};
