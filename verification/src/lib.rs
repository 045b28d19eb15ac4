//! Cell text for calendar dates, times of day and combined date-times.
//!
//! A value is rendered either in its canonical form or, where the options
//! carry a format pattern, by the `chrono` formatter under that pattern. A
//! pattern the formatter cannot apply is reported as an error value.

pub mod backend;
pub mod cell_value;
pub mod date;
pub mod datetime;
pub mod error;
pub mod laws;
pub mod options;
pub mod text;
pub mod time;

pub use cell_value::CellValue;
pub use date::CalendarDate;
pub use datetime::CalendarDateTime;
pub use error::RenderError;
pub use options::RenderChronoOptions;
pub use time::TimeOfDay;
