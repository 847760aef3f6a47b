//! Extraction of per-day class schedules from a timetable page, and a
//! comparison of two extracted days.
//!
//! The page is an HTML table whose header row carries one `DD/MM/YYYY` date
//! cell per visible day and whose period rows carry one slot cell per day.
//! The library locates the column for the first acceptable day offset,
//! extracts the structured periods of that column, and can report which
//! subjects were added or dropped between two extracted days.

pub mod dates;
pub mod day;
pub mod diff;
pub mod extract;
pub mod locate;
pub mod login;
pub mod model;
pub mod scrape;
pub mod text;
