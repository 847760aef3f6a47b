//! The day extraction pipeline: page text and candidate day offsets in, one
//! day's schedule out.
use vstd::prelude::*;
use crate::extract::{extract_periods, extract_spec};
use crate::locate::{date_headers, locate_column, locate_spec, slash_headers};
use crate::model::{DayView, ExtractError, TimetableDayData};
use crate::scrape::{header_cells_of, scrape_header_cells, scrape_table_rows, table_rows_of};

verus! {

/// The pipeline's result: the column located among the page's date headers
/// (the header cells that carry a `/`), then that column's periods, bundled
/// with the matched date string and the weekday name of the matching offset
/// date. Either stage's failure is the pipeline's, unchanged.
pub open spec fn scrape_timetable_spec(
    html: Seq<char>,
    offsets: Seq<i64>,
    year: i32,
    month: u32,
    day: u32,
) -> Result<DayView, ExtractError> {
    match locate_spec(slash_headers(header_cells_of(html)), offsets, year, month, day) {
        None => Err(ExtractError::DateNotFound),
        Some(t) => match extract_spec(table_rows_of(html), t.0) {
            Ok(ps) => Ok(DayView { date: t.1, weekday: t.2, periods: ps }),
            Err(e) => Err(e),
        },
    }
}

/// Extracts one day's schedule from a timetable page. The reference date
/// (`year`, `month`, `day`) stands for "today"; the offsets are signed day
/// deltas from it, tried in the given order.
pub fn scrape_timetable(
    html: &str,
    offsets: &Vec<i64>,
    year: i32,
    month: u32,
    day: u32,
) -> (r: Result<TimetableDayData, ExtractError>)
    ensures
        match scrape_timetable_spec(html@, offsets@, year, month, day) {
            Ok(dv) => r matches Ok(d) && d@ == dv,
            Err(e) => r matches Err(e2) && e2 == e,
        },
{
    let cells = scrape_header_cells(html);
    let headers = date_headers(&cells);
    match locate_column(&headers, offsets, year, month, day) {
        Err(e) => Err(e),
        Ok((col, date, weekday)) => {
            let rows = scrape_table_rows(html);
            match extract_periods(&rows, col) {
                Err(e) => Err(e),
                Ok(periods) => Ok(TimetableDayData::new(date, weekday, periods)),
            }
        },
    }
}

} // verus!
