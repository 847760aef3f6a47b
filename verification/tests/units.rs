use timetable::dates::{format_date, weekday_name};
use timetable::diff::{diff, DayDiff};
use timetable::extract::extract_periods;
use timetable::locate::{date_headers, locate_column};
use timetable::login::get_login_body;
use timetable::model::{ExtractError, Period, TimetableDayData};
use timetable::scrape::{RawCell, RawRow};

fn scheduled(subject: &str, classroom: &str, class_id: &str, teacher: &str, label: &str) -> Period {
    Period::new(
        subject.to_owned(),
        classroom.to_owned(),
        class_id.to_owned(),
        teacher.to_owned(),
        label.to_owned(),
    )
}

fn day(date: &str, weekday: &str, periods: Vec<Period>) -> TimetableDayData {
    TimetableDayData::new(date.to_owned(), weekday.to_owned(), periods)
}

fn headers(dates: &[&str]) -> Vec<String> {
    dates.iter().map(|d| (*d).to_owned()).collect()
}

const WEEK_DATES: [&str; 10] = [
    "05/03/2024",
    "06/03/2024",
    "07/03/2024",
    "08/03/2024",
    "09/03/2024",
    "12/03/2024",
    "13/03/2024",
    "14/03/2024",
    "15/03/2024",
    "16/03/2024",
];

#[test]
fn format_date_pads_day_month_year() {
    assert_eq!(format_date(6, 3, 2024), "06/03/2024");
    assert_eq!(format_date(14, 12, 2024), "14/12/2024");
    assert_eq!(format_date(7, 12, 987), "07/12/0987");
    assert_eq!(format_date(1, 1, 1), "01/01/0001");
}

#[test]
fn weekday_names_match_day_numbers() {
    let names: Vec<String> = (0u8..7).map(weekday_name).collect();
    assert_eq!(names, ["Mon", "Tue", "Wed", "Thu", "Fri", "Sat", "Sun"]);
}

#[test]
fn date_headers_keep_only_date_like_cells() {
    let cells = headers(&["Period", "05/03/2024", "", "06/03/2024"]);
    assert_eq!(date_headers(&cells), headers(&["05/03/2024", "06/03/2024"]));
}

#[test]
fn locator_prefers_first_offset_in_caller_order() {
    let hs = headers(&["06/03/2024", "07/03/2024"]);
    // Offset 2 comes first in the list, so its match wins even though
    // offset 1 matches an earlier header position.
    let r = locate_column(&hs, &vec![2, 1], 2024, 3, 5).unwrap();
    assert_eq!(r, (1, "07/03/2024".to_owned(), "Thu".to_owned()));
    let r = locate_column(&hs, &vec![1, 2], 2024, 3, 5).unwrap();
    assert_eq!(r, (0, "06/03/2024".to_owned(), "Wed".to_owned()));
}

#[test]
fn locator_finds_next_day_in_week_window() {
    let hs = headers(&WEEK_DATES);
    let r = locate_column(&hs, &vec![1, 2, 3], 2024, 3, 5).unwrap();
    assert_eq!(r, (1, "06/03/2024".to_owned(), "Wed".to_owned()));
}

#[test]
fn locator_finds_second_half_column() {
    let hs = headers(&WEEK_DATES);
    let r = locate_column(&hs, &vec![1], 2024, 3, 13).unwrap();
    assert_eq!(r, (7, "14/03/2024".to_owned(), "Thu".to_owned()));
}

#[test]
fn locator_fails_when_no_offset_matches() {
    let hs = headers(&WEEK_DATES);
    let r = locate_column(&hs, &vec![0, -1, -2, -3], 2024, 6, 1);
    assert_eq!(r, Err(ExtractError::DateNotFound));
}

fn nine_texts(subject: &str) -> Vec<String> {
    vec![
        "id".to_owned(),
        "x".to_owned(),
        format!(" {} ", subject),
        "7A".to_owned(),
        "x".to_owned(),
        "x".to_owned(),
        " R1 ".to_owned(),
        "x".to_owned(),
        " Doe ".to_owned(),
    ]
}

fn block_cell(subject: &str) -> RawCell {
    RawCell { classes: vec![], texts: Some(nine_texts(subject)) }
}

fn inactive_cell() -> RawCell {
    RawCell { classes: vec!["inactive".to_owned()], texts: None }
}

fn plain_row(label: usize, cells: Vec<RawCell>) -> RawRow {
    let mut all = vec![RawCell { classes: vec!["timetable-period".to_owned()], texts: None }];
    all.extend(cells);
    RawRow { label: Some(format!(" {} ", label)), cells: all }
}

fn block_table(n_rows: usize) -> Vec<RawRow> {
    // Row k carries subject Sk-0 .. Sk-4 in its five day-slot cells.
    (1..=n_rows)
        .map(|k| {
            plain_row(k, (0..5).map(|c| block_cell(&format!("S{}-{}", k, c))).collect())
        })
        .collect()
}

#[test]
fn extractor_uses_column_as_is_below_five() {
    let rows = block_table(14);
    let ps = extract_periods(&rows, 2).unwrap();
    assert_eq!(ps.len(), 14);
    assert_eq!(ps[0].subject, "S1-2");
    assert_eq!(ps[0].classroom, "R1");
    assert_eq!(ps[0].class_id, "7A");
    assert_eq!(ps[0].teacher, "Doe");
    assert_eq!(ps[0].period_number, "1");
    assert_eq!(ps[13].subject, "S14-2");
}

#[test]
fn extractor_drops_first_twelve_rows_and_rebases_at_five_and_above() {
    let rows = block_table(14);
    let ps = extract_periods(&rows, 7).unwrap();
    assert_eq!(ps.len(), 2);
    assert_eq!(ps[0].subject, "S13-2");
    assert_eq!(ps[0].period_number, "13");
    assert_eq!(ps[1].subject, "S14-2");
    assert_eq!(ps[1].period_number, "14");
}

#[test]
fn extractor_ignores_rows_without_period_label() {
    let mut rows = block_table(2);
    rows.insert(0, RawRow { label: None, cells: vec![block_cell("Header")] });
    let ps = extract_periods(&rows, 0).unwrap();
    assert_eq!(ps.len(), 2);
    assert_eq!(ps[0].subject, "S1-0");
}

#[test]
fn extractor_fails_rebasing_on_short_table() {
    let rows = block_table(11);
    assert_eq!(extract_periods(&rows, 7), Err(ExtractError::MalformedRow));
}

#[test]
fn extractor_fails_on_missing_slot_cell() {
    let rows = block_table(3);
    assert_eq!(extract_periods(&rows, 4).unwrap().len(), 3);
    let short = vec![plain_row(1, vec![block_cell("Math"), block_cell("Art")])];
    assert_eq!(extract_periods(&short, 2), Err(ExtractError::MalformedRow));
}

#[test]
fn inactive_cell_yields_placeholder_with_label_kept() {
    let rows = vec![plain_row(3, vec![inactive_cell()])];
    let ps = extract_periods(&rows, 0).unwrap();
    assert_eq!(ps.len(), 1);
    assert_eq!(ps[0], Period::none("3".to_owned()));
    assert_eq!(ps[0].subject, "None");
    assert_eq!(ps[0].classroom, "");
    assert_eq!(ps[0].class_id, "");
    assert_eq!(ps[0].teacher, "");
    assert_eq!(ps[0].period_number, "3");
}

#[test]
fn cell_without_block_fails() {
    let rows = vec![plain_row(1, vec![RawCell { classes: vec![], texts: None }])];
    assert_eq!(extract_periods(&rows, 0), Err(ExtractError::MissingClassBlock));
}

#[test]
fn cell_with_too_few_fragments_fails() {
    let mut texts = nine_texts("Math");
    texts.pop();
    let rows = vec![plain_row(1, vec![RawCell { classes: vec![], texts: Some(texts) }])];
    assert_eq!(extract_periods(&rows, 0), Err(ExtractError::MissingClassBlock));
}

#[test]
fn diff_reports_added_and_removed_subjects() {
    let a = day(
        "06/03/2024",
        "Wed",
        vec![
            scheduled("Math", "R1", "7A", "Doe", "1"),
            scheduled("Art", "R2", "7A", "Lee", "2"),
        ],
    );
    let b = day(
        "05/03/2024",
        "Tue",
        vec![
            scheduled("Math", "R9", "7B", "Poe", "4"),
            scheduled("Music", "R3", "7A", "Ray", "5"),
        ],
    );
    let d = diff(&a, &b);
    assert_eq!(d.added.len(), 1);
    assert_eq!(d.added[0].subject, "Art");
    assert_eq!(d.removed.len(), 1);
    assert_eq!(d.removed[0].subject, "Music");
}

#[test]
fn diff_matches_by_subject_only() {
    let a = day("a", "Mon", vec![scheduled("Math", "R1", "7A", "Doe", "1")]);
    let b = day("b", "Tue", vec![scheduled("Math", "R2", "8B", "Lee", "6")]);
    let d = diff(&a, &b);
    assert!(d.added.is_empty());
    assert!(d.removed.is_empty());
}

#[test]
fn diff_of_identical_days_is_empty() {
    let a = day(
        "06/03/2024",
        "Wed",
        vec![
            scheduled("Math", "R1", "7A", "Doe", "1"),
            Period::none("2".to_owned()),
            scheduled("Art", "R2", "7A", "Lee", "3"),
        ],
    );
    let d = diff(&a, &a);
    assert!(d.added.is_empty());
    assert!(d.removed.is_empty());
}

#[test]
fn diff_is_symmetric() {
    let a = day("a", "Mon", vec![scheduled("Math", "R1", "7A", "Doe", "1")]);
    let b = day("b", "Tue", vec![scheduled("Music", "R3", "7A", "Ray", "5")]);
    let ab = diff(&a, &b);
    let ba = diff(&b, &a);
    assert_eq!(ab.added, ba.removed);
    assert_eq!(ab.removed, ba.added);
    assert_eq!(
        DayDiff { added: ab.added, removed: ab.removed },
        DayDiff { added: ba.removed, removed: ba.added },
    );
}

#[test]
fn placeholder_periods_never_enter_a_diff() {
    let a = day("a", "Mon", vec![Period::none("1".to_owned())]);
    let b = day("b", "Tue", vec![]);
    let d = diff(&a, &b);
    assert!(d.added.is_empty());
    assert!(d.removed.is_empty());
    let d = diff(&b, &a);
    assert!(d.added.is_empty());
    assert!(d.removed.is_empty());
}

#[test]
fn placeholder_on_one_side_does_not_mask_real_changes() {
    let a = day("a", "Mon", vec![Period::none("1".to_owned())]);
    let b = day("b", "Tue", vec![scheduled("Math", "R1", "7A", "Doe", "1")]);
    let d = diff(&a, &b);
    assert!(d.added.is_empty());
    assert_eq!(d.removed.len(), 1);
    assert_eq!(d.removed[0].subject, "Math");
}

#[test]
fn locator_fails_on_empty_inputs() {
    assert_eq!(
        locate_column(&headers(&WEEK_DATES), &vec![], 2024, 3, 5),
        Err(ExtractError::DateNotFound),
    );
    assert_eq!(
        locate_column(&vec![], &vec![1, 2, 3], 2024, 3, 5),
        Err(ExtractError::DateNotFound),
    );
}

#[test]
fn login_body_holds_the_four_fields_in_order() {
    let body = get_login_body("roger", "hunter2");
    assert_eq!(
        body,
        vec![
            ("action", "login"),
            ("password", "hunter2"),
            ("username", "roger"),
            ("remember_username", "false"),
        ],
    );
}

#[test]
fn error_descriptions_name_the_failure() {
    assert_eq!(
        ExtractError::DateNotFound.describe(),
        "could not find day number through the date",
    );
    assert_eq!(ExtractError::MalformedRow.describe(), "cannot find period slot");
    assert_eq!(ExtractError::MissingClassBlock.describe(), "cannot find period data");
}
