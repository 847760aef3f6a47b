use timetable::day::scrape_timetable;
use timetable::diff::diff;
use timetable::model::ExtractError;

const WEEK_DATES: [&str; 10] = [
    "05/03/2024",
    "06/03/2024",
    "07/03/2024",
    "08/03/2024",
    "09/03/2024",
    "12/03/2024",
    "13/03/2024",
    "14/03/2024",
    "15/03/2024",
    "16/03/2024",
];

fn class_block(subject: &str, class_id: &str, room: &str, teacher: &str) -> String {
    let mut cell = String::from("<td><div class=\"timetable-class\"><span>i</span><span>x</span>");
    cell.push_str(&format!("<span> {} </span><span>{}</span><span>x</span><span>x</span>", subject, class_id));
    cell.push_str(&format!("<span> {} </span><span>x</span><span> {} </span></div></td>", room, teacher));
    cell
}

/// A page with the usual two half-week blocks: a header row of ten dates and
/// `n_rows` period rows of ten slot cells each. `filled` names, per
/// (row, column), the subject of a scheduled slot; every other slot is
/// inactive.
fn page(n_rows: usize, filled: &[(usize, usize, &str)]) -> String {
    let mut html = String::from("<html><body><table><tr><th>Period</th>");
    for d in WEEK_DATES {
        html.push_str(&format!("<th class=\"timetable-date\">{}</th>", d));
    }
    html.push_str("</tr>");
    for row in 1..=n_rows {
        html.push_str(&format!("<tr><th class=\"timetable-period\"> {} </th>", row));
        for col in 0..10 {
            match filled.iter().find(|(r, c, _)| *r == row && *c == col) {
                Some((_, _, subject)) => {
                    html.push_str(&class_block(subject, "7A", "R1", "Doe"));
                }
                None => html.push_str("<td class=\"inactive\"></td>"),
            }
        }
        html.push_str("</tr>");
    }
    html.push_str("</table></body></html>");
    html
}

#[test]
fn pipeline_extracts_first_half_day() {
    let html = page(2, &[(1, 1, "Math"), (2, 1, "Art"), (1, 2, "Decoy")]);
    let day = scrape_timetable(&html, &vec![1, 2, 3], 2024, 3, 5).unwrap();
    assert_eq!(day.date, "06/03/2024");
    assert_eq!(day.weekday, "Wed");
    assert_eq!(day.periods.len(), 2);
    assert_eq!(day.periods[0].subject, "Math");
    assert_eq!(day.periods[0].class_id, "7A");
    assert_eq!(day.periods[0].classroom, "R1");
    assert_eq!(day.periods[0].teacher, "Doe");
    assert_eq!(day.periods[0].period_number, "1");
    assert_eq!(day.periods[1].subject, "Art");
    assert_eq!(day.periods[1].period_number, "2");
}

#[test]
fn pipeline_rebases_into_second_half() {
    // 14/03/2024 sits at header index 7, so the first twelve period rows are
    // dropped and the slot column is 7 - 5 = 2.
    let html = page(24, &[(13, 2, "Chem"), (1, 2, "WrongHalf"), (13, 7, "WrongColumn")]);
    let day = scrape_timetable(&html, &vec![1], 2024, 3, 13).unwrap();
    assert_eq!(day.date, "14/03/2024");
    assert_eq!(day.weekday, "Thu");
    assert_eq!(day.periods.len(), 12);
    assert_eq!(day.periods[0].subject, "Chem");
    assert_eq!(day.periods[0].period_number, "13");
    for p in &day.periods[1..] {
        assert_eq!(p.subject, "None");
    }
}

#[test]
fn pipeline_keeps_inactive_slots_as_placeholders() {
    let html = page(3, &[(2, 1, "Math")]);
    let day = scrape_timetable(&html, &vec![1], 2024, 3, 5).unwrap();
    assert_eq!(day.periods.len(), 3);
    assert_eq!(day.periods[0].subject, "None");
    assert_eq!(day.periods[0].classroom, "");
    assert_eq!(day.periods[0].period_number, "1");
    assert_eq!(day.periods[1].subject, "Math");
    assert_eq!(day.periods[2].subject, "None");
}

#[test]
fn pipeline_fails_when_the_window_misses_every_offset() {
    let html = page(2, &[]);
    let r = scrape_timetable(&html, &vec![0, -1, -2, -3], 2024, 6, 1);
    assert_eq!(r, Err(ExtractError::DateNotFound));
}

#[test]
fn pipeline_fails_on_cell_without_class_block() {
    let html = page(1, &[]).replace(
        "<tr><th class=\"timetable-period\"> 1 </th><td class=\"inactive\"></td>",
        "<tr><th class=\"timetable-period\"> 1 </th><td></td>",
    );
    let r = scrape_timetable(&html, &vec![0], 2024, 3, 5);
    assert_eq!(r, Err(ExtractError::MissingClassBlock));
}

#[test]
fn two_extracted_days_diff_by_subject() {
    let next = page(2, &[(1, 1, "Math"), (2, 1, "Art")]);
    let prev = page(2, &[(1, 0, "Math"), (2, 0, "Music")]);
    let a = scrape_timetable(&next, &vec![1], 2024, 3, 5).unwrap();
    let b = scrape_timetable(&prev, &vec![0], 2024, 3, 5).unwrap();
    assert_eq!(b.date, "05/03/2024");
    assert_eq!(b.weekday, "Tue");
    let d = diff(&a, &b);
    assert_eq!(d.added.len(), 1);
    assert_eq!(d.added[0].subject, "Art");
    assert_eq!(d.removed.len(), 1);
    assert_eq!(d.removed[0].subject, "Music");
}
