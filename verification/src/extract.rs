//! The period row extractor: walks the table's period rows, rebases the
//! located column when it falls in the table's second half, and reads each
//! row's slot cell into a [`Period`].
use vstd::prelude::*;
use crate::model::{placeholder_period, ExtractError, Period, PeriodView};
use crate::scrape::{CellView, RawCell, RawRow, RowView};
use crate::text::{trim_of, trimmed};

verus! {

/// The split of the table: a located column in the second half-week block
/// (index five or above) asks for this many leading period rows to be
/// dropped and for the column to be rebased by five.
pub const HALF_SPLIT_ROWS: usize = 12;

/// The table's period rows: the rows that carry a period label.
pub open spec fn period_rows(rows: Seq<RowView>) -> Seq<RowView> {
    rows.filter(|r: RowView| r.label is Some)
}

/// A row's day-slot cells: its element children without the period-label
/// class.
pub open spec fn data_cells(cells: Seq<CellView>) -> Seq<CellView> {
    cells.filter(|c: CellView| !c.classes.contains("timetable-period"@))
}

/// What one slot cell yields: the placeholder period when the cell is marked
/// inactive; otherwise the four trimmed text fragments of its class-info
/// block, read at their fixed positions (subject third, class id fourth,
/// room seventh, teacher ninth). A cell without the block, or with too few
/// fragments, fails.
pub open spec fn cell_period(cell: CellView, label: Seq<char>) -> Result<
    PeriodView,
    ExtractError,
> {
    if cell.classes.contains("inactive"@) {
        Ok(placeholder_period(label))
    } else {
        match cell.texts {
            Some(ts) => if ts.len() >= 9 {
                Ok(
                    PeriodView {
                        subject: trim_of(ts[2]),
                        classroom: trim_of(ts[6]),
                        class_id: trim_of(ts[3]),
                        teacher: trim_of(ts[8]),
                        period_number: label,
                    },
                )
            } else {
                Err(ExtractError::MissingClassBlock)
            },
            None => Err(ExtractError::MissingClassBlock),
        }
    }
}

/// What one period row yields at a column: the period of its day-slot cell
/// there, under the row's trimmed period label; a row without that cell
/// fails.
pub open spec fn row_period(row: RowView, col: int) -> Result<PeriodView, ExtractError>
    recommends
        row.label is Some,
{
    let cells = data_cells(row.cells);
    if 0 <= col < cells.len() {
        cell_period(cells[col], trim_of(row.label->0))
    } else {
        Err(ExtractError::MalformedRow)
    }
}

/// The periods of a block of period rows at a column, in row order; the
/// first failing row fails the whole block.
pub open spec fn rows_periods(prows: Seq<RowView>, col: int) -> Result<
    Seq<PeriodView>,
    ExtractError,
>
    decreases prows.len(),
{
    if prows.len() == 0 {
        Ok(Seq::empty())
    } else {
        match row_period(prows[0], col) {
            Ok(p) => match rows_periods(prows.drop_first(), col) {
                Ok(rest) => Ok(seq![p] + rest),
                Err(e) => Err(e),
            },
            Err(e) => Err(e),
        }
    }
}

/// The whole extraction at a located column: with a column index of five or
/// above the first [`HALF_SPLIT_ROWS`] period rows belong to the other
/// half-week block and are dropped, and the column is rebased by five; a
/// table too short for that split fails.
pub open spec fn extract_spec(rows: Seq<RowView>, col: int) -> Result<
    Seq<PeriodView>,
    ExtractError,
> {
    let pr = period_rows(rows);
    if col >= 5 {
        if pr.len() >= HALF_SPLIT_ROWS {
            rows_periods(pr.skip(HALF_SPLIT_ROWS as int), col - 5)
        } else {
            Err(ExtractError::MalformedRow)
        }
    } else {
        rows_periods(pr, col)
    }
}

/// Row rebasing, second half: at a column index of five or above, exactly
/// the first [`HALF_SPLIT_ROWS`] period rows are dropped and the column is
/// used rebased by five.
pub proof fn lemma_row_rebasing(rows: Seq<RowView>, col: int)
    requires
        col >= 5,
        period_rows(rows).len() >= HALF_SPLIT_ROWS,
    ensures
        extract_spec(rows, col) == rows_periods(
            period_rows(rows).skip(HALF_SPLIT_ROWS as int),
            col - 5,
        ),
{
}

/// A block that extracts without failure yields exactly one period per
/// period row.
pub proof fn lemma_one_period_per_row(prows: Seq<RowView>, col: int)
    requires
        rows_periods(prows, col) is Ok,
    ensures
        rows_periods(prows, col)->Ok_0.len() == prows.len(),
    decreases prows.len(),
{
    if prows.len() > 0 {
        lemma_one_period_per_row(prows.drop_first(), col);
    }
}

/// Row rebasing, first half: below column index five no period row is
/// dropped and the column is used as it is.
pub proof fn lemma_no_rebasing(rows: Seq<RowView>, col: int)
    requires
        0 <= col < 5,
    ensures
        extract_spec(rows, col) == rows_periods(period_rows(rows), col),
{
}

/// Whether one of the cell's classes is `name`.
fn cell_has_class(cell: &RawCell, name: &String) -> (r: bool)
    ensures
        r == cell.deep_view().classes.contains(name@),
{
    let ghost cv = cell.deep_view();
    let n = cell.classes.len();
    let mut i: usize = 0;
    while i < n
        invariant
            n == cell.classes.len(),
            cv == cell.deep_view(),
            i <= n,
            forall|j: int| 0 <= j < i ==> cv.classes[j] != name@,
        decreases n - i,
    {
        if cell.classes[i] == *name {
            proof {
                assert(cv.classes[i as int] == name@);
            }
            return true;
        }
        i = i + 1;
    }
    false
}

/// The period rows of the table, by reference.
fn period_row_refs<'a>(rows: &'a Vec<RawRow>) -> (r: Vec<&'a RawRow>)
    ensures
        r.deep_view() == period_rows(rows.deep_view()),
{
    let ghost rv = rows.deep_view();
    let mut r: Vec<&'a RawRow> = Vec::new();
    let mut i: usize = 0;
    while i < rows.len()
        invariant
            rv == rows.deep_view(),
            i <= rows.len(),
            r.deep_view() == period_rows(rv.subrange(0, i as int)),
        decreases rows.len() - i,
    {
        let ghost before = r.deep_view();
        let keep = rows[i].label.is_some();
        if keep {
            r.push(&rows[i]);
            proof {
                assert(r.deep_view() =~= before.push(rv[i as int]));
            }
        }
        proof {
            let pred = |row: RowView| row.label is Some;
            assert(rv[i as int] == rows@[i as int].deep_view());
            assert(pred(rv[i as int]) == keep);
            assert(rv.subrange(0, i + 1) =~= rv.subrange(0, i as int).push(rv[i as int]));
            crate::locate::lemma_filter_push(rv.subrange(0, i as int), pred, rv[i as int]);
        }
        i = i + 1;
    }
    proof {
        assert(rv.subrange(0, rows.len() as int) =~= rv);
    }
    r
}

/// A row's day-slot cells, by reference.
fn data_cell_refs<'a>(cells: &'a Vec<RawCell>) -> (r: Vec<&'a RawCell>)
    ensures
        r.deep_view() == data_cells(cells.deep_view()),
{
    let ghost cv = cells.deep_view();
    let label_class: String = "timetable-period".to_owned();
    let mut r: Vec<&'a RawCell> = Vec::new();
    let mut i: usize = 0;
    while i < cells.len()
        invariant
            cv == cells.deep_view(),
            label_class@ == "timetable-period"@,
            i <= cells.len(),
            r.deep_view() == data_cells(cv.subrange(0, i as int)),
        decreases cells.len() - i,
    {
        let ghost before = r.deep_view();
        let keep = !cell_has_class(&cells[i], &label_class);
        if keep {
            r.push(&cells[i]);
            proof {
                assert(r.deep_view() =~= before.push(cv[i as int]));
            }
        }
        proof {
            let pred = |c: CellView| !c.classes.contains("timetable-period"@);
            assert(cv[i as int] == cells@[i as int].deep_view());
            assert(pred(cv[i as int]) == keep);
            assert(cv.subrange(0, i + 1) =~= cv.subrange(0, i as int).push(cv[i as int]));
            crate::locate::lemma_filter_push(cv.subrange(0, i as int), pred, cv[i as int]);
        }
        i = i + 1;
    }
    proof {
        assert(cv.subrange(0, cells.len() as int) =~= cv);
    }
    r
}

/// Reads one slot cell under a (trimmed) period label.
fn cell_to_period(cell: &RawCell, label: &String) -> (r: Result<Period, ExtractError>)
    ensures
        match cell_period(cell.deep_view(), label@) {
            Ok(p) => r matches Ok(q) && q@ == p,
            Err(e) => r matches Err(e2) && e2 == e,
        },
{
    let inactive_class: String = "inactive".to_owned();
    if cell_has_class(cell, &inactive_class) {
        return Ok(Period::none(label.clone()));
    }
    match &cell.texts {
        None => Err(ExtractError::MissingClassBlock),
        Some(ts) => {
            if ts.len() < 9 {
                return Err(ExtractError::MissingClassBlock);
            }
            proof {
                assert(cell.deep_view().texts->0 =~= ts.deep_view());
                assert(ts.deep_view()[2] == ts@[2]@);
                assert(ts.deep_view()[3] == ts@[3]@);
                assert(ts.deep_view()[6] == ts@[6]@);
                assert(ts.deep_view()[8] == ts@[8]@);
            }
            let subject = trimmed(&ts[2]);
            let class_id = trimmed(&ts[3]);
            let classroom = trimmed(&ts[6]);
            let teacher = trimmed(&ts[8]);
            Ok(Period::new(subject, classroom, class_id, teacher, label.clone()))
        },
    }
}

/// Reads one period row at a column.
fn row_to_period(row: &RawRow, col: usize) -> (r: Result<Period, ExtractError>)
    requires
        row.deep_view().label is Some,
    ensures
        match row_period(row.deep_view(), col as int) {
            Ok(p) => r matches Ok(q) && q@ == p,
            Err(e) => r matches Err(e2) && e2 == e,
        },
{
    let cells = data_cell_refs(&row.cells);
    if col < cells.len() {
        let label = match &row.label {
            Some(l) => trimmed(l),
            None => {
                proof {
                    assert(false);
                }
                String::new()
            },
        };
        proof {
            assert(cells.deep_view()[col as int] == cells@[col as int].deep_view());
        }
        cell_to_period(&cells[col], &label)
    } else {
        Err(ExtractError::MalformedRow)
    }
}

/// Reads the period rows from `start` on, at a column.
fn rows_to_periods(prows: &Vec<&RawRow>, start: usize, col: usize) -> (r: Result<
    Vec<Period>,
    ExtractError,
>)
    requires
        start <= prows.len(),
        forall|j: int|
            0 <= j < prows.deep_view().len() ==> (#[trigger] prows.deep_view()[j]).label is Some,
    ensures
        match rows_periods(prows.deep_view().skip(start as int), col as int) {
            Ok(ps) => r matches Ok(v) && v.deep_view() == ps,
            Err(e) => r matches Err(e2) && e2 == e,
        },
{
    let ghost pv = prows.deep_view();
    let n = prows.len();
    let mut acc: Vec<Period> = Vec::new();
    let mut i: usize = start;
    while i < n
        invariant
            n == prows.len(),
            pv == prows.deep_view(),
            start <= i <= n,
            forall|j: int| 0 <= j < pv.len() ==> (#[trigger] pv[j]).label is Some,
            match rows_periods(pv.skip(i as int), col as int) {
                Ok(rest) => rows_periods(pv.skip(start as int), col as int) == Ok::<
                    Seq<PeriodView>,
                    ExtractError,
                >(acc.deep_view() + rest),
                Err(e) => rows_periods(pv.skip(start as int), col as int) == Err::<
                    Seq<PeriodView>,
                    ExtractError,
                >(e),
            },
        decreases n - i,
    {
        proof {
            assert(pv[i as int] == prows@[i as int].deep_view());
            assert(pv.skip(i as int)[0] == pv[i as int]);
            assert(pv.skip(i as int).drop_first() =~= pv.skip(i + 1));
        }
        match row_to_period(&prows[i], col) {
            Ok(p) => {
                let ghost before = acc.deep_view();
                acc.push(p);
                proof {
                    assert(acc.deep_view() =~= before.push(p@));
                    let after = rows_periods(pv.skip(i + 1), col as int);
                    if after is Ok {
                        assert((before + (seq![p@] + after->Ok_0)) =~= (acc.deep_view()
                            + after->Ok_0));
                    }
                }
            },
            Err(e) => {
                return Err(e);
            },
        }
        i = i + 1;
    }
    proof {
        assert(pv.skip(n as int).len() == 0);
        assert(acc.deep_view() + Seq::<PeriodView>::empty() =~= acc.deep_view());
    }
    Ok(acc)
}

/// Extracts the located column's periods from the table rows: keeps the
/// period rows, drops the other half-week block's rows when the column asks
/// for rebasing, and reads each remaining row's slot cell.
pub fn extract_periods(rows: &Vec<RawRow>, col: usize) -> (r: Result<Vec<Period>, ExtractError>)
    ensures
        match extract_spec(rows.deep_view(), col as int) {
            Ok(ps) => r matches Ok(v) && v.deep_view() == ps,
            Err(e) => r matches Err(e2) && e2 == e,
        },
{
    let prows = period_row_refs(rows);
    proof {
        let pred = |row: RowView| row.label is Some;
        assert forall|j: int|
            0 <= j < prows.deep_view().len() implies (#[trigger] prows.deep_view()[j]).label
            is Some by {
            rows.deep_view().lemma_filter_pred(pred, j);
        }
    }
    if col >= 5 {
        if prows.len() >= HALF_SPLIT_ROWS {
            proof {
                assert((col - 5) as int == col as int - 5);
            }
            rows_to_periods(&prows, HALF_SPLIT_ROWS, col - 5)
        } else {
            Err(ExtractError::MalformedRow)
        }
    } else {
        proof {
            assert(prows.deep_view().skip(0) =~= prows.deep_view());
        }
        rows_to_periods(&prows, 0, col)
    }
}

} // verus!
