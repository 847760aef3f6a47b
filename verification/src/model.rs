//! The extraction results: one timetable slot, one day's schedule, and the
//! failures an extraction can end in.
use vstd::prelude::*;

verus! {

/// The sentinel subject that marks a slot with no class scheduled.
pub open spec fn none_subject() -> Seq<char> {
    "None"@
}

/// Mathematical image of a [`Period`]: every field as a character sequence.
#[verifier::ext_equal]
pub ghost struct PeriodView {
    pub subject: Seq<char>,
    pub classroom: Seq<char>,
    pub class_id: Seq<char>,
    pub teacher: Seq<char>,
    pub period_number: Seq<char>,
}

/// The placeholder period for a slot with no class: the sentinel subject,
/// the row's label kept, every other field empty.
pub open spec fn placeholder_period(period_number: Seq<char>) -> PeriodView {
    PeriodView {
        subject: none_subject(),
        classroom: Seq::empty(),
        class_id: Seq::empty(),
        teacher: Seq::empty(),
        period_number: period_number,
    }
}

/// A period either is scheduled or carries the placeholder shape: a sentinel
/// subject forces every descriptive field to be empty.
pub open spec fn period_wf(p: PeriodView) -> bool {
    p.subject == none_subject() ==> p == placeholder_period(p.period_number)
}

/// One timetable slot, as read off the page.
#[derive(Debug, Clone, PartialEq, Eq)]
pub struct Period {
    pub subject: String,
    pub classroom: String,
    pub class_id: String,
    pub teacher: String,
    pub period_number: String,
}

impl View for Period {
    type V = PeriodView;

    open spec fn view(&self) -> PeriodView {
        PeriodView {
            subject: self.subject@,
            classroom: self.classroom@,
            class_id: self.class_id@,
            teacher: self.teacher@,
            period_number: self.period_number@,
        }
    }
}

impl DeepView for Period {
    type V = PeriodView;

    open spec fn deep_view(&self) -> PeriodView {
        self@
    }
}

impl Period {
    /// A scheduled period with the given fields, kept verbatim.
    pub fn new(
        subject: String,
        classroom: String,
        class_id: String,
        teacher: String,
        period_number: String,
    ) -> (r: Period)
        ensures
            r@ == (PeriodView {
                subject: subject@,
                classroom: classroom@,
                class_id: class_id@,
                teacher: teacher@,
                period_number: period_number@,
            }),
    {
        Period { subject, classroom, class_id, teacher, period_number }
    }

    /// The placeholder period of a slot with no class: only the row's
    /// period label is kept.
    pub fn none(period_number: String) -> (r: Period)
        ensures
            r@ == placeholder_period(period_number@),
            period_wf(r@),
    {
        let r = Period {
            subject: "None".to_owned(),
            classroom: String::new(),
            class_id: String::new(),
            teacher: String::new(),
            period_number,
        };
        r
    }
}

/// Mathematical image of a [`TimetableDayData`].
#[verifier::ext_equal]
pub ghost struct DayView {
    pub date: Seq<char>,
    pub weekday: Seq<char>,
    pub periods: Seq<PeriodView>,
}

/// One calendar day's schedule: the matched header date, the weekday name
/// derived from the offset date, and the periods in row order.
#[derive(Debug, Clone, PartialEq, Eq)]
pub struct TimetableDayData {
    pub date: String,
    pub weekday: String,
    pub periods: Vec<Period>,
}

impl View for TimetableDayData {
    type V = DayView;

    open spec fn view(&self) -> DayView {
        DayView { date: self.date@, weekday: self.weekday@, periods: self.periods.deep_view() }
    }
}

impl DeepView for TimetableDayData {
    type V = DayView;

    open spec fn deep_view(&self) -> DayView {
        self@
    }
}

impl TimetableDayData {
    /// Bundles a matched date, its weekday name and the extracted periods.
    pub fn new(date: String, weekday: String, periods: Vec<Period>) -> (r: TimetableDayData)
        ensures
            r@ == (DayView { date: date@, weekday: weekday@, periods: periods.deep_view() }),
    {
        TimetableDayData { date, weekday, periods }
    }
}

/// Everything an extraction can fail with.
#[derive(Debug, Clone, Copy, PartialEq, Eq, Structural)]
pub enum ExtractError {
    /// No candidate offset's date was found among the page's header dates.
    DateNotFound,
    /// A period row misses its target slot cell, or the table is too short
    /// for the second-half rebasing.
    MalformedRow,
    /// A slot cell that is not inactive misses the nested class-info block,
    /// or the block holds too few text fragments.
    MissingClassBlock,
}

impl ExtractError {
    /// A short description of the failure, for callers that print it.
    pub fn describe(&self) -> (r: &'static str)
        ensures
            self is DateNotFound ==> r@ == "could not find day number through the date"@,
            self is MalformedRow ==> r@ == "cannot find period slot"@,
            self is MissingClassBlock ==> r@ == "cannot find period data"@,
    {
        match self {
            ExtractError::DateNotFound => "could not find day number through the date",
            ExtractError::MalformedRow => "cannot find period slot",
            ExtractError::MissingClassBlock => "cannot find period data",
        }
    }
}

} // verus!
