//! The day-to-day comparison: which subjects one day has that the other has
//! not, placeholder slots never counting.
use vstd::prelude::*;
use crate::model::{none_subject, DayView, Period, PeriodView, TimetableDayData};

verus! {

/// Whether some period of `ps` carries the subject `s`.
pub open spec fn subject_in(ps: Seq<PeriodView>, s: Seq<char>) -> bool {
    exists|i: int| 0 <= i < ps.len() && ps[i].subject == s
}

/// The periods of `a` whose subject no period of `b` carries, in `a`'s row
/// order; a placeholder period never counts.
pub open spec fn added_periods(a: Seq<PeriodView>, b: Seq<PeriodView>) -> Seq<PeriodView> {
    a.filter(|p: PeriodView| p.subject != none_subject() && !subject_in(b, p.subject))
}

/// Image of a [`DayDiff`].
#[verifier::ext_equal]
pub ghost struct DiffView {
    pub added: Seq<PeriodView>,
    pub removed: Seq<PeriodView>,
}

/// What changed from day `b` to day `a`: subjects only `a` has, and subjects
/// only `b` has. Matching is by subject name alone.
pub open spec fn diff_spec(a: DayView, b: DayView) -> DiffView {
    DiffView {
        added: added_periods(a.periods, b.periods),
        removed: added_periods(b.periods, a.periods),
    }
}

/// The two sides of a day-to-day comparison.
#[derive(Debug, Clone, PartialEq, Eq)]
pub struct DayDiff {
    pub added: Vec<Period>,
    pub removed: Vec<Period>,
}

impl View for DayDiff {
    type V = DiffView;

    open spec fn view(&self) -> DiffView {
        DiffView { added: self.added.deep_view(), removed: self.removed.deep_view() }
    }
}

/// Whether the period carries the sentinel subject of an empty slot.
pub fn is_placeholder(p: &Period) -> (r: bool)
    ensures
        r == (p@.subject == none_subject()),
{
    let sentinel: String = "None".to_owned();
    p.subject == sentinel
}

/// Whether some period of `ps` carries the subject `s`.
pub fn subject_present(ps: &Vec<Period>, s: &String) -> (r: bool)
    ensures
        r == subject_in(ps.deep_view(), s@),
{
    let ghost pv = ps.deep_view();
    let n = ps.len();
    let mut i: usize = 0;
    while i < n
        invariant
            n == ps.len(),
            pv == ps.deep_view(),
            i <= n,
            forall|j: int| 0 <= j < i ==> pv[j].subject != s@,
        decreases n - i,
    {
        if ps[i].subject == *s {
            proof {
                assert(pv[i as int].subject == s@);
            }
            return true;
        }
        i = i + 1;
    }
    false
}

/// An owned copy of a period.
fn copy_period(p: &Period) -> (r: Period)
    ensures
        r@ == p@,
{
    Period::new(
        p.subject.clone(),
        p.classroom.clone(),
        p.class_id.clone(),
        p.teacher.clone(),
        p.period_number.clone(),
    )
}

/// The periods of `a` whose subject no period of `b` carries, placeholders
/// never counting.
fn added_vec(a: &Vec<Period>, b: &Vec<Period>) -> (r: Vec<Period>)
    ensures
        r.deep_view() == added_periods(a.deep_view(), b.deep_view()),
{
    let ghost av = a.deep_view();
    let ghost bv = b.deep_view();
    let mut r: Vec<Period> = Vec::new();
    let mut i: usize = 0;
    while i < a.len()
        invariant
            av == a.deep_view(),
            bv == b.deep_view(),
            i <= a.len(),
            r.deep_view() == added_periods(av.subrange(0, i as int), bv),
        decreases a.len() - i,
    {
        let ghost before = r.deep_view();
        let keep = !is_placeholder(&a[i]) && !subject_present(b, &a[i].subject);
        if keep {
            r.push(copy_period(&a[i]));
            proof {
                assert(r.deep_view() =~= before.push(av[i as int]));
            }
        }
        proof {
            let pred = |p: PeriodView| p.subject != none_subject() && !subject_in(bv, p.subject);
            assert(av[i as int] == a@[i as int]@);
            assert(pred(av[i as int]) == keep);
            assert(av.subrange(0, i + 1) =~= av.subrange(0, i as int).push(av[i as int]));
            crate::locate::lemma_filter_push(av.subrange(0, i as int), pred, av[i as int]);
        }
        i = i + 1;
    }
    proof {
        assert(av.subrange(0, a.len() as int) =~= av);
    }
    r
}

/// Compares two extracted days: `added` holds the periods of `a` whose
/// subject appears nowhere in `b`, `removed` those of `b` whose subject
/// appears nowhere in `a`; a placeholder period is never added or removed.
pub fn diff(a: &TimetableDayData, b: &TimetableDayData) -> (r: DayDiff)
    ensures
        r@ == diff_spec(a@, b@),
{
    let added = added_vec(&a.periods, &b.periods);
    let removed = added_vec(&b.periods, &a.periods);
    DayDiff { added, removed }
}

/// No sequence element passing a nowhere-true predicate, the filtered
/// sequence is empty.
proof fn lemma_filter_none<A>(s: Seq<A>, pred: spec_fn(A) -> bool)
    requires
        forall|i: int| 0 <= i < s.len() ==> !pred(#[trigger] s[i]),
    ensures
        s.filter(pred) == Seq::<A>::empty(),
    decreases s.len(),
{
    reveal(Seq::filter);
    if s.len() > 0 {
        assert forall|i: int| 0 <= i < s.drop_last().len() implies !pred(
            #[trigger] s.drop_last()[i],
        ) by {
            assert(s.drop_last()[i] == s[i]);
        }
        lemma_filter_none(s.drop_last(), pred);
    }
}

/// Diff symmetry: what comparing `a` to `b` reports as added, comparing `b`
/// to `a` reports as removed, and the other way round.
pub proof fn lemma_diff_symmetry(a: DayView, b: DayView)
    ensures
        diff_spec(a, b).added == diff_spec(b, a).removed,
        diff_spec(a, b).removed == diff_spec(b, a).added,
{
}

/// Comparing a day to itself yields nothing: every non-placeholder period's
/// subject appears in the day itself, and placeholders never count.
pub proof fn lemma_diff_identical(a: DayView)
    ensures
        diff_spec(a, a).added == Seq::<PeriodView>::empty(),
        diff_spec(a, a).removed == Seq::<PeriodView>::empty(),
{
    let pred = |p: PeriodView| p.subject != none_subject() && !subject_in(a.periods, p.subject);
    assert forall|i: int| 0 <= i < a.periods.len() implies !pred(#[trigger] a.periods[i]) by {
        if a.periods[i].subject != none_subject() {
            assert(subject_in(a.periods, a.periods[i].subject));
        }
    }
    lemma_filter_none(a.periods, pred);
}

/// A placeholder period never appears in either side of a diff.
pub proof fn lemma_placeholder_excluded(a: DayView, b: DayView)
    ensures
        forall|i: int|
            0 <= i < diff_spec(a, b).added.len() ==> (#[trigger] diff_spec(a, b).added[i]).subject
                != none_subject(),
        forall|i: int|
            0 <= i < diff_spec(a, b).removed.len() ==> (#[trigger] diff_spec(
                a,
                b,
            ).removed[i]).subject != none_subject(),
{
    let pred_a = |p: PeriodView| p.subject != none_subject() && !subject_in(b.periods, p.subject);
    let pred_b = |p: PeriodView| p.subject != none_subject() && !subject_in(a.periods, p.subject);
    assert forall|i: int| 0 <= i < diff_spec(a, b).added.len() implies (#[trigger] diff_spec(
        a,
        b,
    ).added[i]).subject != none_subject() by {
        a.periods.lemma_filter_pred(pred_a, i);
    }
    assert forall|i: int| 0 <= i < diff_spec(a, b).removed.len() implies (#[trigger] diff_spec(
        a,
        b,
    ).removed[i]).subject != none_subject() by {
        b.periods.lemma_filter_pred(pred_b, i);
    }
}

} // verus!
