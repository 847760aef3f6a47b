//! The calendar column locator: finds, among the page's date header cells,
//! the column of the first candidate day offset whose formatted date appears
//! there.
use vstd::prelude::*;
use crate::dates::{date_string, format_date, shift_ymd, shifted_date, weekday_name, weekday_seq};
use crate::model::ExtractError;
use crate::text::{contains_slash, has_slash};

verus! {

/// The index of the first element of `headers` equal to `s`.
pub open spec fn find_str(headers: Seq<Seq<char>>, s: Seq<char>) -> Option<int>
    decreases headers.len(),
{
    if headers.len() == 0 {
        None
    } else if headers[0] == s {
        Some(0int)
    } else {
        match find_str(headers.drop_first(), s) {
            Some(i) => Some(i + 1),
            None => None,
        }
    }
}

/// What one offset asks to look for: the header string of the reference date
/// shifted by `off`, and that date's weekday name. `None` when the shifted
/// date cannot be computed or its year does not fit the four-digit header
/// form.
pub open spec fn offset_target(year: i32, month: u32, day: u32, off: i64) -> Option<
    (Seq<char>, Seq<char>),
> {
    match shifted_date(year, month, day, off) {
        Some(t) => if 0 <= t.0 < 10000 && t.1 < 100 && t.2 < 100 && t.3 < 7 {
            Some((date_string(t.2 as int, t.1 as int, t.0 as int), weekday_seq(t.3 as int)))
        } else {
            None
        },
        None => None,
    }
}

/// Whether `off` leads to a match: its target date appears among the headers.
pub open spec fn offset_matches(
    headers: Seq<Seq<char>>,
    year: i32,
    month: u32,
    day: u32,
    off: i64,
) -> bool {
    match offset_target(year, month, day, off) {
        Some(t) => find_str(headers, t.0) is Some,
        None => false,
    }
}

/// The locator's result: offsets are tried in the callers' order, and the
/// first offset whose target date appears among the headers wins; its match
/// is the first header position holding that date.
pub open spec fn locate_spec(
    headers: Seq<Seq<char>>,
    offsets: Seq<i64>,
    year: i32,
    month: u32,
    day: u32,
) -> Option<(int, Seq<char>, Seq<char>)>
    decreases offsets.len(),
{
    if offsets.len() == 0 {
        None
    } else {
        match offset_target(year, month, day, offsets[0]) {
            Some(t) => match find_str(headers, t.0) {
                Some(i) => Some((i, t.0, t.1)),
                None => locate_spec(headers, offsets.drop_first(), year, month, day),
            },
            None => locate_spec(headers, offsets.drop_first(), year, month, day),
        }
    }
}

/// Searching the whole list is searching past an unmatched prefix.
proof fn lemma_find_str_skip(headers: Seq<Seq<char>>, s: Seq<char>, i: int)
    requires
        0 <= i <= headers.len(),
        forall|j: int| 0 <= j < i ==> headers[j] != s,
    ensures
        find_str(headers, s) == (match find_str(headers.skip(i), s) {
            Some(k) => Some(i + k),
            None => None::<int>,
        }),
    decreases i,
{
    if i == 0 {
        assert(headers.skip(0) =~= headers);
    } else {
        lemma_find_str_skip(headers.drop_first(), s, i - 1);
        assert(headers.drop_first().skip(i - 1) =~= headers.skip(i));
    }
}

/// The index of the first element of `headers` equal to `target`.
pub fn find_header(headers: &Vec<String>, target: &String) -> (r: Option<usize>)
    ensures
        match r {
            Some(i) => find_str(headers.deep_view(), target@) == Some(i as int),
            None => find_str(headers.deep_view(), target@) is None,
        },
{
    let ghost hs = headers.deep_view();
    let n = headers.len();
    let mut i: usize = 0;
    while i < n
        invariant
            n == headers.len(),
            hs == headers.deep_view(),
            i <= n,
            forall|j: int| 0 <= j < i ==> hs[j] != target@,
        decreases n - i,
    {
        if headers[i] == *target {
            proof {
                lemma_find_str_skip(hs, target@, i as int);
                assert(hs.skip(i as int)[0] == target@);
            }
            return Some(i);
        }
        i = i + 1;
    }
    proof {
        lemma_find_str_skip(hs, target@, n as int);
        assert(hs.skip(n as int).len() == 0);
    }
    None
}

/// The header cells that carry the date separator `/`; the others are
/// spacer cells, not dates.
pub open spec fn slash_headers(cells: Seq<Seq<char>>) -> Seq<Seq<char>> {
    cells.filter(|s: Seq<char>| has_slash(s))
}

/// Keeps the header cells that carry the date separator `/`.
pub fn date_headers(cells: &Vec<String>) -> (r: Vec<String>)
    ensures
        r.deep_view() == slash_headers(cells.deep_view()),
{
    let ghost cs = cells.deep_view();
    let mut r: Vec<String> = Vec::new();
    let mut i: usize = 0;
    while i < cells.len()
        invariant
            cs == cells.deep_view(),
            i <= cells.len(),
            r.deep_view() == slash_headers(cs.subrange(0, i as int)),
        decreases cells.len() - i,
    {
        let ghost before = r.deep_view();
        let keep = contains_slash(&cells[i]);
        if keep {
            r.push(cells[i].clone());
            proof {
                assert(r.deep_view() =~= before.push(cs[i as int]));
            }
        }
        proof {
            let pred = |s: Seq<char>| has_slash(s);
            assert(cs[i as int] == cells@[i as int]@);
            assert(pred(cs[i as int]) == keep);
            assert(cs.subrange(0, i + 1) =~= cs.subrange(0, i as int).push(cs[i as int]));
            lemma_filter_push(cs.subrange(0, i as int), pred, cs[i as int]);
        }
        i = i + 1;
    }
    proof {
        assert(cs.subrange(0, cells.len() as int) =~= cs);
    }
    r
}

/// Filtering a sequence extended by one element extends the filtered
/// sequence exactly when the element passes.
pub proof fn lemma_filter_push<A>(s: Seq<A>, pred: spec_fn(A) -> bool, x: A)
    ensures
        s.push(x).filter(pred) == (if pred(x) {
            s.filter(pred).push(x)
        } else {
            s.filter(pred)
        }),
{
    reveal(Seq::filter);
    assert(s.push(x).drop_last() =~= s);
    assert(s.push(x).last() == x);
}

/// Locates the calendar column: for the first offset, in the given order,
/// whose shifted reference date formats to a string among `headers`, returns
/// that header's index, the matched date string, and the weekday name of the
/// shifted date. Fails with `DateNotFound` when no offset matches.
pub fn locate_column(
    headers: &Vec<String>,
    offsets: &Vec<i64>,
    year: i32,
    month: u32,
    day: u32,
) -> (r: Result<(usize, String, String), ExtractError>)
    ensures
        match locate_spec(headers.deep_view(), offsets@, year, month, day) {
            Some(t) => r matches Ok(o) && o.0 as int == t.0 && o.1@ == t.1 && o.2@ == t.2,
            None => r matches Err(e) && e == ExtractError::DateNotFound,
        },
{
    let ghost hs = headers.deep_view();
    let n = offsets.len();
    let mut k: usize = 0;
    proof {
        assert(offsets@.skip(0) =~= offsets@);
    }
    while k < n
        invariant
            n == offsets.len(),
            hs == headers.deep_view(),
            k <= n,
            locate_spec(hs, offsets@, year, month, day) == locate_spec(
                hs,
                offsets@.skip(k as int),
                year,
                month,
                day,
            ),
        decreases n - k,
    {
        let off = offsets[k];
        proof {
            assert(offsets@.skip(k as int)[0] == off);
            assert(offsets@.skip(k as int).drop_first() =~= offsets@.skip(k + 1));
        }
        match shift_ymd(year, month, day, off) {
            Some((y2, m2, d2, w)) => {
                if 0 <= y2 && y2 < 10000 {
                    let ds = format_date(d2, m2, y2 as u32);
                    proof {
                        assert(offset_target(year, month, day, off) matches Some(t) && t.0
                            == ds@ && t.1 == weekday_seq(w as int));
                    }
                    match find_header(headers, &ds) {
                        Some(i) => {
                            let wd = weekday_name(w);
                            return Ok((i, ds, wd));
                        },
                        None => {},
                    }
                }
            },
            None => {},
        }
        k = k + 1;
    }
    proof {
        assert(offsets@.skip(n as int).len() == 0);
    }
    Err(ExtractError::DateNotFound)
}

/// Offset priority: whatever matches later in the offset list, the locator's
/// result is the match of the first matching offset — never that of a later
/// offset whose date happens to sit at an earlier header position.
pub proof fn lemma_offset_priority(
    headers: Seq<Seq<char>>,
    offsets: Seq<i64>,
    year: i32,
    month: u32,
    day: u32,
    k: int,
)
    requires
        0 <= k < offsets.len(),
        offset_matches(headers, year, month, day, offsets[k]),
        forall|j: int| 0 <= j < k ==> !offset_matches(headers, year, month, day, offsets[j]),
    ensures
        locate_spec(headers, offsets, year, month, day) == (match offset_target(
            year,
            month,
            day,
            offsets[k],
        ) {
            Some(t) => Some((find_str(headers, t.0)->0, t.0, t.1)),
            None => None::<(int, Seq<char>, Seq<char>)>,
        }),
    decreases k,
{
    if k == 0 {
    } else {
        assert(!offset_matches(headers, year, month, day, offsets[0]));
        lemma_offset_priority(headers, offsets.drop_first(), year, month, day, k - 1);
        assert(offsets.drop_first()[k - 1] == offsets[k]);
    }
}

} // verus!
