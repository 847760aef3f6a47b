//! The trusted boundary to the HTML parser: the page text goes in, plain
//! values come out. Parsing and CSS selection are scraper's; everything that
//! decides (filtering rows, picking the column, reading the fragments) is
//! verified code over the plain values returned here.
use vstd::prelude::*;

verus! {

/// Image of a [`RawCell`].
#[verifier::ext_equal]
pub ghost struct CellView {
    pub classes: Seq<Seq<char>>,
    pub texts: Option<Seq<Seq<char>>>,
}

/// One element child of a table row: its class names, and, when the cell
/// holds a `div.timetable-class` block, that block's text fragments in tree
/// order.
#[derive(Debug, Clone, PartialEq, Eq)]
pub struct RawCell {
    pub classes: Vec<String>,
    pub texts: Option<Vec<String>>,
}

impl DeepView for RawCell {
    type V = CellView;

    open spec fn deep_view(&self) -> CellView {
        CellView { classes: self.classes.deep_view(), texts: self.texts.deep_view() }
    }
}

/// Image of a [`RawRow`].
#[verifier::ext_equal]
pub ghost struct RowView {
    pub label: Option<Seq<char>>,
    pub cells: Seq<CellView>,
}

/// One `tr` of the page: the inner HTML of its first `th.timetable-period`
/// descendant when it has one, and its element children in order.
#[derive(Debug, Clone, PartialEq, Eq)]
pub struct RawRow {
    pub label: Option<String>,
    pub cells: Vec<RawCell>,
}

impl DeepView for RawRow {
    type V = RowView;

    open spec fn deep_view(&self) -> RowView {
        RowView { label: self.label.deep_view(), cells: self.cells.deep_view() }
    }
}

/// The inner HTML of each `th.timetable-date` cell of the page, in document
/// order.
pub uninterp spec fn header_cells_of(html: Seq<char>) -> Seq<Seq<char>>;

/// Relies on `scraper::Html::parse_document`, `Selector::parse` on a fixed
/// selector, `Html::select` and `ElementRef::inner_html`: parsing and
/// selection are deterministic in the page text, so the header cells are a
/// function of it.
#[verifier::external_body]
pub fn scrape_header_cells(html: &str) -> (r: Vec<String>)
    ensures
        r.deep_view() == header_cells_of(html@),
{
    let doc = scraper::Html::parse_document(html);
    let date_sel = scraper::Selector::parse("th.timetable-date").unwrap();
    doc.select(&date_sel).map(|c| c.inner_html()).collect()
}

/// Every `tr` of the page in document order, each as its period label and
/// its element children (see [`RawRow`]).
pub uninterp spec fn table_rows_of(html: Seq<char>) -> Seq<RowView>;

/// Relies on `scraper::Html::parse_document`, `Selector::parse` on fixed
/// selectors, `Html::select`, `ElementRef::select`, `inner_html`,
/// `child_elements`, `Element::classes` and `ElementRef::text`: all
/// deterministic in the page text, so the rows are a function of it.
#[verifier::external_body]
pub fn scrape_table_rows(html: &str) -> (r: Vec<RawRow>)
    ensures
        r.deep_view() == table_rows_of(html@),
{
    let doc = scraper::Html::parse_document(html);
    let row_sel = scraper::Selector::parse("tr").unwrap();
    let label_sel = scraper::Selector::parse("th.timetable-period").unwrap();
    let block_sel = scraper::Selector::parse("div.timetable-class").unwrap();
    doc.select(&row_sel).map(|row| RawRow {
        label: row.select(&label_sel).next().map(|c| c.inner_html()),
        cells: row.child_elements().map(|c| RawCell {
            classes: c.value().classes().map(|n| n.to_owned()).collect(),
            texts: c.select(&block_sel).next().map(|b| b.text().map(|t| t.to_owned()).collect()),
        }).collect(),
    }).collect()
}

} // verus!
