//! Tables of text cells, drawn by the `term-table` crate.
use vstd::prelude::*;
use term_table::row::Row;
use term_table::table_cell::{Alignment, TableCell};
use term_table::Table;

verus! {

/// How a cell's text is placed within its width.
#[derive(Clone, Copy, Debug, PartialEq, Eq, Structural)]
pub enum Align {
    Left,
    Center,
    Right,
}

/// The widest span that a cell may have.
pub const MAX_SPAN: usize = 8;

/// One cell: its text, how many columns it spans, and its alignment.
#[derive(Clone, Debug, PartialEq, Eq)]
pub struct Cell {
    pub text: String,
    pub span: usize,
    pub align: Align,
}

pub type CellView = (Seq<char>, usize, Align);

impl View for Cell {
    type V = CellView;

    open spec fn view(&self) -> CellView {
        (self.text@, self.span, self.align)
    }
}

pub open spec fn row_view(row: Vec<Cell>) -> Seq<CellView> {
    row@.map_values(|c: Cell| c@)
}

pub open spec fn rows_view(rows: Seq<Vec<Cell>>) -> Seq<Seq<CellView>> {
    rows.map_values(|r: Vec<Cell>| row_view(r))
}

/// Every cell spans between one and `MAX_SPAN` columns.
pub open spec fn spans_ok(rows: Seq<Seq<CellView>>) -> bool {
    forall|i: int, j: int|
        0 <= i < rows.len() && 0 <= j < rows[i].len() ==> 1 <= (#[trigger] rows[i][j]).1 <= MAX_SPAN
}

/// What `term-table` draws for these rows, in its default (extended) style
/// with every column at most `max_column_width` wide.
pub uninterp spec fn table_text(rows: Seq<Seq<CellView>>, max_column_width: usize) -> Seq<char>;

/// Relies on `term_table::Table::render`, which draws the rows added to a
/// new table after its `max_column_width` is set; the drawing depends on
/// the cells alone. A cell spanning no column, or very many, is left out.
#[verifier::external_body]
fn draw(rows: &Vec<Vec<Cell>>, max_column_width: usize) -> (r: String)
    requires
        spans_ok(rows_view(rows@)),
    ensures
        r@ == table_text(rows_view(rows@), max_column_width),
{
    let mut table = Table::new();
    table.max_column_width = max_column_width;
    for row in rows.iter() {
        table.add_row(Row::new(row.iter().map(|c| {
            let a = match c.align {
                Align::Left => Alignment::Left,
                Align::Center => Alignment::Center,
                Align::Right => Alignment::Right,
            };
            TableCell::builder(c.text.as_str()).col_span(c.span).alignment(a).build()
        })));
    }
    table.render()
}

/// `s` between the terminal's bold and reset sequences.
pub open spec fn bold_text(s: Seq<char>) -> Seq<char> {
    seq!['\x1b', '[', '1', 'm'] + s + seq!['\x1b', '[', 'm']
}

/// Relies on termion's `style::Bold` and `style::Reset`, which print as
/// ESC `[1m` and ESC `[m`.
#[verifier::external_body]
pub(crate) fn bold(text: &str) -> (r: String)
    ensures
        r@ == bold_text(text@),
{
    format!("{}{}{}", termion::style::Bold, text, termion::style::Reset)
}

/// A cell of the given text, span and alignment.
pub fn cell(text: String, span: usize, align: Align) -> (r: Cell)
    ensures
        r@ == (text@, span, align),
{
    Cell { text, span, align }
}

/// Every cell of `row` spans between one and `MAX_SPAN` columns.
pub open spec fn row_spans_ok(row: Seq<CellView>) -> bool {
    forall|j: int| 0 <= j < row.len() ==> 1 <= (#[trigger] row[j]).1 <= MAX_SPAN
}

/// Rows under construction; every cell's span is one that `term-table`
/// can draw.
pub struct Rows {
    rows: Vec<Vec<Cell>>,
}

impl View for Rows {
    type V = Seq<Seq<CellView>>;

    closed spec fn view(&self) -> Seq<Seq<CellView>> {
        rows_view(self.rows@)
    }
}

impl Rows {
    #[verifier::type_invariant]
    spec fn inv(&self) -> bool {
        spans_ok(rows_view(self.rows@))
    }

    pub fn new() -> (r: Rows)
        ensures
            r@ == Seq::<Seq<CellView>>::empty(),
    {
        let r = Rows { rows: Vec::new() };
        assert(r@ =~= Seq::<Seq<CellView>>::empty());
        r
    }

    /// These rows with `row` after them.
    pub fn with(self, row: Vec<Cell>) -> (r: Rows)
        requires
            row_spans_ok(row_view(row)),
        ensures
            r@ == self@.push(row_view(row)),
    {
        proof {
            use_type_invariant(&self);
        }
        let mut rows = self.rows;
        let ghost before = rows@;
        rows.push(row);
        assert(rows_view(rows@) =~= rows_view(before).push(row_view(row)));
        Rows { rows }
    }

    /// Draws the rows.
    pub fn render(&self, max_column_width: usize) -> (r: String)
        ensures
            r@ == table_text(self@, max_column_width),
    {
        proof {
            use_type_invariant(self);
        }
        draw(&self.rows, max_column_width)
    }
}

} // verus!
