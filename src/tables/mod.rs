//! The tables that the shell prints: its commands, the configured devices,
//! and a dashboard of their states.
use vstd::prelude::*;
use crate::table::{bold, bold_text, cell, Align, CellView, Rows};

pub mod commands;
pub mod dashboard;
pub mod devices;

verus! {

/// A bold, centred title spanning `span` columns.
pub open spec fn title_cell(t: Seq<char>, span: usize) -> CellView {
    (bold_text(t), span, Align::Center)
}

/// A bold, centred column heading.
pub open spec fn heading_cell(t: Seq<char>) -> CellView {
    (bold_text(t), 1, Align::Center)
}

/// A left-aligned cell of one column.
pub open spec fn plain_cell(t: Seq<char>) -> CellView {
    (t, 1, Align::Left)
}

pub fn title(t: &str, span: usize) -> (r: crate::table::Cell)
    ensures
        r@ == title_cell(t@, span),
{
    cell(bold(t), span, Align::Center)
}

pub fn heading(t: &str) -> (r: crate::table::Cell)
    ensures
        r@ == heading_cell(t@),
{
    cell(bold(t), 1, Align::Center)
}

pub fn plain(t: String) -> (r: crate::table::Cell)
    ensures
        r@ == plain_cell(t@),
{
    cell(t, 1, Align::Left)
}

/// The two-column row of a command and its help text.
pub open spec fn cmd_row(c: Seq<char>, h: Seq<char>) -> Seq<CellView> {
    seq![plain_cell(c), plain_cell(h)]
}

/// Appends the row of a command and its help text.
pub fn cmd(rows: Rows, c: &str, h: &str) -> (r: Rows)
    ensures
        r@ == rows@.push(cmd_row(c@, h@)),
{
    let row = vec![plain(String::from_str(c)), plain(String::from_str(h))];
    assert(crate::table::row_view(row) =~= cmd_row(c@, h@));
    rows.with(row)
}

} // verus!
