//! The table of configured devices.
use vstd::prelude::*;
use crate::device::{kind_name, Device};
use crate::registry::Registry;
use crate::table::{row_view, table_text, Cell, CellView, Rows};
use crate::tables::{heading, heading_cell, plain, plain_cell, title, title_cell};
use crate::text::{decimal_text, number_text};

verus! {

/// The widest a column of a device table may be.
pub const DEVICES_WIDTH: usize = 40;

pub open spec fn timeout_text(ms: u64) -> Seq<char> {
    decimal_text(ms as nat) + " ms"@
}

/// Identifier, name, kind, controller address, device address and port.
pub open spec fn summary_row(d: Device) -> Seq<CellView> {
    seq![
        plain_cell(d.id@),
        plain_cell(d.name@),
        plain_cell(kind_name(d.kind)),
        plain_cell(decimal_text(d.controller_addr as nat)),
        plain_cell(decimal_text(d.addr as nat)),
        plain_cell(d.port@),
    ]
}

/// The summary, then baud rate and timeout.
pub open spec fn device_row(d: Device) -> Seq<CellView> {
    summary_row(d) + seq![plain_cell(decimal_text(d.baudrate as nat)), plain_cell(timeout_text(d.timeout_ms))]
}

/// One row per device, in order: the full row where `full`, else the summary.
pub open spec fn device_rows(devs: Seq<Device>, full: bool) -> Seq<Seq<CellView>> {
    devs.map_values(|d: Device| if full { device_row(d) } else { summary_row(d) })
}

pub open spec fn devices_head() -> Seq<Seq<CellView>> {
    seq![
        seq![title_cell("Configured Devices"@, 3), title_cell("Connection Details"@, 5)],
        seq![
            heading_cell("ID"@),
            heading_cell("Name"@),
            heading_cell("Type"@),
            heading_cell("Contr. #"@),
            heading_cell("Dev. #"@),
            heading_cell("Port"@),
            heading_cell("Baudrate"@),
            heading_cell("Timeout"@),
        ],
    ]
}

fn device_cells(d: &Device, full: bool) -> (r: Vec<Cell>)
    ensures
        row_view(r) == (if full { device_row(*d) } else { summary_row(*d) }),
{
    let mut v = vec![
        plain(d.id.clone()),
        plain(d.name.clone()),
        plain(String::from_str(d.kind.name())),
        plain(number_text(d.controller_addr as u64)),
        plain(number_text(d.addr as u64)),
        plain(d.port.clone()),
    ];
    assert(row_view(v) =~= summary_row(*d));
    if full {
        v.push(plain(number_text(d.baudrate)));
        let mut t = number_text(d.timeout_ms);
        t.append(" ms");
        v.push(plain(t));
        assert(row_view(v) =~= device_row(*d));
    }
    v
}

/// Appends one row for each device of `devs`, in order.
pub fn add_device_rows(rows: Rows, devs: &Vec<Device>, full: bool) -> (r: Rows)
    ensures
        r@ == rows@ + device_rows(devs@, full),
{
    let ghost start = rows@;
    let mut rows = rows;
    let mut i: usize = 0;
    while i < devs.len()
        invariant
            i <= devs@.len(),
            rows@ == start + device_rows(devs@.take(i as int), full),
        decreases devs@.len() - i,
    {
        let row = device_cells(&devs[i], full);
        rows = rows.with(row);
        assert(devs@.take(i + 1) =~= devs@.take(i as int).push(devs@[i as int]));
        assert(device_rows(devs@.take(i + 1), full) =~= device_rows(devs@.take(i as int), full).push(
            row_view(row),
        ));
        i = i + 1;
    }
    assert(devs@.take(devs@.len() as int) =~= devs@);
    rows
}

/// Draws the configured devices with their connection details, one row each
/// in configuration order.
pub fn render(registry: &Registry) -> (r: String)
    ensures
        r@ == table_text(devices_head() + device_rows(registry@, true), DEVICES_WIDTH),
{
    let rows = Rows::new();
    let first = vec![title("Configured Devices", 3), title("Connection Details", 5)];
    assert(row_view(first) =~= devices_head()[0]);
    let rows = rows.with(first);
    let second = vec![
        heading("ID"),
        heading("Name"),
        heading("Type"),
        heading("Contr. #"),
        heading("Dev. #"),
        heading("Port"),
        heading("Baudrate"),
        heading("Timeout"),
    ];
    assert(row_view(second) =~= devices_head()[1]);
    let rows = rows.with(second);
    assert(rows@ =~= devices_head());
    let rows = add_device_rows(rows, registry.devices(), true);
    rows.render(DEVICES_WIDTH)
}

} // verus!
