//! The commands page and the short device list, as the shell's `commands`
//! and `devices` commands print them.
use vstd::prelude::*;
use crate::registry::Registry;
use crate::table::{row_view, table_text, CellView, Rows};
use crate::tables::commands::{command_rows, COMMANDS_WIDTH};
use crate::tables::devices::{add_device_rows, device_rows, DEVICES_WIDTH};
use crate::tables::{heading, heading_cell, title, title_cell};

verus! {

/// Draws the table of every shell command with its help text.
pub fn commands_table() -> (r: String)
    ensures
        r@ == table_text(command_rows(), COMMANDS_WIDTH),
{
    crate::tables::commands::render()
}

pub open spec fn devices_list_head() -> Seq<Seq<CellView>> {
    seq![
        seq![title_cell("Configured Devices"@, 6)],
        seq![
            heading_cell("ID"@),
            heading_cell("Name"@),
            heading_cell("Type"@),
            heading_cell("Controller Addr"@),
            heading_cell("Device Addr"@),
            heading_cell("Port"@),
        ],
    ]
}

/// Draws the configured devices without their serial settings, one row
/// each in configuration order.
pub fn devices_list(registry: &Registry) -> (r: String)
    ensures
        r@ == table_text(devices_list_head() + device_rows(registry@, false), DEVICES_WIDTH),
{
    let rows = Rows::new();
    let first = vec![title("Configured Devices", 6)];
    assert(row_view(first) =~= devices_list_head()[0]);
    let rows = rows.with(first);
    let second = vec![
        heading("ID"),
        heading("Name"),
        heading("Type"),
        heading("Controller Addr"),
        heading("Device Addr"),
        heading("Port"),
    ];
    assert(row_view(second) =~= devices_list_head()[1]);
    let rows = rows.with(second);
    assert(rows@ =~= devices_list_head());
    let rows = add_device_rows(rows, registry.devices(), false);
    rows.render(DEVICES_WIDTH)
}

} // verus!
