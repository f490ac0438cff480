//! The dashboard: one row per device with its current state and readings.
//!
//! The readings are taken by the caller, device by device; the table is
//! drawn only when every device could be read.
use vstd::prelude::*;
use crate::device::RelayState;
use crate::handlers::pid::bool_text;
use crate::handlers::relay::state_text;
use crate::handlers::DriverError;
use crate::table::{bold, bold_text, cell, row_view, table_text, Align, Cell, CellView, Rows};
use crate::tables::{heading, heading_cell, plain, plain_cell};

verus! {

/// The widest a column of the dashboard may be.
pub const DASHBOARD_WIDTH: usize = 80;

/// What was read from one device.
#[derive(Clone, Debug, PartialEq, Eq)]
pub enum Status {
    /// A PID controller: running state, process value and setpoint.
    Pid { running: bool, pv: String, sv: String },
    /// A relay board: the state of the device's relay.
    Relay(RelayState),
}

/// A device's name and what reading it gave.
#[derive(Debug, PartialEq, Eq)]
pub struct DashboardEntry {
    pub name: String,
    pub status: Result<Status, DriverError>,
}

pub open spec fn status_row(name: Seq<char>, st: Status) -> Seq<CellView> {
    match st {
        Status::Pid { running, pv, sv } => seq![
            plain_cell(name),
            plain_cell(bool_text(running)),
            plain_cell(pv@),
            plain_cell(sv@),
        ],
        Status::Relay(s) => seq![
            plain_cell(name),
            plain_cell(state_text(s)),
            plain_cell("N/A"@),
            plain_cell("N/A"@),
        ],
    }
}

/// The rows of the entries that were read.
pub open spec fn entry_rows(es: Seq<DashboardEntry>) -> Seq<Seq<CellView>> {
    es.map_values(
        |e: DashboardEntry|
            match e.status {
                Ok(st) => status_row(e.name@, st),
                Err(_) => Seq::empty(),
            },
    )
}

pub open spec fn all_read(es: Seq<DashboardEntry>) -> bool {
    forall|i: int| 0 <= i < es.len() ==> (#[trigger] es[i]).status is Ok
}

pub open spec fn dashboard_head(time: Seq<char>) -> Seq<Seq<CellView>> {
    seq![
        seq![(bold_text("Last Updated"@) + ": "@ + time, 4, Align::Right)],
        seq![
            heading_cell("Device"@),
            heading_cell("State"@),
            heading_cell("PV"@),
            heading_cell("SV"@),
        ],
    ]
}

fn status_cells(name: &String, st: &Status) -> (r: Vec<Cell>)
    ensures
        row_view(r) == status_row(name@, *st),
{
    let v = match st {
        Status::Pid { running, pv, sv } => {
            let state = String::from_str(if *running { "true" } else { "false" });
            vec![plain(name.clone()), plain(state), plain(pv.clone()), plain(sv.clone())]
        },
        Status::Relay(s) => {
            let state = String::from_str(
                match s {
                    RelayState::On => "On",
                    RelayState::Off => "Off",
                },
            );
            vec![
                plain(name.clone()),
                plain(state),
                plain(String::from_str("N/A")),
                plain(String::from_str("N/A")),
            ]
        },
    };
    assert(row_view(v) =~= status_row(name@, *st));
    v
}

/// Draws the dashboard, stamped with `time`, where every device was read;
/// otherwise gives the first failure in entry order.
pub fn render(time: &str, entries: &Vec<DashboardEntry>) -> (r: Result<String, DriverError>)
    ensures
        r is Ok <==> all_read(entries@),
        r matches Ok(t) ==> t@ == table_text(
            dashboard_head(time@) + entry_rows(entries@),
            DASHBOARD_WIDTH,
        ),
        r matches Err(e) ==> exists|i: int|
            0 <= i < entries@.len() && all_read(entries@.take(i)) && ((
            #[trigger] entries@[i]).status matches Err(f) && f.detail@ == e.detail@),
{
    let mut stamp = bold("Last Updated");
    stamp.append(": ");
    stamp.append(time);
    let first = vec![cell(stamp, 4, Align::Right)];
    assert(row_view(first) =~= dashboard_head(time@)[0]);
    let rows = Rows::new();
    let rows = rows.with(first);
    let second = vec![heading("Device"), heading("State"), heading("PV"), heading("SV")];
    assert(row_view(second) =~= dashboard_head(time@)[1]);
    let mut rows = rows.with(second);
    let ghost head = dashboard_head(time@);
    assert(rows@ =~= head);
    let mut i: usize = 0;
    while i < entries.len()
        invariant
            i <= entries@.len(),
            head == dashboard_head(time@),
            all_read(entries@.take(i as int)),
            rows@ == head + entry_rows(entries@.take(i as int)),
        decreases entries@.len() - i,
    {
        assert(entries@.take(i + 1) =~= entries@.take(i as int).push(entries@[i as int]));
        match &entries[i].status {
            Ok(st) => {
                let row = status_cells(&entries[i].name, st);
                rows = rows.with(row);
                assert(entry_rows(entries@.take(i + 1)) =~= entry_rows(entries@.take(i as int)).push(
                    row_view(row),
                ));
            },
            Err(e) => {
                assert(!all_read(entries@));
                return Err(DriverError { detail: e.detail.clone() });
            },
        }
        i = i + 1;
    }
    assert(entries@.take(entries@.len() as int) =~= entries@);
    Ok(rows.render(DASHBOARD_WIDTH))
}

} // verus!
