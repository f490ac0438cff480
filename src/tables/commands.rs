//! The table of the shell's commands. All of it is fixed text.
use vstd::prelude::*;
use crate::table::{row_view, table_text, CellView, Rows};
use crate::tables::{cmd, cmd_row, heading, heading_cell, title, title_cell};

verus! {

/// The widest a column of the commands table may be.
pub const COMMANDS_WIDTH: usize = 80;

/// A section's title row and its heading row.
pub open spec fn section_head(t: Seq<char>) -> Seq<Seq<CellView>> {
    seq![seq![title_cell(t, 2)], seq![heading_cell("Command"@), heading_cell("Help"@)]]
}

pub open spec fn general_rows() -> Seq<Seq<CellView>> {
    section_head("General Commands"@) + seq![
        cmd_row("help"@, "displays help information."@),
        cmd_row("quit"@, "quits the shell"@),
        cmd_row("exit"@, "exits the shell"@),
        cmd_row("commands"@, "lists the commands page (this page)"@),
        cmd_row("devices"@, "list all configured devices"@),
        cmd_row("time"@, "prints the current time"@),
        cmd_row("dashboard"@, "view a dashboard of all device states"@),
    ]
}

pub open spec fn relay_rows() -> Seq<Seq<CellView>> {
    section_head("Relay Board Commands"@) + seq![
        cmd_row("[relayID]"@, "Gets a relay status"@),
        cmd_row(
            "[relayID] list_all"@,
            "Lists states of this and all the neighboring relays on this controller"@,
        ),
        cmd_row("[relayID] [On|Off|1|0]"@, "Turns a relay on or off"@),
        cmd_row(
            "[relayID] set_all [On|Off]"@,
            "Sets this and all the neighboring relays on this controller"@,
        ),
        cmd_row(
            "[relayID] get_cn"@,
            "Asks the board which controller number it is set to, whatever the configuration says"@,
        ),
        cmd_row(
            "[relayID] set_cn [0-254]"@,
            "Sets a new controller number for this controller. Update the configuration file afterwards"@,
        ),
        cmd_row(
            "[relayID] software_revision"@,
            "Lists the software revision currently on the board"@,
        ),
    ]
}

pub open spec fn pid_rows() -> Seq<Seq<CellView>> {
    section_head("PID Controller Commands"@) + seq![
        cmd_row("[deviceID]"@, "Gets the PV, SV, and running state of the controller"@),
        cmd_row("[deviceID] pv"@, "Gets the Process Value (actual)"@),
        cmd_row("[deviceID] sv"@, "Gets the Setpoint Value (target)"@),
        cmd_row("[deviceID] set [#.#]"@, "Sets the SV. Use a decimal number"@),
        cmd_row("[deviceID] is_running"@, "Returns whether the controller is running"@),
        cmd_row("[deviceID] run"@, "Starts the controller"@),
        cmd_row("[deviceID] stop"@, "Stops the controller"@),
        cmd_row("[deviceID] degrees [F|C]"@, "Sets degree units to F or C"@),
        cmd_row(
            "[deviceID] watch"@,
            "Prints the PV and SV every few seconds until you quit"@,
        ),
    ]
}

/// Every row of the commands table, section by section.
pub open spec fn command_rows() -> Seq<Seq<CellView>> {
    general_rows() + relay_rows() + pid_rows()
}

fn section(rows: Rows, t: &str) -> (r: Rows)
    ensures
        r@ == rows@ + section_head(t@),
{
    let ghost start = rows@;
    let first = vec![title(t, 2)];
    assert(row_view(first) =~= seq![title_cell(t@, 2)]);
    let rows = rows.with(first);
    let second = vec![heading("Command"), heading("Help")];
    assert(row_view(second) =~= seq![heading_cell("Command"@), heading_cell("Help"@)]);
    let rows = rows.with(second);
    assert(rows@ =~= start + section_head(t@));
    rows
}

/// Adds the general commands.
fn general_commands(rows: Rows) -> (r: Rows)
    ensures
        r@ == rows@ + general_rows(),
{
    let ghost start = rows@;
    let rows = section(rows, "General Commands");
    let rows = cmd(rows, "help", "displays help information.");
    let rows = cmd(rows, "quit", "quits the shell");
    let rows = cmd(rows, "exit", "exits the shell");
    let rows = cmd(rows, "commands", "lists the commands page (this page)");
    let rows = cmd(rows, "devices", "list all configured devices");
    let rows = cmd(rows, "time", "prints the current time");
    let rows = cmd(rows, "dashboard", "view a dashboard of all device states");
    assert(rows@ =~= start + general_rows());
    rows
}

/// Adds the commands of both relay-board families.
fn relay_commands(rows: Rows) -> (r: Rows)
    ensures
        r@ == rows@ + relay_rows(),
{
    let ghost start = rows@;
    let rows = section(rows, "Relay Board Commands");
    let rows = cmd(rows, "[relayID]", "Gets a relay status");
    let rows = cmd(
        rows,
        "[relayID] list_all",
        "Lists states of this and all the neighboring relays on this controller",
    );
    let rows = cmd(rows, "[relayID] [On|Off|1|0]", "Turns a relay on or off");
    let rows = cmd(
        rows,
        "[relayID] set_all [On|Off]",
        "Sets this and all the neighboring relays on this controller",
    );
    let rows = cmd(
        rows,
        "[relayID] get_cn",
        "Asks the board which controller number it is set to, whatever the configuration says",
    );
    let rows = cmd(
        rows,
        "[relayID] set_cn [0-254]",
        "Sets a new controller number for this controller. Update the configuration file afterwards",
    );
    let rows = cmd(
        rows,
        "[relayID] software_revision",
        "Lists the software revision currently on the board",
    );
    assert(rows@ =~= start + relay_rows());
    rows
}

/// Adds the PID controller commands.
fn pid_commands(rows: Rows) -> (r: Rows)
    ensures
        r@ == rows@ + pid_rows(),
{
    let ghost start = rows@;
    let rows = section(rows, "PID Controller Commands");
    let rows = cmd(rows, "[deviceID]", "Gets the PV, SV, and running state of the controller");
    let rows = cmd(rows, "[deviceID] pv", "Gets the Process Value (actual)");
    let rows = cmd(rows, "[deviceID] sv", "Gets the Setpoint Value (target)");
    let rows = cmd(rows, "[deviceID] set [#.#]", "Sets the SV. Use a decimal number");
    let rows = cmd(rows, "[deviceID] is_running", "Returns whether the controller is running");
    let rows = cmd(rows, "[deviceID] run", "Starts the controller");
    let rows = cmd(rows, "[deviceID] stop", "Stops the controller");
    let rows = cmd(rows, "[deviceID] degrees [F|C]", "Sets degree units to F or C");
    let rows = cmd(
        rows,
        "[deviceID] watch",
        "Prints the PV and SV every few seconds until you quit",
    );
    assert(rows@ =~= start + pid_rows());
    rows
}

/// Draws the commands table.
pub fn render() -> (r: String)
    ensures
        r@ == table_text(command_rows(), COMMANDS_WIDTH),
{
    let rows = Rows::new();
    let rows = general_commands(rows);
    let rows = relay_commands(rows);
    let rows = pid_commands(rows);
    assert(rows@ =~= command_rows());
    rows.render(COMMANDS_WIDTH)
}

} // verus!
