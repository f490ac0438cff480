//! The command router: from a shell line's arguments to one driver
//! operation, or to a reported error.
//!
//! `args[0]` names the device; what follows is decided by the number of
//! arguments. One argument asks for the device kind's default read; two give
//! a state literal (relay boards only) or a named sub-command; three give a
//! sub-command and its parameter; more are refused.
use vstd::prelude::*;
use crate::device::{Degree, Device, DriverKind, RelayState};
use crate::params::{
    controller_number, degree_literal, is_decimal_literal, parse_controller_number, parse_degree,
    parse_state, state_literal, Decimal,
};
use crate::handlers::relay::relay_reported;
use crate::handlers::{report_text, DriverError, Report};
use crate::registry::{has_id, Registry};
use crate::text::{decimal_text, number_text, same_text};

verus! {

/// One operation of the outside driver, as the router selected it.
#[derive(Clone, Debug, PartialEq, Eq)]
pub enum DriverOp {
    /// Read the state of the relay at this index.
    GetRelay(u8),
    /// Switch the relay at this index.
    SetRelay(u8, RelayState),
    /// Read every relay on the device's controller.
    ListAll,
    /// Switch every relay on the device's controller.
    SetAll(RelayState),
    /// Ask the board which controller number it answers to.
    GetControllerNumber,
    /// Give the board a new controller number.
    SetControllerNumber(u8),
    /// Read the board's software revision.
    SoftwareRevision,
    /// Read process value, setpoint and running state together.
    ReadAll,
    /// Read the process value.
    GetPv,
    /// Read the setpoint.
    GetSv,
    /// Read whether the controller is running.
    IsRunning,
    /// Start the controller.
    Run,
    /// Stop the controller.
    Stop,
    /// Write a new setpoint.
    SetSetpoint(Decimal),
    /// Change the temperature unit.
    SetDegrees(Degree),
    /// Poll and print readings until cancelled.
    Watch,
}

/// Why a command line was not turned into a driver operation.
#[derive(Clone, Debug, PartialEq, Eq)]
pub enum CommandError {
    /// The line held no arguments at all.
    EmptyCommand,
    /// No configured device has this identifier.
    UnresolvedDevice(String),
    /// The line held this many arguments, more than any command takes.
    TooManyArguments(usize),
    /// The device kind has no sub-command of this name.
    UnknownSubcommand(String),
    /// The parameter of a sub-command could not be read.
    BadParameter { subcommand: String, literal: String },
}

/// How a command error reads.
pub open spec fn error_message(e: CommandError) -> Seq<char> {
    match e {
        CommandError::EmptyCommand => "No command given"@,
        CommandError::UnresolvedDevice(id) => "Unknown device: "@ + id@,
        CommandError::TooManyArguments(n) => "Too many arguments: "@ + decimal_text(n as nat),
        CommandError::UnknownSubcommand(name) => "Unknown sub-command: "@ + name@,
        CommandError::BadParameter { subcommand, literal } => "Cannot read `"@ + literal@
            + "` as the parameter of "@ + subcommand@,
    }
}

impl CommandError {
    /// The diagnostic line for this error.
    pub fn message(&self) -> (r: String)
        ensures
            r@ == error_message(*self),
    {
        match self {
            CommandError::EmptyCommand => String::from_str("No command given"),
            CommandError::UnresolvedDevice(id) => {
                let mut t = String::from_str("Unknown device: ");
                t.append(id.as_str());
                t
            },
            CommandError::TooManyArguments(n) => {
                let mut t = String::from_str("Too many arguments: ");
                let num = number_text(*n as u64);
                t.append(num.as_str());
                t
            },
            CommandError::UnknownSubcommand(name) => {
                let mut t = String::from_str("Unknown sub-command: ");
                t.append(name.as_str());
                t
            },
            CommandError::BadParameter { subcommand, literal } => {
                let mut t = String::from_str("Cannot read `");
                t.append(literal.as_str());
                t.append("` as the parameter of ");
                t.append(subcommand.as_str());
                t
            },
        }
    }
}

/// What the router decided for one command line.
#[derive(Clone, Debug, PartialEq, Eq)]
pub enum DispatchOutcome {
    /// Perform this driver operation on the resolved device.
    Call(DriverOp),
    /// Report this error; no driver operation is performed.
    Error(CommandError),
}

/// The text of each argument.
pub open spec fn arg_views(args: Seq<String>) -> Seq<Seq<char>> {
    args.map_values(|a: String| a@)
}

/// The read that a device kind performs when no sub-command is given.
pub open spec fn default_op(kind: DriverKind, addr: u8) -> DriverOp {
    if kind.is_relay() {
        DriverOp::GetRelay(addr)
    } else {
        DriverOp::ReadAll
    }
}

/// The sub-commands that take no parameter, per device kind.
pub open spec fn named_op(kind: DriverKind, name: Seq<char>) -> Option<DriverOp> {
    if kind.is_relay() {
        if name == "list_all"@ {
            Some(DriverOp::ListAll)
        } else if name == "get_cn"@ {
            Some(DriverOp::GetControllerNumber)
        } else if name == "software_revision"@ {
            Some(DriverOp::SoftwareRevision)
        } else {
            None
        }
    } else {
        if name == "pv"@ {
            Some(DriverOp::GetPv)
        } else if name == "sv"@ {
            Some(DriverOp::GetSv)
        } else if name == "is_running"@ {
            Some(DriverOp::IsRunning)
        } else if name == "run"@ {
            Some(DriverOp::Run)
        } else if name == "stop"@ {
            Some(DriverOp::Stop)
        } else if name == "watch"@ {
            Some(DriverOp::Watch)
        } else {
            None
        }
    }
}

/// `r` reports that `name` is not a sub-command of the device.
pub open spec fn is_unknown_subcommand(r: DispatchOutcome, name: Seq<char>) -> bool {
    r matches DispatchOutcome::Error(CommandError::UnknownSubcommand(s)) && s@ == name
}

/// `r` reports that `literal` is not a valid parameter of `name`.
pub open spec fn is_bad_parameter(r: DispatchOutcome, name: Seq<char>, literal: Seq<char>) -> bool {
    r matches DispatchOutcome::Error(CommandError::BadParameter { subcommand, literal: l })
        && subcommand@ == name && l@ == literal
}

/// What a sub-command with one parameter decides.
pub open spec fn one_param_spec(
    kind: DriverKind,
    name: Seq<char>,
    p: Seq<char>,
    r: DispatchOutcome,
) -> bool {
    if kind.is_relay() && name == "set_all"@ {
        match state_literal(p) {
            Some(st) => r == DispatchOutcome::Call(DriverOp::SetAll(st)),
            None => is_bad_parameter(r, name, p),
        }
    } else if kind.is_relay() && name == "set_cn"@ {
        match controller_number(p) {
            Some(cn) => r == DispatchOutcome::Call(DriverOp::SetControllerNumber(cn)),
            None => is_bad_parameter(r, name, p),
        }
    } else if !kind.is_relay() && name == "set"@ {
        if is_decimal_literal(p) {
            r matches DispatchOutcome::Call(DriverOp::SetSetpoint(d)) && d@ == p
        } else {
            is_bad_parameter(r, name, p)
        }
    } else if !kind.is_relay() && name == "degrees"@ {
        match degree_literal(p) {
            Some(g) => r == DispatchOutcome::Call(DriverOp::SetDegrees(g)),
            None => is_bad_parameter(r, name, p),
        }
    } else {
        is_unknown_subcommand(r, name)
    }
}

/// What dispatching `args` to a device of kind `kind` at relay index `addr`
/// decides.
pub open spec fn dispatch_spec(
    kind: DriverKind,
    addr: u8,
    args: Seq<Seq<char>>,
    r: DispatchOutcome,
) -> bool {
    if args.len() == 0 {
        r == DispatchOutcome::Error(CommandError::EmptyCommand)
    } else if args.len() == 1 {
        r == DispatchOutcome::Call(default_op(kind, addr))
    } else if args.len() == 2 {
        if kind.is_relay() && state_literal(args[1]) is Some {
            r == DispatchOutcome::Call(DriverOp::SetRelay(addr, state_literal(args[1])->Some_0))
        } else {
            match named_op(kind, args[1]) {
                Some(op) => r == DispatchOutcome::Call(op),
                None => is_unknown_subcommand(r, args[1]),
            }
        }
    } else if args.len() == 3 {
        one_param_spec(kind, args[1], args[2], r)
    } else {
        r == DispatchOutcome::Error(CommandError::TooManyArguments(args.len() as usize))
    }
}

/// What routing `args` through a registry holding `devs` decides.
pub open spec fn route_spec(devs: Seq<Device>, args: Seq<Seq<char>>, r: DispatchOutcome) -> bool {
    if args.len() == 0 {
        r == DispatchOutcome::Error(CommandError::EmptyCommand)
    } else if !has_id(devs, args[0]) {
        r matches DispatchOutcome::Error(CommandError::UnresolvedDevice(id)) && id@ == args[0]
    } else {
        exists|i: int|
            0 <= i < devs.len() && (#[trigger] devs[i]).id@ == args[0] && dispatch_spec(
                devs[i].kind,
                devs[i].addr,
                args,
                r,
            )
    }
}

fn default_op_of(kind: DriverKind, addr: u8) -> (r: DriverOp)
    ensures
        r == default_op(kind, addr),
{
    if kind.is_relay() {
        DriverOp::GetRelay(addr)
    } else {
        DriverOp::ReadAll
    }
}

fn named_op_of(kind: DriverKind, name: &str) -> (r: Option<DriverOp>)
    ensures
        r == named_op(kind, name@),
{
    if kind.is_relay() {
        if same_text(name, "list_all") {
            Some(DriverOp::ListAll)
        } else if same_text(name, "get_cn") {
            Some(DriverOp::GetControllerNumber)
        } else if same_text(name, "software_revision") {
            Some(DriverOp::SoftwareRevision)
        } else {
            None
        }
    } else {
        if same_text(name, "pv") {
            Some(DriverOp::GetPv)
        } else if same_text(name, "sv") {
            Some(DriverOp::GetSv)
        } else if same_text(name, "is_running") {
            Some(DriverOp::IsRunning)
        } else if same_text(name, "run") {
            Some(DriverOp::Run)
        } else if same_text(name, "stop") {
            Some(DriverOp::Stop)
        } else if same_text(name, "watch") {
            Some(DriverOp::Watch)
        } else {
            None
        }
    }
}

fn bad_parameter(name: &str, p: &str) -> (r: DispatchOutcome)
    ensures
        is_bad_parameter(r, name@, p@),
{
    DispatchOutcome::Error(
        CommandError::BadParameter { subcommand: String::from_str(name), literal: String::from_str(p) },
    )
}

fn one_param(kind: DriverKind, name: &str, p: &str) -> (r: DispatchOutcome)
    ensures
        one_param_spec(kind, name@, p@, r),
{
    if kind.is_relay() && same_text(name, "set_all") {
        match parse_state(p) {
            Some(st) => DispatchOutcome::Call(DriverOp::SetAll(st)),
            None => bad_parameter(name, p),
        }
    } else if kind.is_relay() && same_text(name, "set_cn") {
        match parse_controller_number(p) {
            Some(cn) => DispatchOutcome::Call(DriverOp::SetControllerNumber(cn)),
            None => bad_parameter(name, p),
        }
    } else if !kind.is_relay() && same_text(name, "set") {
        match Decimal::parse(p) {
            Some(d) => DispatchOutcome::Call(DriverOp::SetSetpoint(d)),
            None => bad_parameter(name, p),
        }
    } else if !kind.is_relay() && same_text(name, "degrees") {
        match parse_degree(p) {
            Some(g) => DispatchOutcome::Call(DriverOp::SetDegrees(g)),
            None => bad_parameter(name, p),
        }
    } else {
        DispatchOutcome::Error(CommandError::UnknownSubcommand(String::from_str(name)))
    }
}

/// Decides what the command line `args` asks of `device`. Never touches the
/// device itself: a `Call` names the one driver operation to perform, an
/// `Error` says why none is.
pub fn dispatch(device: &Device, args: &Vec<String>) -> (r: DispatchOutcome)
    ensures
        dispatch_spec(device.kind, device.addr, arg_views(args@), r),
{
    let ghost a = arg_views(args@);
    let n = args.len();
    if n == 0 {
        return DispatchOutcome::Error(CommandError::EmptyCommand);
    }
    if n == 1 {
        return DispatchOutcome::Call(default_op_of(device.kind, device.addr));
    }
    assert(a[1] == args@[1]@);
    if n == 2 {
        let sub = args[1].as_str();
        if device.kind.is_relay() {
            if let Some(st) = parse_state(sub) {
                return DispatchOutcome::Call(DriverOp::SetRelay(device.addr, st));
            }
        }
        return match named_op_of(device.kind, sub) {
            Some(op) => DispatchOutcome::Call(op),
            None => DispatchOutcome::Error(CommandError::UnknownSubcommand(String::from_str(sub))),
        };
    }
    if n == 3 {
        assert(a[2] == args@[2]@);
        return one_param(device.kind, args[1].as_str(), args[2].as_str());
    }
    DispatchOutcome::Error(CommandError::TooManyArguments(n))
}

/// Resolves the device that `args[0]` names in `registry` and dispatches
/// the line to it. An identifier that no device has is reported, not fatal.
pub fn route(registry: &Registry, args: &Vec<String>) -> (r: DispatchOutcome)
    ensures
        route_spec(registry@, arg_views(args@), r),
{
    let ghost a = arg_views(args@);
    if args.len() == 0 {
        return DispatchOutcome::Error(CommandError::EmptyCommand);
    }
    assert(a[0] == args@[0]@);
    match registry.resolve(args[0].as_str()) {
        None => DispatchOutcome::Error(CommandError::UnresolvedDevice(args[0].clone())),
        Some(device) => dispatch(device, args),
    }
}

/// On a relay board, a second argument that reads as a state literal
/// switches the device's relay, whatever sub-command might share its
/// spelling.
pub proof fn lemma_state_literal_wins(
    kind: DriverKind,
    addr: u8,
    args: Seq<Seq<char>>,
    r: DispatchOutcome,
)
    requires
        dispatch_spec(kind, addr, args, r),
        kind.is_relay(),
        args.len() == 2,
        state_literal(args[1]) is Some,
    ensures
        r == DispatchOutcome::Call(DriverOp::SetRelay(addr, state_literal(args[1])->Some_0)),
{
}

/// A line of more than three arguments is an error for every device kind,
/// and selects no driver operation.
pub proof fn lemma_too_many_arguments(
    kind: DriverKind,
    addr: u8,
    args: Seq<Seq<char>>,
    r: DispatchOutcome,
)
    requires
        dispatch_spec(kind, addr, args, r),
        args.len() > 3,
    ensures
        r is Error,
        r == DispatchOutcome::Error(CommandError::TooManyArguments(args.len() as usize)),
{
}

/// Routing a line of more than three arguments never selects a driver
/// operation, whether or not its device is configured.
pub proof fn lemma_route_too_many_arguments(devs: Seq<Device>, args: Seq<Seq<char>>, r: DispatchOutcome)
    requires
        route_spec(devs, args, r),
        args.len() > 3,
    ensures
        r is Error,
{
    if has_id(devs, args[0]) {
        let i = choose|i: int|
            0 <= i < devs.len() && (#[trigger] devs[i]).id@ == args[0] && dispatch_spec(
                devs[i].kind,
                devs[i].addr,
                args,
                r,
            );
        lemma_too_many_arguments(devs[i].kind, devs[i].addr, args, r);
    }
}

/// A parameter that a numeric or state sub-command cannot read is reported
/// together with the literal, and selects no driver operation.
pub proof fn lemma_unreadable_parameter(
    kind: DriverKind,
    addr: u8,
    args: Seq<Seq<char>>,
    r: DispatchOutcome,
)
    requires
        dispatch_spec(kind, addr, args, r),
        args.len() == 3,
        (kind.is_relay() && args[1] == "set_cn"@ && controller_number(args[2]) is None) || (
        kind.is_relay() && args[1] == "set_all"@ && state_literal(args[2]) is None) || (
        !kind.is_relay() && args[1] == "set"@ && !is_decimal_literal(args[2])),
    ensures
        r is Error,
        is_bad_parameter(r, args[1], args[2]),
{
    reveal_strlit("set_cn");
    reveal_strlit("set_all");
}

/// Reading a relay board's device twice with no switching in between selects
/// the same read of the same relay both times, and equal answers are
/// reported alike.
pub proof fn lemma_repeated_read(
    kind: DriverKind,
    addr: u8,
    args: Seq<Seq<char>>,
    r1: DispatchOutcome,
    r2: DispatchOutcome,
    read1: Result<RelayState, DriverError>,
    read2: Result<RelayState, DriverError>,
    rep1: Report,
    rep2: Report,
)
    requires
        kind.is_relay(),
        args.len() == 1,
        dispatch_spec(kind, addr, args, r1),
        dispatch_spec(kind, addr, args, r2),
        read1 is Ok,
        read1 == read2,
        relay_reported(addr, read1, rep1),
        relay_reported(addr, read2, rep2),
    ensures
        r1 == r2,
        r1 == DispatchOutcome::Call(DriverOp::GetRelay(addr)),
        rep1 is Info && rep2 is Info,
        report_text(rep1) == report_text(rep2),
{
}

} // verus!
