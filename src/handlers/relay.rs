//! Output of the relay-board operations (both board families).
use vstd::prelude::*;
use crate::device::RelayState;
use crate::handlers::{acknowledge, error_text, failure, is_error, is_info, DriverError, Report};
use crate::text::{decimal_text, number_text};

verus! {

pub open spec fn state_text(s: RelayState) -> Seq<char> {
    match s {
        RelayState::On => "On"@,
        RelayState::Off => "Off"@,
    }
}

/// `Relay <index>: <state>`.
pub open spec fn relay_line(index: nat, s: RelayState) -> Seq<char> {
    "Relay "@ + decimal_text(index) + ": "@ + state_text(s)
}

pub open spec fn all_relays_line(s: RelayState) -> Seq<char> {
    "All relays: "@ + state_text(s)
}

pub open spec fn controller_number_line(cn: u8) -> Seq<char> {
    "Controller number: "@ + decimal_text(cn as nat)
}

/// A new controller number is not written back to the configuration: the
/// line reminds the user to do so.
pub open spec fn new_controller_number_line(cn: u8) -> Seq<char> {
    "Controller number set to "@ + decimal_text(cn as nat)
        + ". Update the configuration file and restart the shell."@
}

pub open spec fn revision_line(rev: Seq<char>) -> Seq<char> {
    "Software revision: "@ + rev
}

fn state_str(s: RelayState) -> (r: &'static str)
    ensures
        r@ == state_text(s),
{
    match s {
        RelayState::On => "On",
        RelayState::Off => "Off",
    }
}

fn relay_text(index: u64, s: RelayState) -> (r: String)
    ensures
        r@ == relay_line(index as nat, s),
{
    let mut t = String::from_str("Relay ");
    let num = number_text(index);
    t.append(num.as_str());
    t.append(": ");
    t.append(state_str(s));
    t
}

/// `r` reports `result`, the state read from the relay at `addr`.
pub open spec fn relay_reported(addr: u8, result: Result<RelayState, DriverError>, r: Report) -> bool {
    &&& result matches Ok(s) ==> is_info(r, relay_line(addr as nat, s))
    &&& result matches Err(e) ==> is_error(r, error_text(e.detail@))
}

/// Reports the state read from the relay at `addr`.
pub fn get_relay(addr: u8, result: &Result<RelayState, DriverError>) -> (r: Report)
    ensures
        relay_reported(addr, *result, r),
{
    match result {
        Ok(s) => Report::Info(relay_text(addr as u64, *s)),
        Err(e) => failure(e),
    }
}

/// Reports every relay of a controller, one line each, in index order.
pub fn list_all(result: &Result<Vec<RelayState>, DriverError>) -> (r: Vec<Report>)
    ensures
        *result matches Ok(states) ==> r@.len() == states@.len() && forall|i: int|
            0 <= i < states@.len() ==> is_info(#[trigger] r@[i], relay_line(i as nat, states@[i])),
        *result matches Err(e) ==> r@.len() == 1 && is_error(r@[0], error_text(e.detail@)),
{
    match result {
        Ok(states) => {
            let mut out: Vec<Report> = Vec::new();
            let mut i: usize = 0;
            while i < states.len()
                invariant
                    i <= states@.len(),
                    out@.len() == i,
                    forall|k: int|
                        0 <= k < i ==> is_info(#[trigger] out@[k], relay_line(k as nat, states@[k])),
                decreases states@.len() - i,
            {
                out.push(Report::Info(relay_text(i as u64, states[i])));
                i = i + 1;
            }
            out
        },
        Err(e) => vec![failure(e)],
    }
}

/// Reports the switching of the relay at `addr` to `state`.
pub fn set_relay(addr: u8, state: RelayState, result: &Result<(), DriverError>) -> (r: Report)
    ensures
        result is Ok ==> is_info(r, relay_line(addr as nat, state)),
        *result matches Err(e) ==> is_error(r, error_text(e.detail@)),
{
    acknowledge(result, relay_text(addr as u64, state))
}

/// Reports the switching of all relays of a controller to `state`.
pub fn set_all(state: RelayState, result: &Result<(), DriverError>) -> (r: Report)
    ensures
        result is Ok ==> is_info(r, all_relays_line(state)),
        *result matches Err(e) ==> is_error(r, error_text(e.detail@)),
{
    let mut t = String::from_str("All relays: ");
    t.append(state_str(state));
    acknowledge(result, t)
}

/// Reports the controller number that the board answered with.
pub fn get_cn(result: &Result<u8, DriverError>) -> (r: Report)
    ensures
        *result matches Ok(cn) ==> is_info(r, controller_number_line(cn)),
        *result matches Err(e) ==> is_error(r, error_text(e.detail@)),
{
    match result {
        Ok(cn) => {
            let mut t = String::from_str("Controller number: ");
            let num = number_text(*cn as u64);
            t.append(num.as_str());
            Report::Info(t)
        },
        Err(e) => failure(e),
    }
}

/// Reports the programming of controller number `new_cn`.
pub fn set_cn(new_cn: u8, result: &Result<(), DriverError>) -> (r: Report)
    ensures
        result is Ok ==> is_info(r, new_controller_number_line(new_cn)),
        *result matches Err(e) ==> is_error(r, error_text(e.detail@)),
{
    let mut t = String::from_str("Controller number set to ");
    let num = number_text(new_cn as u64);
    t.append(num.as_str());
    t.append(". Update the configuration file and restart the shell.");
    acknowledge(result, t)
}

/// Reports the board's software revision.
pub fn software_revision(result: &Result<String, DriverError>) -> (r: Report)
    ensures
        *result matches Ok(rev) ==> is_info(r, revision_line(rev@)),
        *result matches Err(e) ==> is_error(r, error_text(e.detail@)),
{
    match result {
        Ok(rev) => {
            let mut t = String::from_str("Software revision: ");
            t.append(rev.as_str());
            Report::Info(t)
        },
        Err(e) => failure(e),
    }
}

} // verus!
