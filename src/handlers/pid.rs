//! Output of the PID-controller operations. Readings arrive as the text
//! that the driver's numbers print as.
use vstd::prelude::*;
use crate::device::Degree;
use crate::handlers::{
    acknowledge, error_line, error_text, failure, is_error, is_info, stringified, stringify, DriverError,
    Report,
};
use crate::params::Decimal;

verus! {

pub open spec fn bool_text(b: bool) -> Seq<char> {
    if b {
        "true"@
    } else {
        "false"@
    }
}

pub open spec fn flag_text(value: Result<bool, DriverError>) -> Seq<char> {
    match value {
        Ok(b) => bool_text(b),
        Err(e) => error_text(e.detail@),
    }
}

/// `{ PV: <pv>, SV: <sv>, Running: <running> }`, each field the value read
/// or the error that replaced it.
pub open spec fn snapshot_line(
    pv: Result<String, DriverError>,
    sv: Result<String, DriverError>,
    running: Result<bool, DriverError>,
) -> Seq<char> {
    "{ PV: "@ + stringified(pv) + ", SV: "@ + stringified(sv) + ", Running: "@ + flag_text(running)
        + " }"@
}

pub open spec fn degree_text(g: Degree) -> Seq<char> {
    match g {
        Degree::Fahrenheit => "Fahrenheit"@,
        Degree::Celsius => "Celsius"@,
    }
}

fn bool_str(b: bool) -> (r: &'static str)
    ensures
        r@ == bool_text(b),
{
    if b {
        "true"
    } else {
        "false"
    }
}

fn flag_string(value: &Result<bool, DriverError>) -> (r: String)
    ensures
        r@ == flag_text(*value),
{
    match value {
        Ok(b) => String::from_str(bool_str(*b)),
        Err(e) => error_line(e),
    }
}

fn snapshot(
    pv: Result<String, DriverError>,
    sv: Result<String, DriverError>,
    running: &Result<bool, DriverError>,
) -> (r: String)
    ensures
        r@ == snapshot_line(pv, sv, *running),
{
    let pv_text = stringify(pv);
    let sv_text = stringify(sv);
    let run_text = flag_string(running);
    let mut t = String::from_str("{ PV: ");
    t.append(pv_text.as_str());
    t.append(", SV: ");
    t.append(sv_text.as_str());
    t.append(", Running: ");
    t.append(run_text.as_str());
    t.append(" }");
    t
}

/// Reports the default read: process value, setpoint and running state on
/// one line. The line is a failure line where any of the three reads failed.
pub fn get_all(
    pv: Result<String, DriverError>,
    sv: Result<String, DriverError>,
    running: Result<bool, DriverError>,
) -> (r: Report)
    ensures
        report_kind_ok(r) == (pv is Ok && sv is Ok && running is Ok),
        crate::handlers::report_text(r) == snapshot_line(pv, sv, running),
{
    let all_ok = pv.is_ok() && sv.is_ok() && running.is_ok();
    let t = snapshot(pv, sv, &running);
    if all_ok {
        Report::Info(t)
    } else {
        Report::Error(t)
    }
}

/// Whether `r` is a success line.
pub open spec fn report_kind_ok(r: Report) -> bool {
    r is Info
}

fn reading(label: &str, value: &Result<String, DriverError>) -> (r: Report)
    ensures
        *value matches Ok(v) ==> is_info(r, label@ + v@),
        *value matches Err(e) ==> is_error(r, error_text(e.detail@)),
{
    match value {
        Ok(v) => {
            let mut t = String::from_str(label);
            t.append(v.as_str());
            Report::Info(t)
        },
        Err(e) => failure(e),
    }
}

/// Reports the process value.
pub fn get_pv(value: &Result<String, DriverError>) -> (r: Report)
    ensures
        *value matches Ok(v) ==> is_info(r, "PV: "@ + v@),
        *value matches Err(e) ==> is_error(r, error_text(e.detail@)),
{
    reading("PV: ", value)
}

/// Reports the setpoint.
pub fn get_sv(value: &Result<String, DriverError>) -> (r: Report)
    ensures
        *value matches Ok(v) ==> is_info(r, "SV: "@ + v@),
        *value matches Err(e) ==> is_error(r, error_text(e.detail@)),
{
    reading("SV: ", value)
}

/// Reports whether the controller is running.
pub fn is_running(value: &Result<bool, DriverError>) -> (r: Report)
    ensures
        *value matches Ok(b) ==> is_info(r, "Running: "@ + bool_text(b)),
        *value matches Err(e) ==> is_error(r, error_text(e.detail@)),
{
    match value {
        Ok(b) => {
            let mut t = String::from_str("Running: ");
            t.append(bool_str(*b));
            Report::Info(t)
        },
        Err(e) => failure(e),
    }
}

/// Reports the start of the controller.
pub fn run(result: &Result<(), DriverError>) -> (r: Report)
    ensures
        result is Ok ==> is_info(r, "Running"@),
        *result matches Err(e) ==> is_error(r, error_text(e.detail@)),
{
    acknowledge(result, String::from_str("Running"))
}

/// Reports the stop of the controller.
pub fn stop(result: &Result<(), DriverError>) -> (r: Report)
    ensures
        result is Ok ==> is_info(r, "Stopped"@),
        *result matches Err(e) ==> is_error(r, error_text(e.detail@)),
{
    acknowledge(result, String::from_str("Stopped"))
}

/// Reports the writing of setpoint `sv`, in the digits the user gave.
pub fn set_sv(sv: &Decimal, result: &Result<(), DriverError>) -> (r: Report)
    ensures
        result is Ok ==> is_info(r, "Setpoint set to "@ + sv@),
        *result matches Err(e) ==> is_error(r, error_text(e.detail@)),
{
    let mut t = String::from_str("Setpoint set to ");
    t.append(sv.text());
    acknowledge(result, t)
}

/// Reports the change of temperature unit.
pub fn set_degrees(unit: Degree, result: &Result<(), DriverError>) -> (r: Report)
    ensures
        result is Ok ==> is_info(r, "Degree mode set to "@ + degree_text(unit)),
        *result matches Err(e) ==> is_error(r, error_text(e.detail@)),
{
    let mut t = String::from_str("Degree mode set to ");
    let name = match unit {
        Degree::Fahrenheit => "Fahrenheit",
        Degree::Celsius => "Celsius",
    };
    t.append(name);
    acknowledge(result, t)
}

/// The readings of one cycle of a watch: the three values, or the failure to
/// connect to the controller at all.
pub type WatchReading = Result<
    (Result<String, DriverError>, Result<String, DriverError>, Result<bool, DriverError>),
    DriverError,
>;

/// What one cycle of a watch prints, and whether the watch ends there.
#[derive(Clone, Debug, PartialEq, Eq)]
pub struct WatchStep {
    pub report: Report,
    pub done: bool,
}

/// Decides one cycle of a watch from the time it was taken at and what was
/// read. A snapshot keeps the watch going; a failure to connect is reported
/// and ends it, without a retry.
pub fn watch(time: &str, reading: WatchReading) -> (r: WatchStep)
    ensures
        reading matches Ok((pv, sv, running)) ==> !r.done && is_info(
            r.report,
            time@ + "\t"@ + snapshot_line(pv, sv, running),
        ),
        reading matches Err(e) ==> r.done && is_error(r.report, error_text(e.detail@)),
{
    match reading {
        Ok((pv, sv, running)) => {
            let line = snapshot(pv, sv, &running);
            let mut t = String::from_str(time);
            t.append("\t");
            t.append(line.as_str());
            WatchStep { report: Report::Info(t), done: false }
        },
        Err(e) => WatchStep { report: failure(&e), done: true },
    }
}

} // verus!
