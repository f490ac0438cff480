use rtu_shell::device::{Degree, RelayState};
use rtu_shell::handlers::pid::{
    get_all, get_pv, get_sv, is_running, run, set_degrees, stop, watch, WatchStep,
};
use rtu_shell::handlers::relay::{get_cn, list_all, set_all, set_cn, software_revision};
use rtu_shell::handlers::{acknowledge, failure, DriverError, Report};

fn err(detail: &str) -> DriverError {
    DriverError { detail: detail.to_string() }
}

fn info(t: &str) -> Report {
    Report::Info(t.to_string())
}

fn error(t: &str) -> Report {
    Report::Error(t.to_string())
}

#[test]
fn stringify_values_and_errors() {
    assert_eq!(rtu_shell::handlers::stringify(Ok("118.3".to_string())), "118.3");
    assert_eq!(rtu_shell::handlers::stringify(Err(err("bus timeout"))), "Error: bus timeout");
    assert_eq!(failure(&err("nak")), error("Error: nak"));
    assert_eq!(acknowledge(&Ok(()), "done".to_string()), info("done"));
    assert_eq!(acknowledge(&Err(err("x")), "done".to_string()), error("Error: x"));
}

#[test]
fn list_all_reports_every_relay() {
    let r = list_all(&Ok(vec![RelayState::On, RelayState::Off, RelayState::On]));
    assert_eq!(
        r,
        vec![info("Relay 0: On"), info("Relay 1: Off"), info("Relay 2: On")]
    );
    assert_eq!(list_all(&Ok(Vec::new())), Vec::<Report>::new());
    assert_eq!(list_all(&Err(err("port busy"))), vec![error("Error: port busy")]);
    let many = list_all(&Ok(vec![RelayState::Off; 12]));
    assert_eq!(many[11], info("Relay 11: Off"));
}

#[test]
fn relay_board_reports() {
    assert_eq!(set_all(RelayState::On, &Ok(())), info("All relays: On"));
    assert_eq!(get_cn(&Ok(17)), info("Controller number: 17"));
    assert_eq!(get_cn(&Err(err("no answer"))), error("Error: no answer"));
    assert_eq!(
        set_cn(9, &Ok(())),
        info("Controller number set to 9. Update the configuration file and restart the shell.")
    );
    assert_eq!(set_cn(9, &Err(err("e"))), error("Error: e"));
    assert_eq!(software_revision(&Ok("v1.02".to_string())), info("Software revision: v1.02"));
}

#[test]
fn pid_reports() {
    assert_eq!(get_pv(&Ok("118.3".to_string())), info("PV: 118.3"));
    assert_eq!(get_sv(&Ok("65.5".to_string())), info("SV: 65.5"));
    assert_eq!(get_pv(&Err(err("t"))), error("Error: t"));
    assert_eq!(is_running(&Ok(true)), info("Running: true"));
    assert_eq!(run(&Ok(())), info("Running"));
    assert_eq!(stop(&Ok(())), info("Stopped"));
    assert_eq!(stop(&Err(err("s"))), error("Error: s"));
    assert_eq!(set_degrees(Degree::Celsius, &Ok(())), info("Degree mode set to Celsius"));
}

#[test]
fn get_all_reports_one_line() {
    assert_eq!(
        get_all(Ok("118.3".to_string()), Ok("120".to_string()), Ok(false)),
        info("{ PV: 118.3, SV: 120, Running: false }")
    );
    assert_eq!(
        get_all(Ok("118.3".to_string()), Err(err("busy")), Ok(true)),
        error("{ PV: 118.3, SV: Error: busy, Running: true }")
    );
}

#[test]
fn watch_continues_until_connection_fails() {
    let step = watch(
        "12:00:05",
        Ok((Ok("100.1".to_string()), Ok("101".to_string()), Ok(true))),
    );
    assert_eq!(
        step,
        WatchStep {
            report: info("12:00:05\t{ PV: 100.1, SV: 101, Running: true }"),
            done: false
        }
    );
    let step = watch("12:00:10", Err(err("port gone")));
    assert_eq!(step, WatchStep { report: error("Error: port gone"), done: true });
    assert_eq!(step.report.text(), "Error: port gone");
}
