use rtu_shell::device::{Degree, Device, DriverKind, RelayState};
use rtu_shell::handlers::relay::{get_relay, set_relay};
use rtu_shell::handlers::pid::set_sv;
use rtu_shell::handlers::Report;
use rtu_shell::registry::{ConfigError, Registry};
use rtu_shell::router::{dispatch, route, CommandError, DispatchOutcome, DriverOp};

fn device(id: &str, kind: DriverKind, controller_addr: u8, addr: u8) -> Device {
    Device {
        id: id.to_string(),
        name: format!("{} device", id),
        kind,
        controller_addr,
        addr,
        port: "/dev/ttyUSB0".to_string(),
        baudrate: 9600,
        timeout_ms: 200,
    }
}

fn registry() -> Registry {
    Registry::new(vec![
        device("relay1", DriverKind::RelayBoardA, 5, 2),
        device("relay2", DriverKind::RelayBoardB, 3, 7),
        device("tank1", DriverKind::PidController, 22, 0),
    ])
    .unwrap()
}

fn args(items: &[&str]) -> Vec<String> {
    items.iter().map(|s| s.to_string()).collect()
}

fn bad(sub: &str, lit: &str) -> DispatchOutcome {
    DispatchOutcome::Error(CommandError::BadParameter {
        subcommand: sub.to_string(),
        literal: lit.to_string(),
    })
}

#[test]
fn relay_on_switches_relay() {
    let reg = registry();
    let r = route(&reg, &args(&["relay1", "on"]));
    assert_eq!(r, DispatchOutcome::Call(DriverOp::SetRelay(2, RelayState::On)));
    let report = set_relay(2, RelayState::On, &Ok(()));
    assert_eq!(report, Report::Info("Relay 2: On".to_string()));
}

#[test]
fn tank_set_writes_setpoint() {
    let reg = registry();
    match route(&reg, &args(&["tank1", "set", "65.5"])) {
        DispatchOutcome::Call(DriverOp::SetSetpoint(d)) => {
            assert_eq!(d.text(), "65.5");
            let report = set_sv(&d, &Ok(()));
            assert_eq!(report, Report::Info("Setpoint set to 65.5".to_string()));
        }
        other => panic!("unexpected outcome {:?}", other),
    }
}

#[test]
fn tank_set_abc_is_parse_error() {
    let reg = registry();
    let r = route(&reg, &args(&["tank1", "set", "abc"]));
    assert_eq!(r, bad("set", "abc"));
    if let DispatchOutcome::Error(e) = r {
        assert_eq!(e.message(), "Cannot read `abc` as the parameter of set");
    }
}

#[test]
fn unknown_device_is_unresolved() {
    let reg = registry();
    let r = route(&reg, &args(&["unknown_device", "anything"]));
    assert_eq!(
        r,
        DispatchOutcome::Error(CommandError::UnresolvedDevice("unknown_device".to_string()))
    );
    if let DispatchOutcome::Error(e) = r {
        assert_eq!(e.message(), "Unknown device: unknown_device");
    }
}

#[test]
fn state_literals_shadow_subcommands() {
    let reg = registry();
    for (lit, st) in [
        ("on", RelayState::On),
        ("ON", RelayState::On),
        ("On", RelayState::On),
        ("1", RelayState::On),
        ("off", RelayState::Off),
        ("OFF", RelayState::Off),
        ("oFf", RelayState::Off),
        ("0", RelayState::Off),
    ] {
        assert_eq!(
            route(&reg, &args(&["relay1", lit])),
            DispatchOutcome::Call(DriverOp::SetRelay(2, st))
        );
        assert_eq!(
            route(&reg, &args(&["relay2", lit])),
            DispatchOutcome::Call(DriverOp::SetRelay(7, st))
        );
    }
}

#[test]
fn too_many_arguments_for_every_kind() {
    let reg = registry();
    for id in ["relay1", "relay2", "tank1"] {
        assert_eq!(
            route(&reg, &args(&[id, "set_cn", "4", "extra"])),
            DispatchOutcome::Error(CommandError::TooManyArguments(4))
        );
        assert_eq!(
            route(&reg, &args(&[id, "a", "b", "c", "d"])),
            DispatchOutcome::Error(CommandError::TooManyArguments(5))
        );
    }
    assert_eq!(
        CommandError::TooManyArguments(12).message(),
        "Too many arguments: 12"
    );
}

#[test]
fn unreadable_parameters_are_reported() {
    let reg = registry();
    assert_eq!(route(&reg, &args(&["relay1", "set_cn", "abc"])), bad("set_cn", "abc"));
    assert_eq!(route(&reg, &args(&["relay1", "set_cn", "255"])), bad("set_cn", "255"));
    assert_eq!(route(&reg, &args(&["relay1", "set_cn", ""])), bad("set_cn", ""));
    assert_eq!(route(&reg, &args(&["relay2", "set_cn", "-1"])), bad("set_cn", "-1"));
    assert_eq!(route(&reg, &args(&["relay1", "set_all", "maybe"])), bad("set_all", "maybe"));
    assert_eq!(route(&reg, &args(&["tank1", "set", "1.2.3"])), bad("set", "1.2.3"));
    assert_eq!(route(&reg, &args(&["tank1", "set", "-"])), bad("set", "-"));
    assert_eq!(route(&reg, &args(&["tank1", "degrees", "K"])), bad("degrees", "K"));
}

#[test]
fn repeated_read_is_repeatable() {
    let reg = registry();
    let first = route(&reg, &args(&["relay1"]));
    let second = route(&reg, &args(&["relay1"]));
    assert_eq!(first, DispatchOutcome::Call(DriverOp::GetRelay(2)));
    assert_eq!(first, second);
    let a = get_relay(2, &Ok(RelayState::Off));
    let b = get_relay(2, &Ok(RelayState::Off));
    assert_eq!(a, Report::Info("Relay 2: Off".to_string()));
    assert_eq!(a, b);
}

#[test]
fn default_reads() {
    let reg = registry();
    assert_eq!(
        route(&reg, &args(&["relay2"])),
        DispatchOutcome::Call(DriverOp::GetRelay(7))
    );
    assert_eq!(
        route(&reg, &args(&["tank1"])),
        DispatchOutcome::Call(DriverOp::ReadAll)
    );
}

#[test]
fn named_subcommands() {
    let reg = registry();
    let cases = [
        ("relay1", "list_all", DriverOp::ListAll),
        ("relay1", "get_cn", DriverOp::GetControllerNumber),
        ("relay2", "software_revision", DriverOp::SoftwareRevision),
        ("tank1", "pv", DriverOp::GetPv),
        ("tank1", "sv", DriverOp::GetSv),
        ("tank1", "is_running", DriverOp::IsRunning),
        ("tank1", "run", DriverOp::Run),
        ("tank1", "stop", DriverOp::Stop),
        ("tank1", "watch", DriverOp::Watch),
    ];
    for (id, sub, op) in cases {
        assert_eq!(route(&reg, &args(&[id, sub])), DispatchOutcome::Call(op));
    }
}

#[test]
fn one_parameter_subcommands() {
    let reg = registry();
    assert_eq!(
        route(&reg, &args(&["relay1", "set_cn", "254"])),
        DispatchOutcome::Call(DriverOp::SetControllerNumber(254))
    );
    assert_eq!(
        route(&reg, &args(&["relay1", "set_cn", "007"])),
        DispatchOutcome::Call(DriverOp::SetControllerNumber(7))
    );
    assert_eq!(
        route(&reg, &args(&["relay2", "set_all", "Off"])),
        DispatchOutcome::Call(DriverOp::SetAll(RelayState::Off))
    );
    assert_eq!(
        route(&reg, &args(&["tank1", "degrees", "f"])),
        DispatchOutcome::Call(DriverOp::SetDegrees(Degree::Fahrenheit))
    );
    assert_eq!(
        route(&reg, &args(&["tank1", "degrees", "C"])),
        DispatchOutcome::Call(DriverOp::SetDegrees(Degree::Celsius))
    );
}

#[test]
fn unknown_subcommands() {
    let reg = registry();
    let unknown = |s: &str| DispatchOutcome::Error(CommandError::UnknownSubcommand(s.to_string()));
    assert_eq!(route(&reg, &args(&["relay1", "pv"])), unknown("pv"));
    assert_eq!(route(&reg, &args(&["tank1", "on"])), unknown("on"));
    assert_eq!(route(&reg, &args(&["tank1", "set_cn", "3"])), unknown("set_cn"));
    assert_eq!(route(&reg, &args(&["relay1", "set", "3"])), unknown("set"));
    assert_eq!(route(&reg, &args(&["relay1", "LIST_ALL"])), unknown("LIST_ALL"));
    assert_eq!(
        CommandError::UnknownSubcommand("x".to_string()).message(),
        "Unknown sub-command: x"
    );
}

#[test]
fn empty_line_is_an_error() {
    let reg = registry();
    let r = route(&reg, &Vec::new());
    assert_eq!(r, DispatchOutcome::Error(CommandError::EmptyCommand));
    assert_eq!(CommandError::EmptyCommand.message(), "No command given");
    let d = device("x", DriverKind::PidController, 1, 0);
    assert_eq!(dispatch(&d, &Vec::new()), DispatchOutcome::Error(CommandError::EmptyCommand));
}

#[test]
fn dispatch_uses_the_device_given() {
    let d = device("other", DriverKind::RelayBoardB, 9, 4);
    assert_eq!(
        dispatch(&d, &args(&["whatever", "1"])),
        DispatchOutcome::Call(DriverOp::SetRelay(4, RelayState::On))
    );
}

#[test]
fn resolve_finds_configured_ids_only() {
    let reg = registry();
    let d = reg.resolve("tank1").unwrap();
    assert_eq!(d.id, "tank1");
    assert_eq!(d.kind, DriverKind::PidController);
    assert_eq!(reg.resolve("relay2").unwrap().addr, 7);
    assert!(reg.resolve("tank").is_none());
    assert!(reg.resolve("").is_none());
    assert!(reg.resolve("TANK1").is_none());
    assert_eq!(reg.devices().len(), 3);
}

#[test]
fn duplicate_ids_are_refused() {
    let r = Registry::new(vec![
        device("a", DriverKind::RelayBoardA, 1, 0),
        device("b", DriverKind::RelayBoardA, 1, 1),
        device("a", DriverKind::RelayBoardB, 2, 0),
    ]);
    assert_eq!(r.err(), Some(ConfigError::DuplicateId("a".to_string())));
    let shared = Registry::new(vec![
        device("a", DriverKind::RelayBoardA, 1, 0),
        device("b", DriverKind::RelayBoardA, 1, 0),
    ]);
    assert!(shared.is_ok());
    assert!(Registry::new(Vec::new()).is_ok());
}
