use rtu_shell::commands_table::{commands_table, devices_list};
use rtu_shell::device::{Device, DriverKind, RelayState};
use rtu_shell::handlers::DriverError;
use rtu_shell::registry::Registry;
use rtu_shell::tables::dashboard::{DashboardEntry, Status};
use rtu_shell::tables::{commands, dashboard, devices};

fn registry() -> Registry {
    Registry::new(vec![
        Device {
            id: "relay1".to_string(),
            name: "Pump".to_string(),
            kind: DriverKind::RelayBoardA,
            controller_addr: 5,
            addr: 2,
            port: "/dev/ttyUSB0".to_string(),
            baudrate: 9600,
            timeout_ms: 200,
        },
        Device {
            id: "tank1".to_string(),
            name: "Mash tun".to_string(),
            kind: DriverKind::PidController,
            controller_addr: 22,
            addr: 0,
            port: "/dev/ttyUSB1".to_string(),
            baudrate: 19200,
            timeout_ms: 1500,
        },
    ])
    .unwrap()
}

#[test]
fn titles_are_bold_and_tables_framed() {
    let t = commands_table();
    assert!(t.contains("\x1b[1mGeneral Commands\x1b[m"));
    assert!(t.contains("\x1b[1mCommand\x1b[m"));
    assert!(t.starts_with('╔'));
    assert!(t.contains('║'));
    assert!(t.trim_end().ends_with('╝'));
    let d = devices_list(&registry());
    assert!(d.contains("\x1b[1mController Addr\x1b[m"));
    assert!(d.starts_with('╔'));
}

#[test]
fn commands_table_lists_every_section() {
    let t = commands_table();
    assert_eq!(t, commands::render());
    for needle in [
        "General Commands",
        "Relay Board Commands",
        "PID Controller Commands",
        "set_cn [0-254]",
        "degrees [F|C]",
        "dashboard",
    ] {
        assert!(t.contains(needle), "missing {}", needle);
    }
    assert!(t.lines().count() > 20);
}

#[test]
fn device_tables_hold_each_device() {
    let reg = registry();
    let short = devices_list(&reg);
    for needle in ["Configured Devices", "relay1", "Pump", "tank1", "Relay board A", "PID controller", "/dev/ttyUSB1"] {
        assert!(short.contains(needle), "missing {}", needle);
    }
    assert!(!short.contains("19200"));
    let full = devices::render(&reg);
    for needle in ["Connection Details", "19200", "1500 ms", "200 ms", "22"] {
        assert!(full.contains(needle), "missing {}", needle);
    }
}

#[test]
fn dashboard_draws_when_all_read() {
    let entries = vec![
        DashboardEntry {
            name: "Pump".to_string(),
            status: Ok(Status::Relay(RelayState::On)),
        },
        DashboardEntry {
            name: "Mash tun".to_string(),
            status: Ok(Status::Pid {
                running: true,
                pv: "150.2".to_string(),
                sv: "152".to_string(),
            }),
        },
    ];
    let t = dashboard::render("09:30:00", &entries).unwrap();
    for needle in ["Last Updated", "09:30:00", "Pump", "N/A", "Mash tun", "150.2", "152", "true"] {
        assert!(t.contains(needle), "missing {}", needle);
    }
}

#[test]
fn dashboard_gives_first_failure() {
    let entries = vec![
        DashboardEntry {
            name: "Pump".to_string(),
            status: Ok(Status::Relay(RelayState::Off)),
        },
        DashboardEntry {
            name: "Mash tun".to_string(),
            status: Err(DriverError { detail: "first".to_string() }),
        },
        DashboardEntry {
            name: "Boil".to_string(),
            status: Err(DriverError { detail: "second".to_string() }),
        },
    ];
    assert_eq!(
        dashboard::render("t", &entries),
        Err(DriverError { detail: "first".to_string() })
    );
}
