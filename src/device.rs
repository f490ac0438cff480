//! The configured devices and the plain values that commands carry.
use vstd::prelude::*;

verus! {

/// The closed set of controller families that the shell knows how to drive.
#[derive(Clone, Copy, Debug, PartialEq, Eq, Structural)]
pub enum DriverKind {
    /// A relay board of the first family (Waveshare boards).
    RelayBoardA,
    /// A relay board of the second family (STR1 boards).
    RelayBoardB,
    /// A PID temperature controller (CN7500).
    PidController,
}

impl DriverKind {
    pub open spec fn spec_is_relay(&self) -> bool {
        self is RelayBoardA || self is RelayBoardB
    }

    /// True for both relay-board families.
    #[verifier::when_used_as_spec(spec_is_relay)]
    pub fn is_relay(&self) -> (r: bool)
        ensures
            r == self.spec_is_relay(),
    {
        match self {
            DriverKind::RelayBoardA => true,
            DriverKind::RelayBoardB => true,
            DriverKind::PidController => false,
        }
    }
}

/// How a device kind is named in tables.
pub open spec fn kind_name(k: DriverKind) -> Seq<char> {
    match k {
        DriverKind::RelayBoardA => "Relay board A"@,
        DriverKind::RelayBoardB => "Relay board B"@,
        DriverKind::PidController => "PID controller"@,
    }
}

impl DriverKind {
    /// The kind's name in tables.
    pub fn name(&self) -> (r: &'static str)
        ensures
            r@ == kind_name(*self),
    {
        match self {
            DriverKind::RelayBoardA => "Relay board A",
            DriverKind::RelayBoardB => "Relay board B",
            DriverKind::PidController => "PID controller",
        }
    }
}

/// On or off, for one relay or for a whole board.
#[derive(Clone, Copy, Debug, PartialEq, Eq, Structural)]
pub enum RelayState {
    On,
    Off,
}

/// Temperature units of a PID controller.
#[derive(Clone, Copy, Debug, PartialEq, Eq, Structural)]
pub enum Degree {
    Fahrenheit,
    Celsius,
}

/// One configured controllable unit.
#[derive(Clone, Debug)]
pub struct Device {
    /// Unique identifier; also the shell command name.
    pub id: String,
    /// Human-readable label.
    pub name: String,
    /// Which handler serves this device.
    pub kind: DriverKind,
    /// Bus address of the physical controller.
    pub controller_addr: u8,
    /// Index within the controller (a relay number); unused by PID controllers.
    pub addr: u8,
    /// Transport identifier, such as a serial device path.
    pub port: String,
    /// Serial speed, passed through to the driver.
    pub baudrate: u64,
    /// Response timeout in milliseconds, passed through to the driver.
    pub timeout_ms: u64,
}

} // verus!
