//! Device registry and command dispatch for a shell that drives serial
//! brewery controllers (relay boards and PID temperature controllers).
//!
//! The registry is built once from configuration; each shell line is routed
//! to a device, checked against that device kind's vocabulary, and turned
//! into exactly one driver operation or a reported error. Driver results are
//! turned into the lines that the shell prints, and the shell's tables are
//! drawn from the registry.
pub mod commands_table;
pub mod device;
pub mod handlers;
pub mod params;
pub mod registry;
pub mod router;
pub mod table;
pub mod tables;
pub mod text;
