//! Application-chrome core of a desktop design tool: it describes the native
//! application menu (submenus, labeled commands, keyboard accelerators, and
//! platform-standard actions) and routes user menu selections to named
//! application-level signals. The host windowing layer registers the tree and
//! reports selections; the semantics behind each command live elsewhere and
//! are reached only through the emitted signals.

pub mod accel;
pub mod builder;
pub mod menu;
pub mod registry;
pub mod dispatch;
