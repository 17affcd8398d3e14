//! Library of a development-stack supervisor: it renders a project's declared
//! service set into a container-orchestration manifest and ancillary config
//! files, and drives the lifecycle of external engine invocations as a state
//! machine whose decisions are verified.

pub mod catalog;
pub mod config;
pub mod files;
pub mod laws;
pub mod manifest;
pub mod monitor;
pub mod ports;
pub mod ssl;
pub mod strutil;
pub mod supervisor;
pub mod terminal;
pub mod util;
pub mod yaml;

use vstd::prelude::*;

verus! {

/// The panels of the graphical front end.
#[derive(Debug, Clone, Copy, PartialEq, Eq, Structural)]
pub enum Tab {
    Dashboard,
    Services,
    Containers,
    Logs,
    Terminal,
    Ports,
    Monitor,
    Settings,
}

/// Commands a system-tray menu can issue to the supervisor.
#[derive(Debug, Clone, Copy, PartialEq, Eq, Structural)]
pub enum TrayCommand {
    Start,
    Stop,
    Restart,
    OpenUI,
    Quit,
}

} // verus!
