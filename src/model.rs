//! The daemon's side of the protocol, as plain values.
use vstd::prelude::*;

verus! {

/// Lifecycle state the daemon reports about itself.
#[derive(Debug, Clone, Copy, PartialEq, Eq, Structural)]
pub enum DaemonState {
    Unknown,
    Starting,
    Running,
    Stopping,
    Stopped,
    Error,
}

/// The wire value of each daemon state, in declaration order.
pub open spec fn state_of_code(code: i32) -> Option<DaemonState> {
    if code == 0 {
        Some(DaemonState::Unknown)
    } else if code == 1 {
        Some(DaemonState::Starting)
    } else if code == 2 {
        Some(DaemonState::Running)
    } else if code == 3 {
        Some(DaemonState::Stopping)
    } else if code == 4 {
        Some(DaemonState::Stopped)
    } else if code == 5 {
        Some(DaemonState::Error)
    } else {
        None
    }
}

impl DaemonState {
    /// Decodes a wire value; `None` for a value outside the known set.
    pub fn from_code(code: i32) -> (r: Option<DaemonState>)
        ensures
            r == state_of_code(code),
    {
        match code {
            0 => Some(DaemonState::Unknown),
            1 => Some(DaemonState::Starting),
            2 => Some(DaemonState::Running),
            3 => Some(DaemonState::Stopping),
            4 => Some(DaemonState::Stopped),
            5 => Some(DaemonState::Error),
            _ => None,
        }
    }
}

/// Lifecycle command sent to the daemon.
#[derive(Debug, Clone, Copy, PartialEq, Eq, Structural)]
pub enum ControlCommand {
    Start,
    Stop,
    Restart,
    Reload,
}

pub open spec fn command_code(c: ControlCommand) -> i32 {
    match c {
        ControlCommand::Start => 0,
        ControlCommand::Stop => 1,
        ControlCommand::Restart => 2,
        ControlCommand::Reload => 3,
    }
}

impl ControlCommand {
    /// The command's wire value.
    pub fn code(self) -> (r: i32)
        ensures
            r == command_code(self),
    {
        match self {
            ControlCommand::Start => 0,
            ControlCommand::Stop => 1,
            ControlCommand::Restart => 2,
            ControlCommand::Reload => 3,
        }
    }
}

/// Last status snapshot fetched from the daemon; `state` is the raw wire value.
#[derive(Debug, Clone, PartialEq, Eq)]
pub struct DaemonStatus {
    pub state: i32,
    pub version: String,
    pub uptime_seconds: u64,
    pub message: String,
}

/// Last metrics snapshot fetched from the daemon.
///
/// CPU usage is held in hundredths of a percent (`5730` is 57.3%); a reading
/// outside 0..=100% is kept as it came.
#[derive(Debug, Clone, Copy, PartialEq, Eq, Structural)]
pub struct DaemonMetrics {
    pub cpu_usage_centi: i64,
    pub memory_bytes: u64,
    pub memory_limit_bytes: u64,
    pub connections_active: u64,
    pub requests_total: u64,
    pub errors_total: u64,
}

/// What the daemon answered to a control command.
#[derive(Debug, Clone, PartialEq, Eq)]
pub struct ControlReply {
    pub success: bool,
    pub message: String,
}

} // verus!
