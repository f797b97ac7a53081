//! The console's application state: connection, focus, selection, snapshots
//! and the activity log.
use vstd::prelude::*;
use vstd::string::*;
use crate::model::{ControlCommand, DaemonMetrics, DaemonState, DaemonStatus, state_of_code};

verus! {

/// Connection to the daemon, as the console sees it.
#[derive(Debug, Clone, PartialEq, Eq)]
pub enum ConnectionStatus {
    Disconnected,
    Connecting,
    Connected,
    Error(String),
}

impl Default for ConnectionStatus {
    fn default() -> (r: Self)
        ensures
            r == ConnectionStatus::Disconnected,
    {
        ConnectionStatus::Disconnected
    }
}

/// Number of panels that can hold the focus.
pub const PANEL_COUNT: usize = 3;

/// The panel that receives panel-scoped keys.
#[derive(Debug, Clone, Copy, PartialEq, Eq, Structural)]
pub enum FocusedPanel {
    Status,
    Controls,
    Logs,
}

impl Default for FocusedPanel {
    fn default() -> (r: Self)
        ensures
            r == FocusedPanel::Status,
    {
        FocusedPanel::Status
    }
}

/// Position of a panel in the focus cycle.
pub open spec fn panel_index(p: FocusedPanel) -> int {
    match p {
        FocusedPanel::Status => 0,
        FocusedPanel::Controls => 1,
        FocusedPanel::Logs => 2,
    }
}

/// The panel at a position of the focus cycle (`0 <= i < 3`).
pub open spec fn panel_at(i: int) -> FocusedPanel {
    if i == 0 {
        FocusedPanel::Status
    } else if i == 1 {
        FocusedPanel::Controls
    } else {
        FocusedPanel::Logs
    }
}

/// One step forward in the focus cycle.
pub open spec fn next_panel(p: FocusedPanel) -> FocusedPanel {
    panel_at((panel_index(p) + 1) % (PANEL_COUNT as int))
}

/// One step back in the focus cycle.
pub open spec fn prev_panel(p: FocusedPanel) -> FocusedPanel {
    panel_at((panel_index(p) + PANEL_COUNT - 1) % (PANEL_COUNT as int))
}

impl FocusedPanel {
    fn index(self) -> (r: usize)
        ensures
            r == panel_index(self),
    {
        match self {
            FocusedPanel::Status => 0,
            FocusedPanel::Controls => 1,
            FocusedPanel::Logs => 2,
        }
    }

    fn from_index(i: usize) -> (r: FocusedPanel)
        requires
            i < PANEL_COUNT,
        ensures
            r == panel_at(i as int),
    {
        if i == 0 {
            FocusedPanel::Status
        } else if i == 1 {
            FocusedPanel::Controls
        } else {
            FocusedPanel::Logs
        }
    }

    /// The next panel, wrapping from the last to the first.
    pub fn next(self) -> (r: Self)
        ensures
            r == next_panel(self),
    {
        Self::from_index((self.index() + 1) % PANEL_COUNT)
    }

    /// The previous panel, wrapping from the first to the last.
    pub fn prev(self) -> (r: Self)
        ensures
            r == prev_panel(self),
    {
        Self::from_index((self.index() + PANEL_COUNT - 1) % PANEL_COUNT)
    }
}

/// Stepping the focus forward three times returns to the start, and stepping
/// back undoes a step forward (and the other way round).
pub proof fn lemma_focus_cycle(p: FocusedPanel)
    ensures
        next_panel(next_panel(next_panel(p))) == p,
        prev_panel(next_panel(p)) == p,
        next_panel(prev_panel(p)) == p,
        p != next_panel(p),
{
}

/// Number of control actions, and so of selectable rows.
pub const ACTION_COUNT: usize = 4;

/// A lifecycle action the operator can pick from the controls panel.
#[derive(Debug, Clone, Copy, PartialEq, Eq, Structural)]
pub enum ControlAction {
    Start,
    Stop,
    Restart,
    Reload,
}

/// The action shown at a row of the controls panel.
pub open spec fn action_at(i: int) -> ControlAction {
    if i == 0 {
        ControlAction::Start
    } else if i == 1 {
        ControlAction::Stop
    } else if i == 2 {
        ControlAction::Restart
    } else {
        ControlAction::Reload
    }
}

pub open spec fn action_label(a: ControlAction) -> Seq<char> {
    match a {
        ControlAction::Start => "Start"@,
        ControlAction::Stop => "Stop"@,
        ControlAction::Restart => "Restart"@,
        ControlAction::Reload => "Reload"@,
    }
}

pub open spec fn action_command(a: ControlAction) -> ControlCommand {
    match a {
        ControlAction::Start => ControlCommand::Start,
        ControlAction::Stop => ControlCommand::Stop,
        ControlAction::Restart => ControlCommand::Restart,
        ControlAction::Reload => ControlCommand::Reload,
    }
}

impl ControlAction {
    /// The action at row `i` of the controls panel.
    pub fn from_index(i: usize) -> (r: ControlAction)
        requires
            i < ACTION_COUNT,
        ensures
            r == action_at(i as int),
    {
        if i == 0 {
            ControlAction::Start
        } else if i == 1 {
            ControlAction::Stop
        } else if i == 2 {
            ControlAction::Restart
        } else {
            ControlAction::Reload
        }
    }

    /// The name shown for the action.
    pub fn label(self) -> (r: &'static str)
        ensures
            r@ == action_label(self),
    {
        match self {
            ControlAction::Start => "Start",
            ControlAction::Stop => "Stop",
            ControlAction::Restart => "Restart",
            ControlAction::Reload => "Reload",
        }
    }

    /// The remote command the action sends.
    pub fn to_command(self) -> (r: ControlCommand)
        ensures
            r == action_command(self),
    {
        match self {
            ControlAction::Start => ControlCommand::Start,
            ControlAction::Stop => ControlCommand::Stop,
            ControlAction::Restart => ControlCommand::Restart,
            ControlAction::Reload => ControlCommand::Reload,
        }
    }
}

/// One line of the activity log.
#[derive(Debug, Clone)]
pub struct LogEntry {
    pub timestamp: String,
    pub level: String,
    pub message: String,
}

/// Level and message of a log line: what the console decides, as opposed to
/// the time at which it was written.
pub open spec fn entry_text(e: LogEntry) -> (Seq<char>, Seq<char>) {
    (e.level@, e.message@)
}

/// `after` is `before` followed by lines whose level and message are `added`,
/// in that order.
pub open spec fn logs_extended(
    before: Seq<LogEntry>,
    after: Seq<LogEntry>,
    added: Seq<(Seq<char>, Seq<char>)>,
) -> bool {
    &&& after.len() == before.len() + added.len()
    &&& after.subrange(0, before.len() as int) == before
    &&& forall|i: int|
        0 <= i < added.len() ==> entry_text(after[before.len() + i]) == #[trigger] added[i]
}

/// A valid scroll offset for a log of `n` lines.
pub open spec fn scroll_in_range(scroll: usize, n: nat) -> bool {
    if n == 0 {
        scroll == 0
    } else {
        scroll < n
    }
}

/// Address used when none is given.
pub const DEFAULT_ADDRESS: &'static str = "http://[::1]:50051";

/// The console's whole state; the main loop is its only writer.
#[derive(Debug)]
pub struct App {
    /// Set once the operator asks to leave.
    pub should_quit: bool,
    pub connection_status: ConnectionStatus,
    pub focused_panel: FocusedPanel,
    /// Row of the controls panel that is selected.
    pub selected_action: usize,
    /// Last status fetched since connecting, if any.
    pub daemon_status: Option<DaemonStatus>,
    /// Last metrics fetched since connecting, if any.
    pub daemon_metrics: Option<DaemonMetrics>,
    pub logs: Vec<LogEntry>,
    /// First log line shown.
    pub log_scroll: usize,
    /// Where the daemon is reached; fixed after construction.
    pub daemon_address: String,
    /// Text shown in the footer in place of the key help.
    pub status_message: Option<String>,
}

/// Text shown for the daemon's state.
pub open spec fn state_label(s: Option<DaemonStatus>) -> Seq<char> {
    match s {
        None => "N/A"@,
        Some(st) => match state_of_code(st.state) {
            Some(DaemonState::Unknown) => "Unknown"@,
            Some(DaemonState::Starting) => "Starting"@,
            Some(DaemonState::Running) => "Running"@,
            Some(DaemonState::Stopping) => "Stopping"@,
            Some(DaemonState::Stopped) => "Stopped"@,
            Some(DaemonState::Error) => "Error"@,
            None => "Invalid"@,
        },
    }
}

/// Relies on chrono's `Local::now` and its `format("%H:%M:%S")`: the local
/// wall-clock time as text. Nothing is promised of it.
#[verifier::external_body]
fn wall_clock_stamp() -> (r: String) {
    chrono::Local::now().format("%H:%M:%S").to_string()
}

impl App {
    /// The selection is a row of the controls panel and the scroll offset a
    /// line of the log.
    pub open spec fn wf(&self) -> bool {
        &&& self.selected_action < ACTION_COUNT
        &&& scroll_in_range(self.log_scroll, self.logs@.len())
    }

    /// A fresh, disconnected state aimed at `daemon_address`.
    pub fn new(daemon_address: String) -> (r: Self)
        ensures
            r.wf(),
            !r.should_quit,
            r.connection_status == ConnectionStatus::Disconnected,
            r.focused_panel == FocusedPanel::Status,
            r.selected_action == 0,
            r.daemon_status is None,
            r.daemon_metrics is None,
            r.logs@.len() == 0,
            r.log_scroll == 0,
            r.daemon_address == daemon_address,
            r.status_message is None,
    {
        App { daemon_address, ..Self::default() }
    }

    /// Asks the main loop to stop.
    pub fn quit(&mut self)
        ensures
            *final(self) == (App { should_quit: true, ..*old(self) }),
    {
        self.should_quit = true;
    }

    pub fn focus_next(&mut self)
        ensures
            *final(self) == (App { focused_panel: next_panel(old(self).focused_panel), ..*old(self) }),
    {
        self.focused_panel = self.focused_panel.next();
    }

    pub fn focus_prev(&mut self)
        ensures
            *final(self) == (App { focused_panel: prev_panel(old(self).focused_panel), ..*old(self) }),
    {
        self.focused_panel = self.focused_panel.prev();
    }

    /// Moves the selection one row down, staying on the last row.
    pub fn select_next_action(&mut self)
        ensures
            *final(self) == (App {
                selected_action: if old(self).selected_action < ACTION_COUNT - 1 {
                    (old(self).selected_action + 1) as usize
                } else {
                    old(self).selected_action
                },
                ..*old(self)
            }),
            old(self).wf() ==> final(self).wf(),
    {
        if self.selected_action < ACTION_COUNT - 1 {
            self.selected_action += 1;
        }
    }

    /// Moves the selection one row up, staying on the first row.
    pub fn select_prev_action(&mut self)
        ensures
            *final(self) == (App {
                selected_action: if old(self).selected_action > 0 {
                    (old(self).selected_action - 1) as usize
                } else {
                    old(self).selected_action
                },
                ..*old(self)
            }),
            old(self).wf() ==> final(self).wf(),
    {
        if self.selected_action > 0 {
            self.selected_action -= 1;
        }
    }

    /// The selected action.
    pub fn current_action(&self) -> (r: ControlAction)
        requires
            self.selected_action < ACTION_COUNT,
        ensures
            r == action_at(self.selected_action as int),
    {
        ControlAction::from_index(self.selected_action)
    }

    /// Scrolls the log one line up, stopping at the first line.
    pub fn scroll_logs_up(&mut self)
        ensures
            *final(self) == (App {
                log_scroll: if old(self).log_scroll > 0 {
                    (old(self).log_scroll - 1) as usize
                } else {
                    old(self).log_scroll
                },
                ..*old(self)
            }),
            old(self).wf() ==> final(self).wf(),
    {
        if self.log_scroll > 0 {
            self.log_scroll -= 1;
        }
    }

    /// Scrolls the log one line down, stopping at the last line.
    pub fn scroll_logs_down(&mut self)
        ensures
            *final(self) == (App {
                log_scroll: if old(self).log_scroll + 1 < old(self).logs@.len() {
                    (old(self).log_scroll + 1) as usize
                } else {
                    old(self).log_scroll
                },
                ..*old(self)
            }),
            old(self).wf() ==> final(self).wf(),
    {
        if self.log_scroll < self.logs.len().saturating_sub(1) {
            self.log_scroll += 1;
        }
    }

    /// Appends a line stamped `timestamp` and scrolls to it.
    pub fn add_log_at(&mut self, timestamp: String, level: &str, message: String)
        ensures
            final(self).logs@.len() == old(self).logs@.len() + 1,
            final(self).logs@.subrange(0, old(self).logs@.len() as int) == old(self).logs@,
            final(self).logs@.last().timestamp == timestamp,
            final(self).logs@.last().level@ == level@,
            final(self).logs@.last().message == message,
            logs_extended(old(self).logs@, final(self).logs@, seq![(level@, message@)]),
            final(self).log_scroll == old(self).logs@.len(),
            *final(self) == (App {
                logs: final(self).logs,
                log_scroll: final(self).log_scroll,
                ..*old(self)
            }),
            old(self).selected_action < ACTION_COUNT ==> final(self).wf(),
    {
        self.logs.push(LogEntry { timestamp, level: String::from_str(level), message });
        self.log_scroll = self.logs.len() - 1;
        assert(self.logs@.subrange(0, old(self).logs@.len() as int) =~= old(self).logs@);
    }

    /// Appends a line stamped with the local time and scrolls to it.
    pub fn add_log(&mut self, level: &str, message: String)
        ensures
            logs_extended(old(self).logs@, final(self).logs@, seq![(level@, message@)]),
            final(self).log_scroll == old(self).logs@.len(),
            *final(self) == (App {
                logs: final(self).logs,
                log_scroll: final(self).log_scroll,
                ..*old(self)
            }),
            old(self).selected_action < ACTION_COUNT ==> final(self).wf(),
    {
        let timestamp = wall_clock_stamp();
        self.add_log_at(timestamp, level, message);
    }

    pub fn set_connection_status(&mut self, status: ConnectionStatus)
        ensures
            *final(self) == (App { connection_status: status, ..*old(self) }),
    {
        self.connection_status = status;
    }

    pub fn update_status(&mut self, status: DaemonStatus)
        ensures
            *final(self) == (App { daemon_status: Some(status), ..*old(self) }),
    {
        self.daemon_status = Some(status);
    }

    pub fn update_metrics(&mut self, metrics: DaemonMetrics)
        ensures
            *final(self) == (App { daemon_metrics: Some(metrics), ..*old(self) }),
    {
        self.daemon_metrics = Some(metrics);
    }

    pub fn set_status_message(&mut self, message: String)
        ensures
            *final(self) == (App { status_message: Some(message), ..*old(self) }),
    {
        self.status_message = Some(message);
    }

    pub fn clear_status_message(&mut self)
        ensures
            *final(self) == (App { status_message: None, ..*old(self) }),
    {
        self.status_message = None;
    }

    /// The daemon's state as shown in the status panel: "N/A" without a
    /// snapshot, "Invalid" for a wire value outside the known set.
    pub fn daemon_state_string(&self) -> (r: &'static str)
        ensures
            r@ == state_label(self.daemon_status),
    {
        match &self.daemon_status {
            Some(status) => match DaemonState::from_code(status.state) {
                Some(DaemonState::Unknown) => "Unknown",
                Some(DaemonState::Starting) => "Starting",
                Some(DaemonState::Running) => "Running",
                Some(DaemonState::Stopping) => "Stopping",
                Some(DaemonState::Stopped) => "Stopped",
                Some(DaemonState::Error) => "Error",
                None => "Invalid",
            },
            None => "N/A",
        }
    }
}

impl Default for App {
    fn default() -> (r: Self)
        ensures
            r.wf(),
            !r.should_quit,
            r.connection_status == ConnectionStatus::Disconnected,
            r.focused_panel == FocusedPanel::Status,
            r.selected_action == 0,
            r.daemon_status is None,
            r.daemon_metrics is None,
            r.logs@.len() == 0,
            r.log_scroll == 0,
            r.daemon_address@ == DEFAULT_ADDRESS@,
            r.status_message is None,
    {
        App {
            should_quit: false,
            connection_status: ConnectionStatus::default(),
            focused_panel: FocusedPanel::default(),
            selected_action: 0,
            daemon_status: None,
            daemon_metrics: None,
            logs: Vec::new(),
            log_scroll: 0,
            daemon_address: String::from_str(DEFAULT_ADDRESS),
            status_message: None,
        }
    }
}

} // verus!
