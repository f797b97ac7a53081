//! The command dispatcher: how each event changes the application state, and
//! which remote request the main loop is to make next.
//!
//! The functions here never talk to the daemon. Each one that needs a remote
//! call returns a request; the main loop makes the call and hands the outcome
//! to the matching `complete_*` function (or to `refresh_data`).
use vstd::prelude::*;
use vstd::string::*;
use crate::app::{
    ACTION_COUNT, App, ConnectionStatus, ControlAction, FocusedPanel, action_at, action_command,
    action_label, logs_extended, next_panel, prev_panel,
};
use crate::events::{Event, KeyCode, KeyPress};
use crate::model::{ControlCommand, ControlReply, DaemonMetrics, DaemonStatus};

verus! {

/// What the main loop is to do with the daemon after an event.
#[derive(Debug, Clone, Copy, PartialEq, Eq, Structural)]
pub enum Request {
    Nothing,
    /// Open a session, then pass the outcome to `complete_connect`.
    Connect,
    /// Drop the session.
    Disconnect,
    /// Fetch status, then metrics, and pass both outcomes to `refresh_data`.
    Refresh,
    /// Send the command, then pass the outcome to `complete_action`.
    Control(ControlCommand),
}

/// `b` is `a` with the lines `added` appended to the log, scrolled to the
/// newest line if there is any new one; nothing else differs.
pub open spec fn logged(a: App, b: App, added: Seq<(Seq<char>, Seq<char>)>) -> bool {
    &&& logs_extended(a.logs@, b.logs@, added)
    &&& b.log_scroll == if added.len() == 0 {
        a.log_scroll as int
    } else {
        b.logs@.len() - 1
    }
    &&& b == (App { logs: b.logs, log_scroll: b.log_scroll, ..a })
}

pub open spec fn with_status(a: App, s: ConnectionStatus) -> App {
    App { connection_status: s, ..a }
}

/// The status is an error whose text is `text`.
pub open spec fn is_error_with(s: ConnectionStatus, text: Seq<char>) -> bool {
    match s {
        ConnectionStatus::Error(m) => m@ == text,
        _ => false,
    }
}

/// A connect key pressed in `a` with the session `connected` or not leads to
/// `b`, and to a connect attempt exactly when `attempt`.
pub open spec fn connect_begun(a: App, connected: bool, b: App, attempt: bool) -> bool {
    if connected {
        !attempt && logged(a, b, seq![("WARN"@, "Already connected"@)])
    } else {
        attempt && logged(
            with_status(a, ConnectionStatus::Connecting),
            b,
            seq![("INFO"@, "Connecting to daemon..."@)],
        )
    }
}

/// A connect attempt that ended with `outcome` leads from `a` to `b`, and to
/// an immediate refresh exactly when `refresh`.
pub open spec fn connect_completed(
    a: App,
    outcome: Result<(), String>,
    b: App,
    refresh: bool,
) -> bool {
    match outcome {
        Ok(()) => refresh && logged(
            with_status(a, ConnectionStatus::Connected),
            b,
            seq![("INFO"@, "Connected successfully"@)],
        ),
        Err(e) => {
            &&& !refresh
            &&& is_error_with(b.connection_status, "Connection failed"@)
            &&& logged(
                with_status(a, b.connection_status),
                b,
                seq![("ERROR"@, "Connection failed: "@ + e@)],
            )
        },
    }
}

/// A disconnect key pressed in `a` leads to `b`, and the session is to be
/// dropped exactly when `close`.
pub open spec fn disconnect_done(a: App, connected: bool, b: App, close: bool) -> bool {
    if connected {
        close && logged(
            App {
                connection_status: ConnectionStatus::Disconnected,
                daemon_status: None,
                daemon_metrics: None,
                ..a
            },
            b,
            seq![("INFO"@, "Disconnected from daemon"@)],
        )
    } else {
        !close && logged(a, b, seq![("WARN"@, "Not connected"@)])
    }
}

/// The execute key pressed in `a` leads to `b`, and to sending `sent`.
pub open spec fn action_begun(a: App, connected: bool, b: App, sent: Option<ControlCommand>) -> bool {
    if connected {
        &&& sent == Some(action_command(action_at(a.selected_action as int)))
        &&& logged(
            a,
            b,
            seq![("INFO"@, "Executing: "@ + action_label(action_at(a.selected_action as int)))],
        )
    } else {
        sent is None && logged(a, b, seq![("WARN"@, "Not connected - press 'c' to connect"@)])
    }
}

/// The log line that reports the outcome of a control command.
pub open spec fn action_report(outcome: Result<ControlReply, String>) -> (Seq<char>, Seq<char>) {
    match outcome {
        Ok(reply) => if reply.success {
            ("INFO"@, "Success: "@ + reply.message@)
        } else {
            ("WARN"@, "Failed: "@ + reply.message@)
        },
        Err(e) => ("ERROR"@, "Command failed: "@ + e@),
    }
}

/// The state after a status fetch that ended with `status`: a success
/// replaces the snapshot, a failure keeps the last one.
pub open spec fn status_refreshed(a: App, status: Result<DaemonStatus, String>) -> App {
    match status {
        Ok(s) => App { daemon_status: Some(s), ..a },
        Err(_) => a,
    }
}

/// The state after a metrics fetch that ended with `metrics`.
pub open spec fn metrics_refreshed(a: App, metrics: Result<DaemonMetrics, String>) -> App {
    match metrics {
        Ok(m) => App { daemon_metrics: Some(m), ..a },
        Err(_) => a,
    }
}

/// The log lines a failed status fetch adds.
pub open spec fn status_report(status: Result<DaemonStatus, String>) -> Seq<(Seq<char>, Seq<char>)> {
    match status {
        Ok(_) => Seq::empty(),
        Err(e) => seq![("ERROR"@, "Failed to get status: "@ + e@)],
    }
}

/// The log lines a failed metrics fetch adds.
pub open spec fn metrics_report(metrics: Result<DaemonMetrics, String>) -> Seq<(Seq<char>, Seq<char>)> {
    match metrics {
        Ok(_) => Seq::empty(),
        Err(e) => seq![("ERROR"@, "Failed to get metrics: "@ + e@)],
    }
}

/// Appending `s1` and then `s2` appends `s1 + s2`.
proof fn lemma_logged_twice(
    a: App,
    b: App,
    c: App,
    s1: Seq<(Seq<char>, Seq<char>)>,
    s2: Seq<(Seq<char>, Seq<char>)>,
)
    requires
        logged(a, b, s1),
        logged(b, c, s2),
    ensures
        logged(a, c, s1 + s2),
{
    let n = a.logs@.len();
    assert(c.logs@.subrange(0, n as int) =~= b.logs@.subrange(0, n as int));
    assert forall|i: int| 0 <= i < (s1 + s2).len() implies crate::app::entry_text(
        c.logs@[n + i],
    ) == #[trigger] (s1 + s2)[i] by {
        if i < s1.len() {
            assert(s1[i] == s1[i]);
            assert(c.logs@[n + i] == b.logs@[n + i]);
        } else {
            let j = i - s1.len();
            assert(s2[j] == s2[j]);
        }
    }
}

/// Connect key: warns when a session is open; otherwise marks the connection
/// as in progress and asks for a connect attempt (`true`).
pub fn connect_to_daemon(app: &mut App, connected: bool) -> (attempt: bool)
    ensures
        connect_begun(*old(app), connected, *final(app), attempt),
{
    if connected {
        app.add_log("WARN", String::from_str("Already connected"));
        return false;
    }
    app.set_connection_status(ConnectionStatus::Connecting);
    app.add_log("INFO", String::from_str("Connecting to daemon..."));
    true
}

/// Records how a connect attempt ended. On success the state is connected and
/// a refresh is due at once (`true`); on failure the state is an error.
pub fn complete_connect(app: &mut App, outcome: Result<(), String>) -> (refresh: bool)
    ensures
        connect_completed(*old(app), outcome, *final(app), refresh),
{
    match outcome {
        Ok(()) => {
            app.set_connection_status(ConnectionStatus::Connected);
            app.add_log("INFO", String::from_str("Connected successfully"));
            true
        },
        Err(e) => {
            app.set_connection_status(ConnectionStatus::Error(String::from_str("Connection failed")));
            app.add_log("ERROR", String::from_str("Connection failed: ").concat(e.as_str()));
            false
        },
    }
}

/// Disconnect key: warns when no session is open; otherwise marks the state
/// disconnected, forgets both snapshots, and asks to drop the session (`true`).
pub fn disconnect_from_daemon(app: &mut App, connected: bool) -> (close: bool)
    ensures
        disconnect_done(*old(app), connected, *final(app), close),
{
    if !connected {
        app.add_log("WARN", String::from_str("Not connected"));
        return false;
    }
    app.set_connection_status(ConnectionStatus::Disconnected);
    app.daemon_status = None;
    app.daemon_metrics = None;
    app.add_log("INFO", String::from_str("Disconnected from daemon"));
    true
}

/// Execute key: warns when no session is open; otherwise logs the selected
/// action and returns its command for sending.
pub fn execute_action(app: &mut App, connected: bool) -> (sent: Option<ControlCommand>)
    requires
        old(app).wf(),
    ensures
        action_begun(*old(app), connected, *final(app), sent),
{
    if !connected {
        app.add_log("WARN", String::from_str("Not connected - press 'c' to connect"));
        return None;
    }
    let action = app.current_action();
    app.add_log("INFO", String::from_str("Executing: ").concat(action.label()));
    Some(action.to_command())
}

/// Logs how a control command ended.
pub fn complete_action(app: &mut App, outcome: Result<ControlReply, String>)
    ensures
        logged(*old(app), *final(app), seq![action_report(outcome)]),
{
    match outcome {
        Ok(reply) => {
            if reply.success {
                app.add_log("INFO", String::from_str("Success: ").concat(reply.message.as_str()));
            } else {
                app.add_log("WARN", String::from_str("Failed: ").concat(reply.message.as_str()));
            }
        },
        Err(e) => {
            app.add_log("ERROR", String::from_str("Command failed: ").concat(e.as_str()));
        },
    }
}

/// Takes in the outcomes of a status fetch and of the metrics fetch that
/// followed it. A success replaces its snapshot; a failure keeps the last
/// one, logs an error and leaves the connection status alone.
pub fn refresh_data(
    app: &mut App,
    status: Result<DaemonStatus, String>,
    metrics: Result<DaemonMetrics, String>,
)
    ensures
        logged(
            metrics_refreshed(status_refreshed(*old(app), status), metrics),
            *final(app),
            status_report(status) + metrics_report(metrics),
        ),
{
    let ghost a0 = *app;
    match status {
        Ok(s) => {
            app.update_status(s);
            assert(app.logs@.subrange(0, a0.logs@.len() as int) =~= a0.logs@);
        },
        Err(e) => {
            app.add_log("ERROR", String::from_str("Failed to get status: ").concat(e.as_str()));
        },
    }
    let ghost a1 = *app;
    match metrics {
        Ok(m) => {
            app.update_metrics(m);
            assert(app.logs@.subrange(0, a1.logs@.len() as int) =~= a1.logs@);
        },
        Err(e) => {
            app.add_log("ERROR", String::from_str("Failed to get metrics: ").concat(e.as_str()));
        },
    }
    proof {
        let start = metrics_refreshed(status_refreshed(a0, status), metrics);
        let a1m = metrics_refreshed(a1, metrics);
        assert(logged(start, a1m, status_report(status)));
        assert(logged(a1m, *app, metrics_report(metrics)));
        lemma_logged_twice(start, a1m, *app, status_report(status), metrics_report(metrics));
    }
}

/// `k` is one of the two character keys `x`, `y`.
pub open spec fn is_char_key(k: KeyCode, x: char, y: char) -> bool {
    k == KeyCode::Char(x) || k == KeyCode::Char(y)
}

pub open spec fn is_up_key(k: KeyCode) -> bool {
    k == KeyCode::Up || k == KeyCode::Char('k')
}

pub open spec fn is_down_key(k: KeyCode) -> bool {
    k == KeyCode::Down || k == KeyCode::Char('j')
}

/// The key quits, alone or with the control modifier.
pub open spec fn is_quit_key(key: KeyPress) -> bool {
    is_char_key(key.code, 'q', 'Q') || (key.code == KeyCode::Char('c') && key.ctrl)
}

/// The command a request sends, if it is one that sends a command.
pub open spec fn request_command(r: Request) -> Option<ControlCommand> {
    match r {
        Request::Control(c) => Some(c),
        _ => None,
    }
}

/// What a key press does: global bindings first, in a fixed order, and only
/// when none matches, the bindings of the focused panel.
pub open spec fn key_outcome(a: App, connected: bool, key: KeyPress, b: App, r: Request) -> bool {
    if is_quit_key(key) {
        r == Request::Nothing && b == (App { should_quit: true, ..a })
    } else if key.code == KeyCode::Tab {
        r == Request::Nothing && b == (App { focused_panel: next_panel(a.focused_panel), ..a })
    } else if key.code == KeyCode::BackTab {
        r == Request::Nothing && b == (App { focused_panel: prev_panel(a.focused_panel), ..a })
    } else if is_char_key(key.code, 'c', 'C') {
        (r == Request::Connect || r == Request::Nothing) && connect_begun(
            a,
            connected,
            b,
            r == Request::Connect,
        )
    } else if is_char_key(key.code, 'd', 'D') {
        (r == Request::Disconnect || r == Request::Nothing) && disconnect_done(
            a,
            connected,
            b,
            r == Request::Disconnect,
        )
    } else if a.focused_panel == FocusedPanel::Controls && is_up_key(key.code) {
        r == Request::Nothing && b == (App {
            selected_action: if a.selected_action > 0 {
                (a.selected_action - 1) as usize
            } else {
                a.selected_action
            },
            ..a
        })
    } else if a.focused_panel == FocusedPanel::Controls && is_down_key(key.code) {
        r == Request::Nothing && b == (App {
            selected_action: if a.selected_action < ACTION_COUNT - 1 {
                (a.selected_action + 1) as usize
            } else {
                a.selected_action
            },
            ..a
        })
    } else if a.focused_panel == FocusedPanel::Controls && key.code == KeyCode::Enter {
        (r is Nothing || r is Control) && action_begun(a, connected, b, request_command(r))
    } else if a.focused_panel == FocusedPanel::Logs && is_up_key(key.code) {
        r == Request::Nothing && b == (App {
            log_scroll: if a.log_scroll > 0 {
                (a.log_scroll - 1) as usize
            } else {
                a.log_scroll
            },
            ..a
        })
    } else if a.focused_panel == FocusedPanel::Logs && is_down_key(key.code) {
        r == Request::Nothing && b == (App {
            log_scroll: if a.log_scroll + 1 < a.logs@.len() {
                (a.log_scroll + 1) as usize
            } else {
                a.log_scroll
            },
            ..a
        })
    } else {
        r == Request::Nothing && b == a
    }
}

/// Applies one key press to the state; `connected` says whether a session
/// with the daemon is open.
pub fn handle_key_event(app: &mut App, connected: bool, key: KeyPress) -> (r: Request)
    requires
        old(app).wf(),
    ensures
        key_outcome(*old(app), connected, key, *final(app), r),
        final(app).wf(),
{
    let quit = match key.code {
        KeyCode::Char('q') | KeyCode::Char('Q') => true,
        KeyCode::Char('c') => key.ctrl,
        _ => false,
    };
    if quit {
        app.quit();
        return Request::Nothing;
    }
    match key.code {
        KeyCode::Tab => {
            app.focus_next();
            return Request::Nothing;
        },
        KeyCode::BackTab => {
            app.focus_prev();
            return Request::Nothing;
        },
        KeyCode::Char('c') | KeyCode::Char('C') => {
            if connect_to_daemon(app, connected) {
                return Request::Connect;
            }
            return Request::Nothing;
        },
        KeyCode::Char('d') | KeyCode::Char('D') => {
            if disconnect_from_daemon(app, connected) {
                return Request::Disconnect;
            }
            return Request::Nothing;
        },
        _ => {},
    }
    let up = match key.code {
        KeyCode::Up | KeyCode::Char('k') => true,
        _ => false,
    };
    let down = match key.code {
        KeyCode::Down | KeyCode::Char('j') => true,
        _ => false,
    };
    let enter = match key.code {
        KeyCode::Enter => true,
        _ => false,
    };
    match app.focused_panel {
        FocusedPanel::Controls => {
            if up {
                app.select_prev_action();
            } else if down {
                app.select_next_action();
            } else if enter {
                match execute_action(app, connected) {
                    Some(c) => {
                        return Request::Control(c);
                    },
                    None => {},
                }
            }
        },
        FocusedPanel::Logs => {
            if up {
                app.scroll_logs_up();
            } else if down {
                app.scroll_logs_down();
            }
        },
        FocusedPanel::Status => {},
    }
    Request::Nothing
}

/// Applies one event of the stream. A tick asks for a refresh exactly when a
/// session is open; pointer and resize events change nothing.
pub fn handle_event(app: &mut App, connected: bool, event: Event) -> (r: Request)
    requires
        old(app).wf(),
    ensures
        final(app).wf(),
        match event {
            Event::Key(key) => key_outcome(*old(app), connected, key, *final(app), r),
            Event::Tick => *final(app) == *old(app) && r == if connected {
                Request::Refresh
            } else {
                Request::Nothing
            },
            _ => *final(app) == *old(app) && r == Request::Nothing,
        },
{
    match event {
        Event::Key(key) => handle_key_event(app, connected, key),
        Event::Tick => {
            if connected {
                Request::Refresh
            } else {
                Request::Nothing
            }
        },
        _ => Request::Nothing,
    }
}

/// Whatever key is pressed, with the session open or not, the selection
/// stays on one of the four actions and the log scroll offset on a line of
/// the log; and a key that adds a log line leaves the offset on the newest.
pub proof fn lemma_key_keeps_bounds(a: App, connected: bool, key: KeyPress, b: App, r: Request)
    requires
        a.wf(),
        key_outcome(a, connected, key, b, r),
    ensures
        b.wf(),
        0 <= b.selected_action <= ACTION_COUNT - 1,
        b.logs@.len() > a.logs@.len() ==> b.log_scroll == b.logs@.len() - 1,
{
}

/// Disconnecting twice in a row: the first call (with the session open or
/// not) leaves no session behind, so the second changes nothing but one
/// warning in the log, and asks for nothing. Only the first can move the
/// state to `Disconnected`.
pub proof fn lemma_disconnect_twice(
    a0: App,
    a1: App,
    a2: App,
    connected: bool,
    close1: bool,
    close2: bool,
)
    requires
        disconnect_done(a0, connected, a1, close1),
        disconnect_done(a1, false, a2, close2),
    ensures
        close1 == connected,
        !close2,
        a1.connection_status == if connected {
            ConnectionStatus::Disconnected
        } else {
            a0.connection_status
        },
        connected ==> a1.daemon_status is None && a1.daemon_metrics is None,
        logged(a1, a2, seq![("WARN"@, "Not connected"@)]),
        a2.connection_status == a1.connection_status,
        a2.logs@.len() == a0.logs@.len() + 2,
        a2.logs@.last().level@ == "WARN"@,
{
    assert(crate::app::entry_text(a2.logs@[a1.logs@.len() as int]) == seq![
        ("WARN"@, "Not connected"@),
    ][0]);
}

/// The state agrees with the session: it reads `Connected` exactly while a
/// session is open, and holds no snapshot while none is.
pub open spec fn session_consistent(a: App, connected: bool) -> bool {
    &&& connected <==> a.connection_status is Connected
    &&& !connected ==> a.daemon_status is None && a.daemon_metrics is None
}

/// The session after the main loop has carried out request `r` (for a
/// connect attempt: before its outcome is known).
pub open spec fn session_after(connected: bool, r: Request) -> bool {
    match r {
        Request::Disconnect => false,
        _ => connected,
    }
}

/// A key press keeps the state in agreement with the session.
pub proof fn lemma_key_keeps_session(a: App, connected: bool, key: KeyPress, b: App, r: Request)
    requires
        session_consistent(a, connected),
        key_outcome(a, connected, key, b, r),
    ensures
        session_consistent(b, session_after(connected, r)),
{
}

/// Whatever a connect attempt begun by a key press ends with, the state
/// agrees with the session it leaves: open exactly when it succeeded.
pub proof fn lemma_connect_keeps_session(
    a: App,
    b: App,
    outcome: Result<(), String>,
    c: App,
    refresh: bool,
)
    requires
        session_consistent(a, false),
        connect_begun(a, false, b, true),
        connect_completed(b, outcome, c, refresh),
    ensures
        session_consistent(c, outcome is Ok),
        refresh == outcome is Ok,
{
}

/// A refresh, which happens only with a session open, keeps the state in
/// agreement with it, as does the report of a control command.
pub proof fn lemma_replies_keep_session(
    a: App,
    status: Result<DaemonStatus, String>,
    metrics: Result<DaemonMetrics, String>,
    b: App,
    reply: Result<ControlReply, String>,
    c: App,
)
    requires
        session_consistent(a, true),
        logged(
            metrics_refreshed(status_refreshed(a, status), metrics),
            b,
            status_report(status) + metrics_report(metrics),
        ),
        logged(b, c, seq![action_report(reply)]),
    ensures
        session_consistent(b, true),
        session_consistent(c, true),
{
}

} // verus!
