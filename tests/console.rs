use daemon_ctl::app::{App, ConnectionStatus, ControlAction, FocusedPanel};
use daemon_ctl::dispatch::{
    complete_action, complete_connect, disconnect_from_daemon, execute_action, handle_event,
    handle_key_event, refresh_data, Request,
};
use daemon_ctl::events::{Event, KeyCode, KeyPress};
use daemon_ctl::model::{ControlCommand, ControlReply, DaemonMetrics, DaemonState, DaemonStatus};

fn key(c: char) -> KeyPress {
    KeyPress { code: KeyCode::Char(c), ctrl: false }
}

fn special(code: KeyCode) -> KeyPress {
    KeyPress { code, ctrl: false }
}

fn metrics() -> DaemonMetrics {
    DaemonMetrics {
        cpu_usage_centi: 5730,
        memory_bytes: 1_500_000_000,
        memory_limit_bytes: 3_000_000_000,
        connections_active: 3,
        requests_total: 100,
        errors_total: 2,
    }
}

fn status(state: i32) -> DaemonStatus {
    DaemonStatus {
        state,
        version: "1.0.0".to_string(),
        uptime_seconds: 42,
        message: "ok".to_string(),
    }
}

fn connected_app() -> App {
    let mut app = App::new("http://127.0.0.1:50051".to_string());
    complete_connect(&mut app, Ok(()));
    refresh_data(&mut app, Ok(status(2)), Ok(metrics()));
    app
}

#[test]
fn focus_cycles_through_three_panels() {
    for p in [FocusedPanel::Status, FocusedPanel::Controls, FocusedPanel::Logs] {
        assert_eq!(p.next().next().next(), p);
        assert_eq!(p.next().prev(), p);
        assert_eq!(p.prev().next(), p);
        assert_ne!(p.next(), p);
    }
    assert_eq!(FocusedPanel::Status.next(), FocusedPanel::Controls);
    assert_eq!(FocusedPanel::Status.prev(), FocusedPanel::Logs);
}

#[test]
fn tab_and_backtab_move_focus() {
    let mut app = App::new("a".to_string());
    handle_key_event(&mut app, false, special(KeyCode::Tab));
    assert_eq!(app.focused_panel, FocusedPanel::Controls);
    handle_key_event(&mut app, false, special(KeyCode::Tab));
    handle_key_event(&mut app, false, special(KeyCode::Tab));
    assert_eq!(app.focused_panel, FocusedPanel::Status);
    handle_key_event(&mut app, false, special(KeyCode::BackTab));
    assert_eq!(app.focused_panel, FocusedPanel::Logs);
}

#[test]
fn selection_stays_within_the_four_actions() {
    let mut app = App::new("a".to_string());
    app.focus_next();
    for _ in 0..10 {
        handle_key_event(&mut app, false, special(KeyCode::Down));
        assert!(app.selected_action <= 3);
    }
    assert_eq!(app.selected_action, 3);
    assert_eq!(app.current_action(), ControlAction::Reload);
    for _ in 0..10 {
        handle_key_event(&mut app, false, key('k'));
    }
    assert_eq!(app.selected_action, 0);
    assert_eq!(app.current_action(), ControlAction::Start);
    handle_key_event(&mut app, false, key('j'));
    assert_eq!(app.current_action(), ControlAction::Stop);
}

#[test]
fn log_scroll_is_clamped_and_follows_new_lines() {
    let mut app = App::new("a".to_string());
    app.scroll_logs_down();
    app.scroll_logs_up();
    assert_eq!(app.log_scroll, 0);
    for i in 0..5 {
        app.add_log("INFO", format!("line {}", i));
        assert_eq!(app.log_scroll, app.logs.len() - 1);
    }
    app.focus_prev();
    assert_eq!(app.focused_panel, FocusedPanel::Logs);
    for _ in 0..10 {
        handle_key_event(&mut app, false, special(KeyCode::Up));
    }
    assert_eq!(app.log_scroll, 0);
    for _ in 0..10 {
        handle_key_event(&mut app, false, special(KeyCode::Down));
        assert!(app.log_scroll <= 4);
    }
    assert_eq!(app.log_scroll, 4);
    handle_key_event(&mut app, false, key('k'));
    assert_eq!(app.log_scroll, 3);
    app.add_log("WARN", "newest".to_string());
    assert_eq!(app.log_scroll, 5);
    assert_eq!(app.logs[5].level, "WARN");
    assert_eq!(app.logs[5].message, "newest");
}

#[test]
fn add_log_at_keeps_the_given_stamp() {
    let mut app = App::new("a".to_string());
    app.add_log_at("12:00:00".to_string(), "ERROR", "boom".to_string());
    assert_eq!(app.logs.len(), 1);
    assert_eq!(app.logs[0].timestamp, "12:00:00");
    assert_eq!(app.logs[0].level, "ERROR");
    assert_eq!(app.log_scroll, 0);
}

#[test]
fn disconnect_twice_changes_state_once() {
    let mut app = connected_app();
    let before = app.logs.len();
    assert!(disconnect_from_daemon(&mut app, true));
    assert_eq!(app.connection_status, ConnectionStatus::Disconnected);
    assert!(app.daemon_status.is_none());
    assert!(app.daemon_metrics.is_none());
    assert_eq!(app.logs.len(), before + 1);
    assert_eq!(app.logs[before].level, "INFO");
    assert_eq!(app.logs[before].message, "Disconnected from daemon");
    assert!(!disconnect_from_daemon(&mut app, false));
    assert_eq!(app.connection_status, ConnectionStatus::Disconnected);
    assert_eq!(app.logs.len(), before + 2);
    assert_eq!(app.logs[before + 1].level, "WARN");
    assert_eq!(app.logs[before + 1].message, "Not connected");
}

#[test]
fn disconnect_key_asks_to_drop_the_session() {
    let mut app = connected_app();
    assert_eq!(handle_key_event(&mut app, true, key('d')), Request::Disconnect);
    assert_eq!(handle_key_event(&mut app, false, key('D')), Request::Nothing);
    assert_eq!(app.connection_status, ConnectionStatus::Disconnected);
}

#[test]
fn connect_to_unreachable_daemon_fails() {
    let mut app = App::new("127.0.0.1:50051".to_string());
    assert_eq!(handle_key_event(&mut app, false, key('c')), Request::Connect);
    assert_eq!(app.connection_status, ConnectionStatus::Connecting);
    assert_eq!(app.logs.len(), 1);
    assert_eq!(app.logs[0].level, "INFO");
    assert_eq!(app.logs[0].message, "Connecting to daemon...");
    let refresh = complete_connect(&mut app, Err("transport error".to_string()));
    assert!(!refresh);
    assert_eq!(
        app.connection_status,
        ConnectionStatus::Error("Connection failed".to_string())
    );
    let errors: Vec<_> = app.logs.iter().filter(|l| l.level == "ERROR").collect();
    assert_eq!(errors.len(), 1);
    assert_eq!(errors[0].message, "Connection failed: transport error");
    assert!(app.daemon_status.is_none());
    assert!(app.daemon_metrics.is_none());
    assert_eq!(app.log_scroll, 1);
}

#[test]
fn connect_while_connected_only_warns() {
    let mut app = connected_app();
    let before = app.logs.len();
    assert_eq!(handle_key_event(&mut app, true, key('C')), Request::Nothing);
    assert_eq!(app.connection_status, ConnectionStatus::Connected);
    assert_eq!(app.logs.len(), before + 1);
    assert_eq!(app.logs[before].message, "Already connected");
    assert_eq!(app.logs[before].level, "WARN");
}

#[test]
fn successful_connect_asks_for_refresh() {
    let mut app = App::new("a".to_string());
    assert!(complete_connect(&mut app, Ok(())));
    assert_eq!(app.connection_status, ConnectionStatus::Connected);
    assert_eq!(app.logs[0].message, "Connected successfully");
}

#[test]
fn execute_while_disconnected_only_warns() {
    let mut app = App::new("a".to_string());
    app.focus_next();
    let r = handle_key_event(&mut app, false, special(KeyCode::Enter));
    assert_eq!(r, Request::Nothing);
    assert_eq!(app.logs.len(), 1);
    assert_eq!(app.logs[0].level, "WARN");
    assert_eq!(app.logs[0].message, "Not connected - press 'c' to connect");
    assert_eq!(app.connection_status, ConnectionStatus::Disconnected);
    assert_eq!(app.selected_action, 0);
    assert_eq!(app.focused_panel, FocusedPanel::Controls);
}

#[test]
fn execute_while_connected_sends_the_selected_command() {
    let mut app = connected_app();
    app.focus_next();
    handle_key_event(&mut app, true, key('j'));
    handle_key_event(&mut app, true, key('j'));
    let r = handle_key_event(&mut app, true, special(KeyCode::Enter));
    assert_eq!(r, Request::Control(ControlCommand::Restart));
    assert_eq!(app.logs.last().unwrap().message, "Executing: Restart");
    assert_eq!(execute_action(&mut app, true), Some(ControlCommand::Restart));
}

#[test]
fn control_outcomes_are_logged_by_level() {
    let mut app = connected_app();
    complete_action(&mut app, Ok(ControlReply { success: true, message: "started".to_string() }));
    assert_eq!(app.logs.last().unwrap().level, "INFO");
    assert_eq!(app.logs.last().unwrap().message, "Success: started");
    complete_action(&mut app, Ok(ControlReply { success: false, message: "busy".to_string() }));
    assert_eq!(app.logs.last().unwrap().level, "WARN");
    assert_eq!(app.logs.last().unwrap().message, "Failed: busy");
    complete_action(&mut app, Err("timeout".to_string()));
    assert_eq!(app.logs.last().unwrap().level, "ERROR");
    assert_eq!(app.logs.last().unwrap().message, "Command failed: timeout");
    assert_eq!(app.log_scroll, app.logs.len() - 1);
}

#[test]
fn failed_refresh_keeps_last_snapshots() {
    let mut app = connected_app();
    let before = app.logs.len();
    refresh_data(&mut app, Err("down".to_string()), Err("gone".to_string()));
    assert_eq!(app.daemon_status, Some(status(2)));
    assert_eq!(app.daemon_metrics, Some(metrics()));
    assert_eq!(app.connection_status, ConnectionStatus::Connected);
    assert_eq!(app.logs.len(), before + 2);
    assert_eq!(app.logs[before].message, "Failed to get status: down");
    assert_eq!(app.logs[before + 1].message, "Failed to get metrics: gone");
    refresh_data(&mut app, Ok(status(4)), Err("gone".to_string()));
    assert_eq!(app.daemon_state_string(), "Stopped");
    assert_eq!(app.logs.len(), before + 3);
}

#[test]
fn tick_refreshes_only_when_connected() {
    let mut app = App::new("a".to_string());
    assert_eq!(handle_event(&mut app, true, Event::Tick), Request::Refresh);
    assert_eq!(handle_event(&mut app, false, Event::Tick), Request::Nothing);
    assert_eq!(handle_event(&mut app, true, Event::Resize(80, 24)), Request::Nothing);
    assert_eq!(handle_event(&mut app, true, Event::Mouse), Request::Nothing);
    assert!(app.logs.is_empty());
    assert_eq!(handle_event(&mut app, false, Event::Key(key('c'))), Request::Connect);
}

#[test]
fn quit_keys_take_precedence() {
    let mut app = App::new("a".to_string());
    handle_key_event(&mut app, false, key('Q'));
    assert!(app.should_quit);
    let mut app = App::new("a".to_string());
    let r = handle_key_event(&mut app, false, KeyPress { code: KeyCode::Char('c'), ctrl: true });
    assert_eq!(r, Request::Nothing);
    assert!(app.should_quit);
    assert!(app.logs.is_empty());
    assert_eq!(app.connection_status, ConnectionStatus::Disconnected);
}

#[test]
fn status_panel_ignores_navigation() {
    let mut app = App::new("a".to_string());
    app.add_log("INFO", "x".to_string());
    app.add_log("INFO", "y".to_string());
    handle_key_event(&mut app, false, special(KeyCode::Up));
    handle_key_event(&mut app, false, special(KeyCode::Enter));
    handle_key_event(&mut app, false, special(KeyCode::Other));
    assert_eq!(app.log_scroll, 1);
    assert_eq!(app.logs.len(), 2);
    assert_eq!(app.selected_action, 0);
}

#[test]
fn new_app_defaults() {
    let app = App::new("http://127.0.0.1:50051".to_string());
    assert!(!app.should_quit);
    assert_eq!(app.connection_status, ConnectionStatus::Disconnected);
    assert_eq!(app.focused_panel, FocusedPanel::Status);
    assert_eq!(app.daemon_address, "http://127.0.0.1:50051");
    assert!(app.status_message.is_none());
    assert_eq!(App::default().daemon_address, "http://[::1]:50051");
    assert_eq!(ConnectionStatus::default(), ConnectionStatus::Disconnected);
    assert_eq!(FocusedPanel::default(), FocusedPanel::Status);
}

#[test]
fn status_message_set_and_clear() {
    let mut app = App::new("a".to_string());
    app.set_status_message("hello".to_string());
    assert_eq!(app.status_message.as_deref(), Some("hello"));
    app.clear_status_message();
    assert!(app.status_message.is_none());
    app.set_connection_status(ConnectionStatus::Connecting);
    assert_eq!(app.connection_status, ConnectionStatus::Connecting);
    app.update_metrics(metrics());
    assert_eq!(app.daemon_metrics, Some(metrics()));
    app.quit();
    assert!(app.should_quit);
}

#[test]
fn daemon_state_names() {
    let mut app = App::new("a".to_string());
    assert_eq!(app.daemon_state_string(), "N/A");
    let names = ["Unknown", "Starting", "Running", "Stopping", "Stopped", "Error"];
    for (code, name) in names.iter().enumerate() {
        app.update_status(status(code as i32));
        assert_eq!(app.daemon_state_string(), *name);
    }
    app.update_status(status(6));
    assert_eq!(app.daemon_state_string(), "Invalid");
    app.update_status(status(-1));
    assert_eq!(app.daemon_state_string(), "Invalid");
    assert_eq!(DaemonState::from_code(2), Some(DaemonState::Running));
    assert_eq!(DaemonState::from_code(9), None);
}

#[test]
fn actions_have_labels_and_commands() {
    assert_eq!(ControlAction::Start.label(), "Start");
    assert_eq!(ControlAction::Stop.label(), "Stop");
    assert_eq!(ControlAction::Restart.label(), "Restart");
    assert_eq!(ControlAction::Reload.label(), "Reload");
    assert_eq!(ControlAction::Start.to_command(), ControlCommand::Start);
    assert_eq!(ControlAction::Stop.to_command(), ControlCommand::Stop);
    assert_eq!(ControlAction::Restart.to_command(), ControlCommand::Restart);
    assert_eq!(ControlAction::Reload.to_command(), ControlCommand::Reload);
    assert_eq!(ControlAction::from_index(1), ControlAction::Stop);
    assert_eq!(ControlCommand::Start.code(), 0);
    assert_eq!(ControlCommand::Reload.code(), 3);
}
