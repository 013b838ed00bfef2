use ecc2::session::{
    OutputEvent, OutputLine, OutputStream, Session, SessionMetrics, SessionState,
};
use ecc2::tui::dashboard::{Dashboard, LoadedOutput};
use ecc2::tui::feed::{keep_draining, Received};
use ecc2::tui::model::{Pane, Request};
use tokio::sync::broadcast;

const LIMIT: usize = 1000;

fn metrics() -> SessionMetrics {
    SessionMetrics {
        tokens_used: 0,
        tool_calls: 0,
        files_changed: 0,
        cost_usd: "0.0000".to_string(),
        duration_secs: 0,
    }
}

fn session(id: &str, task: &str, state: SessionState) -> Session {
    Session {
        id: id.to_string(),
        task: task.to_string(),
        agent_type: "agent".to_string(),
        state,
        metrics: metrics(),
    }
}

fn sessions(count: usize) -> Vec<Session> {
    (1..count + 1)
        .map(|n| session(&format!("session-{n}"), "task", SessionState::Running))
        .collect()
}

fn output(count: usize) -> Vec<OutputLine> {
    (0..count)
        .map(|index| OutputLine { stream: OutputStream::Stdout, text: format!("line {index}") })
        .collect()
}

fn open(listing: Result<Vec<Session>, ()>) -> (Dashboard, Request) {
    let (_, events) = broadcast::channel(16);
    Dashboard::new(listing, LIMIT, events)
}

/// Answers a request for output as a store would that holds `lines` for every session.
fn answer(dashboard: &mut Dashboard, request: Request, lines: usize) {
    match request {
        Request::LoadOutput { session_id, limit } => {
            assert_eq!(limit, LIMIT);
            dashboard.output_loaded::<()>(session_id, Ok(output(lines)));
        }
        other => panic!("unexpected request: {other:?}"),
    }
}

fn requested_id(request: Request) -> Option<String> {
    match request {
        Request::LoadOutput { session_id, .. } => Some(session_id),
        Request::Nothing => None,
        other => panic!("unexpected request: {other:?}"),
    }
}

#[test]
fn refresh_loads_selected_session_output_and_follows_tail() {
    let listing = || Ok(vec![session("session-1", "tail output", SessionState::Running)]);
    let (mut dashboard, request) = open(listing());
    answer(&mut dashboard, request, 12);
    dashboard.next_pane();
    assert_eq!(dashboard.selected_pane(), Pane::Output);
    let request = dashboard.refresh::<()>(listing());
    answer(&mut dashboard, request, 12);
    dashboard.sync_output_scroll(4);

    assert_eq!(dashboard.output_scroll_offset(), 8);
    assert!(dashboard.selected_output_text().contains("line 11"));
}

#[test]
fn scrolling_up_disables_follow_mode() {
    let listing = || Ok(vec![session("session-1", "inspect output", SessionState::Running)]);
    let (mut dashboard, request) = open(listing());
    answer(&mut dashboard, request, 6);
    dashboard.next_pane();
    let request = dashboard.refresh::<()>(listing());
    answer(&mut dashboard, request, 6);
    dashboard.sync_output_scroll(3);
    dashboard.scroll_up();

    assert!(!dashboard.output_follow());
    assert_eq!(dashboard.output_scroll_offset(), 2);
}

#[test]
fn opening_selects_the_first_session_and_asks_for_its_output() {
    let (dashboard, request) = open(Ok(sessions(3)));
    assert_eq!(dashboard.selected_index(), 0);
    assert_eq!(dashboard.sessions().len(), 3);
    assert_eq!(dashboard.selected_pane(), Pane::Sessions);
    assert!(!dashboard.help_is_shown());
    assert!(dashboard.output_follow());
    assert_eq!(dashboard.output_scroll_offset(), 0);
    assert_eq!(requested_id(request), Some("session-1".to_string()));
}

#[test]
fn opening_with_an_output_store_is_the_same() {
    let (_, events) = broadcast::channel(1);
    let (dashboard, request) = Dashboard::with_output_store::<()>(Ok(sessions(2)), 7, events);
    assert_eq!(dashboard.sessions().len(), 2);
    match request {
        Request::LoadOutput { session_id, limit } => {
            assert_eq!(session_id, "session-1");
            assert_eq!(limit, 7);
        }
        other => panic!("unexpected request: {other:?}"),
    }
}

#[test]
fn a_listing_that_fails_counts_as_empty() {
    let (mut dashboard, request) = open(Err(()));
    assert_eq!(dashboard.sessions().len(), 0);
    assert!(matches!(request, Request::Nothing));
    assert!(matches!(dashboard.stop_selected(), Request::Nothing));
    assert!(matches!(dashboard.scroll_down(), Request::Nothing));
    assert!(matches!(dashboard.scroll_up(), Request::Nothing));

    dashboard.refresh::<()>(Ok(sessions(3)));
    dashboard.scroll_down();
    dashboard.scroll_down();
    assert_eq!(dashboard.selected_index(), 2);
    assert!(matches!(dashboard.refresh::<()>(Err(())), Request::Nothing));
    assert_eq!(dashboard.selected_index(), 0);
    assert!(dashboard.selected_session_id().is_none());
}

#[test]
fn panes_are_walked_in_a_ring() {
    let (mut dashboard, _) = open(Ok(Vec::new()));
    dashboard.next_pane();
    assert_eq!(dashboard.selected_pane(), Pane::Output);
    dashboard.next_pane();
    assert_eq!(dashboard.selected_pane(), Pane::Metrics);
    dashboard.next_pane();
    assert_eq!(dashboard.selected_pane(), Pane::Sessions);
    dashboard.prev_pane();
    assert_eq!(dashboard.selected_pane(), Pane::Metrics);
    dashboard.prev_pane();
    assert_eq!(dashboard.selected_pane(), Pane::Output);
    dashboard.prev_pane();
    assert_eq!(dashboard.selected_pane(), Pane::Sessions);
}

#[test]
fn the_selection_stops_at_both_ends_of_the_list() {
    let (mut dashboard, _) = open(Ok(sessions(2)));
    assert_eq!(requested_id(dashboard.scroll_up()), Some("session-1".to_string()));
    assert_eq!(dashboard.selected_index(), 0);
    assert_eq!(requested_id(dashboard.scroll_down()), Some("session-2".to_string()));
    assert_eq!(dashboard.selected_index(), 1);
    assert_eq!(requested_id(dashboard.scroll_down()), Some("session-2".to_string()));
    assert_eq!(dashboard.selected_index(), 1);
    assert_eq!(requested_id(dashboard.scroll_up()), Some("session-1".to_string()));
    assert_eq!(dashboard.selected_index(), 0);
}

#[test]
fn selecting_a_session_follows_its_output_again() {
    let (mut dashboard, request) = open(Ok(sessions(2)));
    answer(&mut dashboard, request, 10);
    dashboard.next_pane();
    dashboard.sync_output_scroll(4);
    dashboard.scroll_up();
    assert!(!dashboard.output_follow());
    dashboard.prev_pane();
    dashboard.scroll_down();
    assert!(dashboard.output_follow());
    assert_eq!(dashboard.output_scroll_offset(), 0);
}

#[test]
fn scrolling_down_leads_back_to_following() {
    let (mut dashboard, request) = open(Ok(sessions(1)));
    answer(&mut dashboard, request, 10);
    dashboard.next_pane();
    dashboard.sync_output_scroll(4);
    assert_eq!(dashboard.max_output_scroll(), 6);
    for _ in 0..3 {
        dashboard.scroll_up();
    }
    assert_eq!(dashboard.output_scroll_offset(), 3);
    dashboard.scroll_down();
    assert_eq!(dashboard.output_scroll_offset(), 4);
    assert!(!dashboard.output_follow());
    dashboard.scroll_down();
    assert_eq!(dashboard.output_scroll_offset(), 5);
    assert!(!dashboard.output_follow());
    dashboard.scroll_down();
    assert_eq!(dashboard.output_scroll_offset(), 6);
    assert!(dashboard.output_follow());
    dashboard.scroll_down();
    assert_eq!(dashboard.output_scroll_offset(), 6);
    assert!(dashboard.output_follow());
}

#[test]
fn scrolling_up_stops_at_the_first_line() {
    let (mut dashboard, request) = open(Ok(sessions(1)));
    answer(&mut dashboard, request, 2);
    dashboard.next_pane();
    dashboard.sync_output_scroll(10);
    assert_eq!(dashboard.output_scroll_offset(), 0);
    dashboard.scroll_up();
    assert!(!dashboard.output_follow());
    assert_eq!(dashboard.output_scroll_offset(), 0);
    dashboard.scroll_down();
    assert!(dashboard.output_follow());
    assert_eq!(dashboard.output_scroll_offset(), 0);
}

#[test]
fn the_metrics_pane_only_scrolls_up() {
    let (mut dashboard, request) = open(Ok(sessions(1)));
    answer(&mut dashboard, request, 10);
    dashboard.sync_output_scroll(4);
    dashboard.prev_pane();
    assert_eq!(dashboard.selected_pane(), Pane::Metrics);
    dashboard.scroll_down();
    assert_eq!(dashboard.output_scroll_offset(), 6);
    dashboard.scroll_up();
    assert_eq!(dashboard.output_scroll_offset(), 5);
    assert!(dashboard.output_follow());
}

#[test]
fn a_pane_without_room_shows_one_line() {
    let (mut dashboard, request) = open(Ok(sessions(1)));
    answer(&mut dashboard, request, 5);
    dashboard.sync_output_scroll(0);
    assert_eq!(dashboard.output_scroll_offset(), 4);
}

#[test]
fn output_that_is_not_followed_stays_in_place() {
    let (mut dashboard, request) = open(Ok(sessions(1)));
    answer(&mut dashboard, request, 20);
    dashboard.next_pane();
    dashboard.sync_output_scroll(5);
    for _ in 0..10 {
        dashboard.scroll_up();
    }
    assert_eq!(dashboard.output_scroll_offset(), 5);
    dashboard.sync_output_scroll(8);
    assert_eq!(dashboard.output_scroll_offset(), 5);
    dashboard.sync_output_scroll(18);
    assert_eq!(dashboard.output_scroll_offset(), 2);
    dashboard.sync_output_scroll(18);
    assert_eq!(dashboard.output_scroll_offset(), 2);
}

#[test]
fn refreshing_moves_the_selection_up_to_the_last_session() {
    let (mut dashboard, _) = open(Ok(sessions(5)));
    for _ in 0..4 {
        dashboard.scroll_down();
    }
    assert_eq!(dashboard.selected_index(), 4);
    let request = dashboard.refresh::<()>(Ok(sessions(3)));
    assert_eq!(dashboard.selected_index(), 2);
    assert_eq!(requested_id(request), Some("session-3".to_string()));
    assert!(matches!(dashboard.tick(), Request::ListSessions));
    let request = dashboard.refresh::<()>(Ok(sessions(5)));
    assert_eq!(dashboard.selected_index(), 2);
    assert_eq!(requested_id(request), Some("session-3".to_string()));
}

#[test]
fn stopping_lists_the_sessions_again_whether_it_was_recorded_or_not() {
    let (mut dashboard, _) = open(Ok(sessions(2)));
    dashboard.scroll_down();
    match dashboard.stop_selected() {
        Request::StopSession { session_id } => assert_eq!(session_id, "session-2"),
        other => panic!("unexpected request: {other:?}"),
    }
    assert!(matches!(dashboard.session_stopped::<&str>(Ok(())), Request::ListSessions));
    assert!(matches!(dashboard.session_stopped(Err("locked")), Request::ListSessions));
}

#[test]
fn a_new_session_is_asked_for() {
    let (dashboard, _) = open(Ok(sessions(1)));
    assert!(matches!(dashboard.new_session(), Request::NewSession));
}

#[test]
fn help_is_toggled() {
    let (mut dashboard, _) = open(Ok(sessions(1)));
    dashboard.toggle_help();
    assert!(dashboard.help_is_shown());
    dashboard.toggle_help();
    assert!(!dashboard.help_is_shown());
}

#[test]
fn loaded_output_is_kept_by_session_and_handed_on() {
    let (mut dashboard, _) = open(Ok(sessions(2)));
    match dashboard.output_loaded::<()>("session-1".to_string(), Ok(output(3))) {
        LoadedOutput::Replace { session_id, lines } => {
            assert_eq!(session_id, "session-1");
            assert_eq!(lines.len(), 3);
            assert_eq!(lines[2].text, "line 2");
            assert_eq!(lines[2].stream, OutputStream::Stdout);
        }
        LoadedOutput::Failed(_) => panic!("the output was there"),
    }
    assert_eq!(dashboard.selected_output_lines().len(), 3);
    assert_eq!(dashboard.selected_output_text(), "line 0\nline 1\nline 2");
    dashboard.output_loaded::<()>("session-2".to_string(), Ok(output(1)));
    assert_eq!(dashboard.selected_output_lines().len(), 3);
    dashboard.scroll_down();
    assert_eq!(dashboard.selected_output_text(), "line 0");
}

#[test]
fn output_that_cannot_be_read_leaves_what_was_shown() {
    let (mut dashboard, request) = open(Ok(sessions(1)));
    answer(&mut dashboard, request, 4);
    match dashboard.output_loaded("session-1".to_string(), Err("disk full")) {
        LoadedOutput::Failed(error) => assert_eq!(error, "disk full"),
        LoadedOutput::Replace { .. } => panic!("nothing was read"),
    }
    assert_eq!(dashboard.selected_output_lines().len(), 4);
}

fn event(text: &str) -> OutputEvent {
    OutputEvent {
        line: OutputLine { stream: OutputStream::Stderr, text: text.to_string() },
    }
}

#[test]
fn live_events_are_drained() {
    let (sender, events) = broadcast::channel(2);
    let (mut dashboard, _) = Dashboard::new::<()>(Ok(sessions(1)), LIMIT, events);
    assert!(!dashboard.drain_event());
    // The channel holds two events: the first of the three is missed, which is reported
    // once before the other two.
    for text in ["a", "b", "c"] {
        assert!(sender.send(event(text)).is_ok());
    }
    assert!(dashboard.drain_event());
    assert!(dashboard.drain_event());
    assert!(dashboard.drain_event());
    assert!(!dashboard.drain_event());
    drop(sender);
    assert!(!dashboard.drain_event());
}

#[test]
fn a_tick_drains_the_live_output() {
    let (sender, events) = broadcast::channel(2);
    let (mut dashboard, _) = Dashboard::new::<()>(Ok(sessions(1)), LIMIT, events);
    // Nothing is waiting, then less than the channel holds, then more.
    for waiting in [0, 1, 5] {
        for _ in 0..waiting {
            assert!(sender.send(event("x")).is_ok());
        }
        assert!(matches!(dashboard.tick(), Request::ListSessions));
        assert!(sender.is_empty());
        assert!(!dashboard.drain_event());
    }
    assert!(sender.send(event("x")).is_ok());
    drop(sender);
    assert!(matches!(dashboard.tick(), Request::ListSessions));
    assert!(!dashboard.drain_event());
}

#[test]
fn only_the_draining_touches_the_live_output() {
    let (sender, events) = broadcast::channel(16);
    let (mut dashboard, _) = Dashboard::new::<()>(Ok(sessions(2)), LIMIT, events);
    assert!(sender.send(event("x")).is_ok());
    for _ in 0..3 {
        dashboard.next_pane();
        dashboard.scroll_up();
        dashboard.scroll_down();
    }
    dashboard.prev_pane();
    dashboard.toggle_help();
    dashboard.sync_output_scroll(3);
    dashboard.refresh::<()>(Ok(sessions(3)));
    dashboard.output_loaded::<()>("session-1".to_string(), Ok(output(3)));
    dashboard.output_loaded("session-1".to_string(), Err(()));
    assert_eq!(sender.len(), 1);
    assert!(dashboard.drain_event());
    assert_eq!(sender.len(), 0);
}

#[test]
fn a_step_down_undoes_a_step_up_in_the_output() {
    for lines in [0, 1, 10] {
        let (mut dashboard, request) = open(Ok(sessions(1)));
        answer(&mut dashboard, request, lines);
        dashboard.next_pane();
        dashboard.sync_output_scroll(3);
        let offset = dashboard.output_scroll_offset();
        dashboard.scroll_up();
        assert!(!dashboard.output_follow());
        dashboard.scroll_down();
        assert!(dashboard.output_follow());
        assert_eq!(dashboard.output_scroll_offset(), offset);
    }
}

#[test]
fn only_an_empty_or_closed_channel_ends_draining() {
    assert!(keep_draining(&Received::Event(event("x"))));
    assert!(keep_draining(&Received::Lagged(3)));
    assert!(!keep_draining(&Received::Empty));
    assert!(!keep_draining(&Received::Closed));
}

#[test]
fn lines_and_events_are_copied_whole() {
    let copy = event("hello").clone();
    assert_eq!(copy.line.text, "hello");
    assert_eq!(copy.line.stream, OutputStream::Stderr);
}
