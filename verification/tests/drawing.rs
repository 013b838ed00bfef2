use ecc2::session::{
    OutputEvent, OutputLine, OutputStream, Session, SessionMetrics, SessionState,
};
use ecc2::tui::dashboard::Dashboard;
use ecc2::tui::model::Request;
use ecc2::tui::render::{
    help_panel, metrics_line, plan_screen, session_row, state_icon, status_panel,
};
use ecc2::tui::screen::{Area, Edges, Hue, Weight};
use ecc2::tui::text::{append_decimal, join_lines, short_id, short_lines, short_runs};
use ratatui::backend::TestBackend;
use ratatui::buffer::Buffer;
use ratatui::style::{Color, Modifier};
use ratatui::Terminal;
use tokio::sync::broadcast::{self, Receiver};

fn session(id: &str, task: &str, state: SessionState) -> Session {
    Session {
        id: id.to_string(),
        task: task.to_string(),
        agent_type: "agent".to_string(),
        state,
        metrics: SessionMetrics {
            tokens_used: 1234567,
            tool_calls: 42,
            files_changed: 0,
            cost_usd: format!("{:.4}", 0.125f64),
            duration_secs: 90,
        },
    }
}

fn events() -> Receiver<OutputEvent> {
    broadcast::channel(1).1
}

fn open(sessions: Vec<Session>, lines: usize) -> Dashboard {
    let (mut dashboard, request) = Dashboard::new::<()>(Ok(sessions), 100_000, events());
    if let Request::LoadOutput { session_id, .. } = request {
        let output = (0..lines)
            .map(|n| OutputLine { stream: OutputStream::Stdout, text: format!("line {n}") })
            .collect();
        dashboard.output_loaded::<()>(session_id, Ok(output));
    }
    dashboard
}

fn try_draw(dashboard: &mut Dashboard, width: u16, height: u16) -> (bool, Buffer) {
    let mut terminal = Terminal::new(TestBackend::new(width, height)).expect("a terminal");
    let mut drawn = false;
    let mut buffer = Buffer::default();
    terminal
        .draw(|frame| {
            drawn = dashboard.render_if_possible(frame);
            buffer = frame.buffer_mut().clone();
        })
        .expect("a frame");
    (drawn, buffer)
}

fn draw(dashboard: &mut Dashboard, width: u16, height: u16) -> Buffer {
    let (drawn, buffer) = try_draw(dashboard, width, height);
    assert!(drawn);
    buffer
}

fn open_with_line(text: String) -> Dashboard {
    let mut dashboard = open(vec![session("session-1", "one", SessionState::Running)], 0);
    let line = OutputLine { stream: OutputStream::Stdout, text };
    dashboard.output_loaded::<()>("session-1".to_string(), Ok(vec![line]));
    dashboard
}

fn row(buffer: &Buffer, y: u16) -> String {
    (0..buffer.area.width).map(|x| buffer[(x, y)].symbol()).collect()
}

fn screen(buffer: &Buffer) -> String {
    (0..buffer.area.height).map(|y| row(buffer, y) + "\n").collect()
}

#[test]
fn the_panes_are_drawn() {
    let mut dashboard = open(
        vec![
            session("session-1", "tail output", SessionState::Running),
            session("s2", "wait", SessionState::Pending),
        ],
        3,
    );
    let buffer = draw(&mut dashboard, 140, 24);
    let text = screen(&buffer);
    assert!(row(&buffer, 0).contains("┌ ECC 2.0 | 1 running / 2 total ─"));
    assert!(row(&buffer, 1).contains("│ Sessions │ Output │ Metrics"));
    assert!(row(&buffer, 3).contains("┌ Sessions ─"));
    assert!(row(&buffer, 3).contains("┌ Output ─"));
    assert!(text.contains("● session- [agent] tail output"));
    assert!(text.contains("◌ s2 [agent] wait"));
    assert!(text.contains("│line 0"));
    assert!(text.contains("│line 2"));
    assert!(text.contains("┌ Metrics ─"));
    assert!(text.contains("Tokens: 1234567 | Tools: 42 | Files: 0 | Cost: $0.1250 | Duration: 90s"));
    assert!(row(&buffer, 22).contains(" [n]ew session  [s]top  [Tab] switch pane "));
    assert!(!text.contains("Keyboard Shortcuts:"));
}

#[test]
fn the_selection_stands_out() {
    let mut dashboard = open(
        vec![
            session("session-1", "one", SessionState::Running),
            session("session-2", "two", SessionState::Idle),
        ],
        0,
    );
    dashboard.scroll_down();
    let buffer = draw(&mut dashboard, 100, 24);
    // The tab of the selected pane, and the second row of the list.
    assert_eq!(buffer[(2, 1)].symbol(), "S");
    assert_eq!(buffer[(2, 1)].fg, Color::Cyan);
    assert!(buffer[(2, 1)].modifier.contains(Modifier::BOLD));
    assert_eq!(buffer[(1, 4)].fg, Color::Reset);
    assert!(!buffer[(1, 4)].modifier.contains(Modifier::BOLD));
    assert_eq!(buffer[(1, 5)].symbol(), "○");
    assert_eq!(buffer[(1, 5)].fg, Color::Cyan);
    assert!(buffer[(1, 5)].modifier.contains(Modifier::BOLD));
    // The border of the selected pane, and of none of the others.
    assert_eq!(buffer[(0, 3)].fg, Color::Cyan);
    assert_eq!(buffer[(99, 3)].fg, Color::Reset);
    // The status bar.
    assert_eq!(buffer[(2, 22)].fg, Color::DarkGray);

    dashboard.next_pane();
    let buffer = draw(&mut dashboard, 100, 24);
    assert_eq!(buffer[(0, 3)].fg, Color::Reset);
    assert_eq!(buffer[(99, 3)].fg, Color::Cyan);
    assert_eq!(buffer[(2, 1)].fg, Color::Reset);
    assert_eq!(buffer[(13, 1)].symbol(), "O");
    assert_eq!(buffer[(13, 1)].fg, Color::Cyan);
}

#[test]
fn the_help_covers_the_panes() {
    let mut dashboard = open(vec![session("session-1", "one", SessionState::Running)], 3);
    dashboard.toggle_help();
    let buffer = draw(&mut dashboard, 100, 24);
    let text = screen(&buffer);
    assert!(row(&buffer, 3).starts_with("┌ Help ─"));
    assert_eq!(buffer[(0, 3)].fg, Color::Yellow);
    assert!(text.contains("│Keyboard Shortcuts:"));
    assert!(text.contains("│  j/↓     Scroll down"));
    assert!(text.contains("│  q/C-c   Quit"));
    assert!(!text.contains("line 0"));
    assert!(!text.contains("[agent]"));
    dashboard.toggle_help();
    assert!(screen(&draw(&mut dashboard, 100, 24)).contains("line 0"));
}

#[test]
fn an_empty_dashboard_says_so() {
    let mut dashboard = open(Vec::new(), 0);
    let text = screen(&draw(&mut dashboard, 100, 24));
    assert!(text.contains("0 running / 0 total"));
    assert!(text.contains("No sessions. Press 'n' to start one."));
    assert!(text.contains("No metrics available"));
}

#[test]
fn a_session_without_output_is_waited_for() {
    let mut dashboard = open(vec![session("session-1", "one", SessionState::Running)], 0);
    let text = screen(&draw(&mut dashboard, 100, 24));
    assert!(text.contains("Waiting for session output..."));
}

#[test]
fn drawing_fits_the_output_to_its_pane() {
    let mut dashboard = open(vec![session("session-1", "one", SessionState::Running)], 50);
    let plan = plan_screen(Area { x: 0, y: 0, width: 100, height: 24 }, false);
    let pane = plan.panes.expect("the panes are shown").output;
    let shown = usize::from(pane.height) - 2;
    let buffer = draw(&mut dashboard, 100, 24);
    assert_eq!(dashboard.output_scroll_offset(), 50 - shown);
    let bottom = row(&buffer, pane.y + pane.height - 2);
    assert!(bottom.contains("│line 49"));
    let top = row(&buffer, pane.y + 1);
    assert!(top.contains(&format!("│line {}", 50 - shown)));

    dashboard.next_pane();
    dashboard.scroll_up();
    let buffer = draw(&mut dashboard, 100, 24);
    assert!(row(&buffer, pane.y + pane.height - 2).contains("│line 48"));
}

#[test]
fn a_smaller_screen_is_drawn_too() {
    let mut dashboard = open(vec![session("session-1", "one", SessionState::Running)], 50);
    let buffer = draw(&mut dashboard, 40, 12);
    assert!(row(&buffer, 0).ends_with('┐'));
    assert!(row(&buffer, 11).ends_with('┘'));
    for (width, height) in [(1, 1), (2, 3), (10, 2), (3, 40)] {
        draw(&mut dashboard, width, height);
    }
}

#[test]
fn the_screen_is_divided() {
    let area = Area { x: 0, y: 0, width: 100, height: 26 };
    let plan = plan_screen(area, false);
    assert_eq!(plan.header, Area { x: 0, y: 0, width: 100, height: 3 });
    assert_eq!(plan.body, Area { x: 0, y: 3, width: 100, height: 20 });
    assert_eq!(plan.status, Area { x: 0, y: 23, width: 100, height: 3 });
    let panes = plan.panes.expect("the panes are shown");
    assert_eq!(panes.sessions, Area { x: 0, y: 3, width: 35, height: 20 });
    assert_eq!(panes.right, Area { x: 35, y: 3, width: 65, height: 20 });
    assert_eq!(panes.output, Area { x: 35, y: 3, width: 65, height: 14 });
    assert_eq!(panes.metrics, Area { x: 35, y: 17, width: 65, height: 6 });
    assert!(plan_screen(area, true).panes.is_none());
}

#[test]
fn a_dashboard_that_cannot_be_drawn_is_left_alone() {
    // The eighth byte of this id is the first of the two of the letter.
    let mut dashboard = open(vec![session("1234567é", "one", SessionState::Running)], 3);
    assert!(dashboard.session_list().is_none());
    let (drawn, buffer) = try_draw(&mut dashboard, 80, 24);
    assert!(!drawn);
    assert_eq!(screen(&buffer).trim(), "");
    assert_eq!(dashboard.output_scroll_offset(), 0);
    // Under the help no id is shown.
    dashboard.toggle_help();
    draw(&mut dashboard, 80, 24);
}

#[test]
fn rows_are_counted_in_sixteen_bits() {
    let open = |lines| open(vec![session("session-1", "one", SessionState::Running)], lines);
    for lines in [65_000, 65_520, 65_532] {
        let mut dashboard = open(lines);
        let text = screen(&draw(&mut dashboard, 80, 24));
        assert!(text.contains(&format!("│line {}", lines - 1)));
    }
    for lines in [65_533, 65_535] {
        let mut dashboard = open(lines);
        assert!(!try_draw(&mut dashboard, 80, 24).0);
        assert_eq!(dashboard.output_scroll_offset(), 0);
    }
    let mut dashboard = open(70_000);
    draw(&mut dashboard, 80, 24);
    let offset = dashboard.output_scroll_offset();
    assert!(offset > 65_535);
    assert_eq!(usize::from(dashboard.output_panel().scroll), offset - 65_536);
}

#[test]
fn long_lines_are_drawn() {
    for text in ["x".repeat(50_000), "中".repeat(50_000), "é".repeat(10_000)] {
        let first = text.chars().next().expect("a character");
        let mut dashboard = open_with_line(text.clone());
        assert!(screen(&draw(&mut dashboard, 80, 24)).contains(&format!("│{first}")));
        let mut dashboard = open(vec![session("session-1", &text, SessionState::Running)], 1);
        assert!(screen(&draw(&mut dashboard, 80, 24)).contains(&format!("[agent] {first}")));
    }
}

#[test]
fn overwide_clusters_are_drawn() {
    // A consonant and its vowel signs are one cluster, however many signs there are.
    for signs in [40_000, 65_534, 65_535, 65_536, 70_000] {
        let text = "क".to_string() + &"ा".repeat(signs);
        for text in [text.clone(), "x".repeat(29) + &text, "x".repeat(51) + &text] {
            draw(&mut open_with_line(text.clone()), 80, 24);
            draw(&mut open(vec![session("session-1", &text, SessionState::Running)], 1), 80, 24);
        }
    }
}

#[test]
fn wide_frames_are_drawn() {
    let mut dashboard = open(vec![session("session-1", "one", SessionState::Running)], 3);
    let buffer = draw(&mut dashboard, 40_000, 24);
    assert!(screen(&buffer).contains("│line 2"));
    draw(&mut dashboard, 65_535, 20);
    // The pane of the output has 39,000 columns.
    for (symbol, count) in [("x", 21_846), ("x", 50_000), ("中", 30_000), ("👍", 30_000)] {
        let buffer = draw(&mut open_with_line(symbol.repeat(count)), 60_000, 20);
        assert_eq!(buffer[(21_001, 4)].symbol(), symbol);
    }
    draw(&mut open_with_line("❤\u{fe0f}".repeat(20_000)), 60_000, 20);
    // A cluster of thirty thousand columns, begun at the end of such a pane, cannot be counted.
    let overwide = "x".repeat(38_000) + "क" + &"ा".repeat(30_000);
    assert!(!try_draw(&mut open_with_line(overwide.clone()), 60_000, 20).0);
    draw(&mut open_with_line(overwide), 45_000, 20);
}

#[test]
fn the_length_of_runs_is_measured() {
    assert!(short_runs("", 0));
    assert!(short_runs("plain text\nünd λόγος и слово 中文かなカナ한글 │", 0));
    assert!(!short_runs("e\u{301}", 0));
    assert!(short_runs("e\u{301}a\u{301}", 1));
    assert!(!short_runs("e\u{301}\u{301}", 1));
    assert!(short_runs("👍👍👍", 1));
    assert!(short_runs("x❤\u{fe0f}❤\u{fe0f}❤\u{fe0f}", 2));
    assert!(short_runs("👍🏽👍🏽👍🏽", 2));
    assert!(!short_runs("👩\u{200d}👩\u{200d}👧", 4));
    assert!(short_runs("👩\u{200d}👩\u{200d}👧", 5));
}

#[test]
fn the_length_of_lines_is_measured() {
    assert!(short_lines(""));
    assert!(short_lines(&"x".repeat(21_845)));
    assert!(!short_lines(&"x".repeat(21_846)));
    assert!(short_lines(&("é".repeat(21_845) + "\n" + &"é".repeat(21_845))));
    assert!(!short_lines(&("é\n".to_string() + &"é".repeat(21_846) + "\n")));
}

fn assert_rounded(part: u16, percentage: u16, whole: u16) {
    let exact = i64::from(percentage) * i64::from(whole);
    let off = 100 * i64::from(part) - exact;
    assert!(-50 < off && off <= 50, "{part} of {whole}");
}

#[test]
fn every_part_of_the_screen_has_its_share() {
    let mut areas = Vec::new();
    for size in (0..300).chain([1_000, 9_999, 32_768, 40_001, 65_535]) {
        areas.push(Area { x: 0, y: 0, width: size, height: size });
    }
    for (start, size) in [(1, 77), (7, 1_234), (65_000, 535), (30_000, 35_533)] {
        areas.push(Area { x: start, y: start + 1, width: size, height: size - 1 });
    }
    for area in areas {
        let plan = plan_screen(area, false);
        for part in [plan.header, plan.body, plan.status] {
            assert_eq!((part.x, part.width), (area.x, area.width));
        }
        assert_eq!(plan.header.y, area.y);
        assert_eq!(plan.body.y, plan.header.y + plan.header.height);
        assert_eq!(plan.status.y, plan.body.y + plan.body.height);
        assert_eq!(plan.status.y + plan.status.height, area.y + area.height);
        if area.height >= 16 {
            assert_eq!((plan.header.height, plan.status.height), (3, 3));
            assert_eq!(plan.body.height, area.height - 6);
        } else {
            assert!(plan.header.height <= 3 && plan.status.height <= 3);
            assert_eq!(plan.body.height, area.height.min(10));
        }
        let body = plan.body;
        let panes = plan.panes.expect("the panes are shown");
        assert_eq!((panes.sessions.y, panes.sessions.height), (body.y, body.height));
        assert_eq!((panes.right.y, panes.right.height), (body.y, body.height));
        assert_eq!(panes.sessions.x, body.x);
        assert_eq!(panes.right.x, body.x + panes.sessions.width);
        assert_eq!(panes.right.x + panes.right.width, body.x + body.width);
        assert_rounded(panes.sessions.width, 35, body.width);
        assert_eq!((panes.output.x, panes.output.width), (panes.right.x, panes.right.width));
        assert_eq!((panes.metrics.x, panes.metrics.width), (panes.right.x, panes.right.width));
        assert_eq!(panes.output.y, body.y);
        assert_eq!(panes.metrics.y, body.y + panes.output.height);
        assert_eq!(panes.metrics.y + panes.metrics.height, body.y + body.height);
        assert_rounded(panes.output.height, 70, body.height);
    }
}

#[test]
fn widgets_are_described() {
    let dashboard = open(
        vec![
            session("session-1", "one", SessionState::Running),
            session("session-2", "two", SessionState::Failed),
        ],
        2,
    );
    let header = dashboard.header();
    assert_eq!(header.title, " ECC 2.0 | 1 running / 2 total ");
    assert_eq!(header.labels, vec!["Sessions", "Output", "Metrics"]);
    assert_eq!(header.selected, 0);
    assert_eq!(header.highlight, Hue::Cyan);
    assert_eq!(header.weight, Weight::Bold);
    assert_eq!(header.edges, Edges::All);
    let list = dashboard.session_list().expect("every id can be shown");
    assert_eq!(list.title, " Sessions ");
    assert_eq!(list.border, Some(Hue::Cyan));
    assert_eq!(list.rows.len(), 2);
    assert_eq!(list.rows[0].text, "● session- [agent] one");
    assert_eq!(list.rows[0].highlight, Some(Hue::Cyan));
    assert_eq!(list.rows[1].text, "✗ session- [agent] two");
    assert_eq!(list.rows[1].highlight, None);
    assert_eq!(list.rows[0].weight, Weight::Bold);
    assert_eq!(list.rows[1].weight, Weight::Normal);
    let output = dashboard.output_panel();
    assert_eq!(output.title.as_deref(), Some(" Output "));
    assert_eq!(output.border, None);
    assert_eq!(output.text, "line 0\nline 1");
    let metrics = dashboard.metrics_panel();
    assert_eq!(metrics.title.as_deref(), Some(" Metrics "));
    assert_eq!(
        metrics.text,
        "Tokens: 1234567 | Tools: 42 | Files: 0 | Cost: $0.1250 | Duration: 90s"
    );
    assert_eq!(status_panel().hue, Some(Hue::DarkGray));
    assert_eq!(status_panel().title, None);
    assert_eq!(help_panel().title.as_deref(), Some(" Help "));
    assert_eq!(help_panel().text.lines().count(), 11);
}

#[test]
fn every_state_has_its_icon() {
    assert_eq!(state_icon(SessionState::Running), "●");
    assert_eq!(state_icon(SessionState::Idle), "○");
    assert_eq!(state_icon(SessionState::Completed), "✓");
    assert_eq!(state_icon(SessionState::Failed), "✗");
    assert_eq!(state_icon(SessionState::Stopped), "■");
    assert_eq!(state_icon(SessionState::Pending), "◌");
}

#[test]
fn ids_are_shortened_to_eight_bytes() {
    assert_eq!(short_id("session-1"), Some("session-"));
    assert_eq!(short_id("12345678"), Some("12345678"));
    assert_eq!(short_id("abc"), Some("abc"));
    assert_eq!(short_id(""), Some(""));
    assert_eq!(short_id("ééééé"), Some("éééé"));
    assert_eq!(short_id("é"), Some("é"));
    assert_eq!(short_id("aéééééé"), None);
    assert!(session_row(&session("aéééééé", "one", SessionState::Idle)).is_none());
}

#[test]
fn numbers_are_written_in_decimal() {
    for n in [0u64, 7, 10, 99, 100, 1_000_000, u64::MAX] {
        let mut text = "n=".to_string();
        append_decimal(&mut text, n);
        assert_eq!(text, format!("n={n}"));
    }
}

#[test]
fn lines_are_joined() {
    assert_eq!(join_lines(&vec![]), "");
    assert_eq!(join_lines(&vec!["a"]), "a");
    assert_eq!(join_lines(&vec!["a", "", "b"]), "a\n\nb");
    assert_eq!(
        metrics_line(&session("s", "t", SessionState::Idle)),
        "Tokens: 1234567 | Tools: 42 | Files: 0 | Cost: $0.1250 | Duration: 90s"
    );
}
