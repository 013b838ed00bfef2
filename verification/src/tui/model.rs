//! What the dashboard is: a mathematical model of its state, of how each key changes it and
//! of what it shows.

use tokio::sync::broadcast::Receiver;
use vstd::prelude::*;

use crate::session::{
    session_views, LineView, OutputEvent, Session, SessionState, SessionView,
};
use crate::tui::screen::{
    list_painted, may_split, tabs_painted, text_is_countable, text_painted, Area, Axis, Edges, Hue,
    ListRowView, RowListView, Share, TabBarView, TextPanelView, Weight,
};
use crate::tui::text::{decimal, has_short_id, joined, short_id_text};

verus! {

/// The parts of the dashboard that can be selected.
#[derive(Debug, Clone, Copy, PartialEq, Eq, Structural)]
pub enum Pane {
    Sessions,
    Output,
    Metrics,
}

impl Pane {
    /// The pane to the right, and from the last one back to the first.
    pub open spec fn next(self) -> Pane {
        match self {
            Pane::Sessions => Pane::Output,
            Pane::Output => Pane::Metrics,
            Pane::Metrics => Pane::Sessions,
        }
    }

    /// The pane to the left, and from the first one on to the last.
    pub open spec fn prev(self) -> Pane {
        match self {
            Pane::Sessions => Pane::Metrics,
            Pane::Output => Pane::Sessions,
            Pane::Metrics => Pane::Output,
        }
    }

    /// The pane's place among the three.
    pub open spec fn index(self) -> int {
        match self {
            Pane::Sessions => 0,
            Pane::Output => 1,
            Pane::Metrics => 2,
        }
    }
}

/// The larger of two numbers.
pub open spec fn max(a: int, b: int) -> int {
    if a < b {
        b
    } else {
        a
    }
}

/// The smaller of two numbers.
pub open spec fn min(a: int, b: int) -> int {
    if a < b {
        a
    } else {
        b
    }
}

/// The state of a dashboard.
#[verifier::ext_equal]
pub struct Model {
    /// The sessions, in the order in which they are listed.
    pub sessions: Seq<SessionView>,
    /// The output that was loaded, by the session's id.
    pub outputs: Map<Seq<char>, Seq<LineView>>,
    /// The pane that the keys act on.
    pub pane: Pane,
    /// Which session is selected.
    pub selected: int,
    /// Whether the help is shown in place of the panes.
    pub help: bool,
    /// Whether the output pane stays at the end of the output.
    pub follow: bool,
    /// The first line of output that is shown.
    pub scroll: int,
    /// How many lines of output were shown last.
    pub height: int,
    /// How many lines of output are loaded at most.
    pub limit: int,
    /// The receiving end of the live output.
    pub feed: Receiver<OutputEvent>,
}

impl Model {
    /// The state of a dashboard that was just opened on `sessions` and on the live output of
    /// `feed`.
    pub open spec fn opened(
        sessions: Seq<SessionView>,
        limit: int,
        feed: Receiver<OutputEvent>,
    ) -> Model {
        Model {
            sessions,
            outputs: Map::empty(),
            pane: Pane::Sessions,
            selected: 0,
            help: false,
            follow: true,
            scroll: 0,
            height: 0,
            limit,
            feed,
        }
    }

    /// Whether the selection lies on a session, where there is one.
    pub open spec fn selection_is_valid(self) -> bool {
        if self.sessions.len() == 0 {
            self.selected == 0
        } else {
            0 <= self.selected < self.sessions.len()
        }
    }

    /// The id of the selected session.
    pub open spec fn selected_id(self) -> Option<Seq<char>> {
        if 0 <= self.selected < self.sessions.len() {
            Some(self.sessions[self.selected].id)
        } else {
            None
        }
    }

    /// The output of the selected session, as far as it was loaded.
    pub open spec fn selected_output(self) -> Seq<LineView> {
        match self.selected_id() {
            Some(id) => if self.outputs.contains_key(id) {
                self.outputs[id]
            } else {
                Seq::empty()
            },
            None => Seq::empty(),
        }
    }

    /// The largest scroll offset that leaves no blank line at the end.
    pub open spec fn max_scroll(self) -> int {
        max(self.selected_output().len() - max(self.height, 1), 0)
    }

    /// With the pane to the right selected.
    pub open spec fn moved_right(self) -> Model {
        Model { pane: self.pane.next(), ..self }
    }

    /// With the pane to the left selected.
    pub open spec fn moved_left(self) -> Model {
        Model { pane: self.pane.prev(), ..self }
    }

    /// With the help shown if it was hidden, and hidden if it was shown.
    pub open spec fn help_toggled(self) -> Model {
        Model { help: !self.help, ..self }
    }

    /// With the view of the output back at the end.
    pub open spec fn view_reset(self) -> Model {
        Model { follow: true, scroll: 0, ..self }
    }

    /// One step down.
    ///
    /// In the session pane the next session is selected, if there is one. In the output pane
    /// the output moves up by a line, and once its end is reached, is followed again.
    pub open spec fn scrolled_down(self) -> Model {
        if self.pane == Pane::Sessions && self.sessions.len() > 0 {
            Model { selected: min(self.selected + 1, self.sessions.len() - 1), ..self }.view_reset()
        } else if self.pane == Pane::Output && !self.follow {
            if self.scroll + 1 >= self.max_scroll() {
                Model { follow: true, scroll: self.max_scroll(), ..self }
            } else {
                Model { scroll: self.scroll + 1, ..self }
            }
        } else {
            self
        }
    }

    /// One step up.
    ///
    /// In the session pane the previous session is selected, if there is one. In the output
    /// pane the output is followed no longer, and moves down by a line. In the metrics pane
    /// the offset goes down all the same.
    pub open spec fn scrolled_up(self) -> Model {
        match self.pane {
            Pane::Sessions => Model { selected: max(self.selected - 1, 0), ..self }.view_reset(),
            Pane::Output => {
                let from = if self.follow {
                    self.max_scroll()
                } else {
                    self.scroll
                };
                Model { follow: false, scroll: max(from - 1, 0), ..self }
            },
            Pane::Metrics => Model { scroll: max(self.scroll - 1, 0), ..self },
        }
    }

    /// With a new list of sessions. The selection keeps its place in the list, or moves up
    /// to the last session.
    pub open spec fn relisted(self, sessions: Seq<SessionView>) -> Model {
        Model { sessions, selected: max(min(self.selected, sessions.len() - 1), 0), ..self }
    }

    /// With the output of a session loaded.
    pub open spec fn loaded(self, id: Seq<char>, lines: Seq<LineView>) -> Model {
        Model { outputs: self.outputs.insert(id, lines), ..self }
    }

    /// With the output pane `viewport` lines high: at the end of the output if it is
    /// followed, else where it was, but not beyond the end.
    pub open spec fn fitted(self, viewport: int) -> Model {
        let resized = Model { height: max(viewport, 1), ..self };
        Model {
            scroll: if self.follow {
                resized.max_scroll()
            } else {
                min(self.scroll, resized.max_scroll())
            },
            ..resized
        }
    }
}

/// What the dashboard asks its driver for.
#[derive(Debug)]
pub enum Request {
    Nothing,
    /// Ask the user for a new session.
    NewSession,
    /// List the sessions in the store, and hand the list to `Dashboard::refresh`.
    ListSessions,
    /// Record in the store that a session is stopped, and report to
    /// `Dashboard::session_stopped`.
    StopSession { session_id: String },
    /// Read the last `limit` lines of a session's output from the store, and hand them to
    /// `Dashboard::output_loaded`.
    LoadOutput { session_id: String, limit: usize },
}

/// What a [`Request`] is.
pub enum RequestView {
    Nothing,
    NewSession,
    ListSessions,
    StopSession { session_id: Seq<char> },
    LoadOutput { session_id: Seq<char>, limit: int },
}

impl View for Request {
    type V = RequestView;

    open spec fn view(&self) -> RequestView {
        match self {
            Request::Nothing => RequestView::Nothing,
            Request::NewSession => RequestView::NewSession,
            Request::ListSessions => RequestView::ListSessions,
            Request::StopSession { session_id } => RequestView::StopSession {
                session_id: session_id@,
            },
            Request::LoadOutput { session_id, limit } => RequestView::LoadOutput {
                session_id: session_id@,
                limit: *limit as int,
            },
        }
    }
}

impl Model {
    /// Asks for the output of the selected session, if there is one.
    pub open spec fn output_request(self) -> RequestView {
        match self.selected_id() {
            Some(session_id) => RequestView::LoadOutput { session_id, limit: self.limit },
            None => RequestView::Nothing,
        }
    }

    /// Asks to stop the selected session, if there is one.
    pub open spec fn stop_request(self) -> RequestView {
        match self.selected_id() {
            Some(session_id) => RequestView::StopSession { session_id },
            None => RequestView::Nothing,
        }
    }
}

/// The sessions of a listing; a listing that failed counts as empty.
pub open spec fn listed<E>(listing: Result<Vec<Session>, E>) -> Seq<SessionView> {
    match listing {
        Ok(sessions) => session_views(sessions@),
        Err(_) => Seq::empty(),
    }
}

/// The sign that stands for a session's state.
pub open spec fn state_icon_text(state: SessionState) -> Seq<char> {
    match state {
        SessionState::Running => "●"@,
        SessionState::Idle => "○"@,
        SessionState::Completed => "✓"@,
        SessionState::Failed => "✗"@,
        SessionState::Stopped => "■"@,
        SessionState::Pending => "◌"@,
    }
}

/// The lines of the help.
pub open spec fn help_lines() -> Seq<Seq<char>> {
    seq![
        "Keyboard Shortcuts:"@,
        ""@,
        "  n       New session"@,
        "  s       Stop selected session"@,
        "  Tab     Next pane"@,
        "  S-Tab   Previous pane"@,
        "  j/↓     Scroll down"@,
        "  k/↑     Scroll up"@,
        "  r       Refresh"@,
        "  ?       Toggle help"@,
        "  q/C-c   Quit"@,
    ]
}

/// The help.
pub open spec fn help_panel_view() -> TextPanelView {
    TextPanelView {
        title: Some(" Help "@),
        edges: Edges::All,
        border: Some(Hue::Yellow),
        hue: None,
        text: joined(help_lines()),
        scroll: 0,
    }
}

/// The keys, at the bottom of the screen.
pub open spec fn status_panel_view() -> TextPanelView {
    TextPanelView {
        title: None,
        edges: Edges::All,
        border: None,
        hue: Some(Hue::DarkGray),
        text: " [n]ew session  [s]top  [Tab] switch pane  [j/k] scroll  [?] help  [q]uit "@,
        scroll: 0,
    }
}

/// How many of `sessions` are running.
pub open spec fn running_count(sessions: Seq<SessionView>) -> nat {
    sessions.filter(|session: SessionView| session.state == SessionState::Running).len()
}

/// The row of a session in the list: its state, the beginning of its id, its agent and its
/// task.
pub open spec fn session_row_text(session: SessionView) -> Seq<char> {
    state_icon_text(session.state) + " "@ + short_id_text(session.id) + " ["@ + session.agent_type
        + "] "@ + session.task
}

/// What a session has used up, in one line.
pub open spec fn metrics_text(session: SessionView) -> Seq<char> {
    let m = session.metrics;
    "Tokens: "@ + decimal(m.tokens_used) + " | Tools: "@ + decimal(m.tool_calls) + " | Files: "@
        + decimal(m.files_changed) + " | Cost: $"@ + m.cost_usd + " | Duration: "@ + decimal(
        m.duration_secs,
    ) + "s"@
}

/// The texts of lines of output, one below the other.
pub open spec fn output_text(lines: Seq<LineView>) -> Seq<char> {
    joined(lines.map_values(|line: LineView| line.text))
}

impl Model {
    /// How many lines of output fit into a pane of `height` rows, inside its border.
    pub open spec fn viewport(height: int) -> int {
        max(height - 2, 0)
    }

    /// The colour of a pane's border: the selected pane stands out.
    pub open spec fn border(self, pane: Pane) -> Option<Hue> {
        if self.pane == pane {
            Some(Hue::Cyan)
        } else {
            None
        }
    }

    /// The header: how many sessions there are, and which pane is selected.
    pub open spec fn header_view(self) -> TabBarView {
        TabBarView {
            title: " ECC 2.0 | "@ + decimal(running_count(self.sessions)) + " running / "@
                + decimal(self.sessions.len()) + " total "@,
            edges: Edges::All,
            labels: seq!["Sessions"@, "Output"@, "Metrics"@],
            selected: self.pane.index(),
            highlight: Hue::Cyan,
            weight: Weight::Bold,
        }
    }

    /// A row of the session list: the selected one stands out.
    pub open spec fn session_row_view(self, i: int) -> ListRowView {
        ListRowView {
            text: session_row_text(self.sessions[i]),
            highlight: if i == self.selected {
                Some(Hue::Cyan)
            } else {
                None
            },
            weight: if i == self.selected {
                Weight::Bold
            } else {
                Weight::Normal
            },
        }
    }

    /// The session list.
    pub open spec fn session_list_view(self) -> RowListView {
        RowListView {
            title: " Sessions "@,
            edges: Edges::All,
            border: self.border(Pane::Sessions),
            rows: Seq::new(self.sessions.len(), |i: int| self.session_row_view(i)),
        }
    }

    /// What the output pane says.
    pub open spec fn output_pane_text(self) -> Seq<char> {
        if self.selected_id() is None {
            "No sessions. Press 'n' to start one."@
        } else if self.selected_output().len() == 0 {
            "Waiting for session output..."@
        } else {
            output_text(self.selected_output())
        }
    }

    /// The output of the selected session. The offset is cut to sixteen bits.
    pub open spec fn output_panel_view(self) -> TextPanelView {
        TextPanelView {
            title: Some(" Output "@),
            edges: Edges::All,
            border: self.border(Pane::Output),
            hue: None,
            text: self.output_pane_text(),
            scroll: self.scroll % 0x1_0000,
        }
    }

    /// What the metrics pane says.
    pub open spec fn metrics_pane_text(self) -> Seq<char> {
        if 0 <= self.selected < self.sessions.len() {
            metrics_text(self.sessions[self.selected])
        } else {
            "No metrics available"@
        }
    }

    /// What the selected session has used up.
    pub open spec fn metrics_panel_view(self) -> TextPanelView {
        TextPanelView {
            title: Some(" Metrics "@),
            edges: Edges::All,
            border: self.border(Pane::Metrics),
            hue: None,
            text: self.metrics_pane_text(),
            scroll: 0,
        }
    }
}

/// Where the panes are drawn, and the part of the screen that is divided into two of them.
#[derive(Debug, Clone, Copy, PartialEq, Eq, Structural)]
pub struct PanePlan {
    pub sessions: Area,
    pub right: Area,
    pub output: Area,
    pub metrics: Area,
}

/// Where everything is drawn. Without panes, the help takes their place.
#[derive(Debug, Clone, Copy, PartialEq, Eq, Structural)]
pub struct ScreenPlan {
    pub header: Area,
    pub body: Area,
    pub status: Area,
    pub panes: Option<PanePlan>,
}

impl PanePlan {
    /// Whether `body` may be divided in this way: 35% of its width for the sessions, and of
    /// the rest 70% of the height for the output.
    pub open spec fn divides(self, body: Area) -> bool {
        &&& may_split(
            body,
            Axis::Horizontal,
            seq![Share::Percentage(35), Share::Percentage(65)],
            seq![self.sessions, self.right],
        )
        &&& may_split(
            self.right,
            Axis::Vertical,
            seq![Share::Percentage(70), Share::Percentage(30)],
            seq![self.output, self.metrics],
        )
    }

    /// Whether the panes have their shares of `body`: side by side 35% of its width for the
    /// sessions and the rest on the right; there, one above the other, 70% of the height for
    /// the output and the rest for the metrics. A percentage is rounded to a cell, and a half is
    /// rounded up.
    pub open spec fn in_proportion(self, body: Area) -> bool {
        &&& self.sessions.y == body.y && self.sessions.height == body.height
        &&& self.right.y == body.y && self.right.height == body.height
        &&& self.sessions.x == body.x
        &&& self.right.x == self.sessions.x + self.sessions.width
        &&& self.right.x + self.right.width == body.x + body.width
        &&& -50 < 100 * self.sessions.width - 35 * body.width <= 50
        &&& self.output.x == self.right.x && self.output.width == self.right.width
        &&& self.metrics.x == self.right.x && self.metrics.width == self.right.width
        &&& self.output.y == body.y
        &&& self.metrics.y == self.output.y + self.output.height
        &&& self.metrics.y + self.metrics.height == body.y + body.height
        &&& -50 < 100 * self.output.height - 70 * body.height <= 50
    }

    /// Whether all panes lie inside `bounds`.
    pub open spec fn inside(self, bounds: Area) -> bool {
        &&& self.sessions.inside(bounds)
        &&& self.output.inside(bounds)
        &&& self.metrics.inside(bounds)
    }
}

impl ScreenPlan {
    /// Whether `bounds` may be divided in this way: three rows for the header and three for
    /// the status bar, and the panes in between unless the help is shown.
    pub open spec fn divides(self, bounds: Area, help: bool) -> bool {
        &&& may_split(
            bounds,
            Axis::Vertical,
            seq![Share::Length(3), Share::Min(10), Share::Length(3)],
            seq![self.header, self.body, self.status],
        )
        &&& self.panes is None <==> help
        &&& self.panes matches Some(panes) ==> panes.divides(self.body)
    }

    /// Whether everything has its share of `bounds`. One below the other, three rows are for the
    /// header, three for the status bar, and the rest for what is in between. Where there are
    /// too few rows for that, what is in between gets ten of them, or all that there are; how
    /// the header and the status bar divide what is left is open.
    pub open spec fn in_proportion(self, bounds: Area) -> bool {
        &&& self.header.x == bounds.x && self.header.width == bounds.width
        &&& self.body.x == bounds.x && self.body.width == bounds.width
        &&& self.status.x == bounds.x && self.status.width == bounds.width
        &&& self.header.y == bounds.y
        &&& self.body.y == self.header.y + self.header.height
        &&& self.status.y == self.body.y + self.body.height
        &&& self.status.y + self.status.height == bounds.y + bounds.height
        &&& self.header.height <= 3 && self.status.height <= 3
        &&& self.body.height == if bounds.height >= 16 {
            bounds.height - 6
        } else {
            min(bounds.height as int, 10)
        }
        &&& self.panes matches Some(panes) ==> panes.in_proportion(self.body)
    }

    /// Whether everything is drawn inside `bounds`.
    pub open spec fn inside(self, bounds: Area) -> bool {
        &&& self.header.inside(bounds)
        &&& self.body.inside(bounds)
        &&& self.status.inside(bounds)
        &&& self.panes matches Some(panes) ==> panes.inside(bounds)
    }

    /// Whether this is a plan for a frame that covers `bounds`, as far as numbers tell: it has
    /// panes unless the help is shown, and everything lies inside the frame and has its share.
    pub open spec fn suits(self, bounds: Area, help: bool) -> bool {
        &&& self.panes is None <==> help
        &&& self.inside(bounds)
        &&& self.in_proportion(bounds)
    }
}

impl Model {
    /// The state after it was drawn by `plan`: the output pane has been fitted to its area.
    pub open spec fn rendered(self, plan: ScreenPlan) -> Model {
        match plan.panes {
            Some(panes) => self.fitted(Model::viewport(panes.output.height as int)),
            None => self,
        }
    }

    /// The cells of a frame that covers `bounds` after the state was drawn by `plan` over
    /// `cells`.
    pub open spec fn painted(
        self,
        cells: Seq<Seq<char>>,
        bounds: Area,
        plan: ScreenPlan,
    ) -> Seq<Seq<char>> {
        let shown = self.rendered(plan);
        let header = tabs_painted(cells, bounds, self.header_view(), plan.header);
        let body = match plan.panes {
            None => text_painted(header, bounds, help_panel_view(), plan.body),
            Some(panes) => {
                let list = self.session_list_view();
                let sessions = list_painted(header, bounds, list, panes.sessions);
                let panel = shown.output_panel_view();
                let output = text_painted(sessions, bounds, panel, panes.output);
                text_painted(output, bounds, shown.metrics_panel_view(), panes.metrics)
            },
        };
        text_painted(body, bounds, status_panel_view(), plan.status)
    }

    /// Whether `after` and `painted` are what may be left of the state and of `cells` when
    /// the state is drawn on a frame that covers `bounds`: the frame was divided in one of
    /// the ways that are allowed, and everything drawn where that division says.
    pub open spec fn drawn(
        self,
        cells: Seq<Seq<char>>,
        bounds: Area,
        after: Model,
        painted: Seq<Seq<char>>,
    ) -> bool {
        exists|plan: ScreenPlan|
            {
                &&& #[trigger] plan.divides(bounds, self.help)
                &&& plan.suits(bounds, self.help)
                &&& after == self.rendered(plan)
                &&& painted == self.painted(cells, bounds, plan)
            }
    }

    /// Whether every session has an id with a beginning that can be shown.
    pub open spec fn ids_can_be_shown(self) -> bool {
        forall|i: int|
            0 <= i < self.sessions.len() ==> has_short_id((#[trigger] self.sessions[i]).id)
    }

    /// Whether the output can be counted while it is drawn in `area`, fitted to it.
    pub open spec fn output_is_countable(self, area: Area) -> bool {
        text_is_countable(
            self.output_pane_text(),
            self.fitted(Model::viewport(area.height as int)).scroll % 0x1_0000,
            area,
        )
    }

    /// Whether the metrics can be counted while they are drawn in `area`.
    pub open spec fn metrics_are_countable(self, area: Area) -> bool {
        text_is_countable(self.metrics_pane_text(), 0, area)
    }

    /// Whether the state can be drawn by `plan` on a frame that covers `bounds`: ratatui counts
    /// rows and columns in sixteen bits, and an id that would be cut inside a character cannot
    /// be shown.
    pub open spec fn fits_plan(self, plan: ScreenPlan, bounds: Area) -> bool {
        &&& bounds.countable()
        &&& plan.inside(bounds)
        &&& plan.panes matches Some(panes) ==> {
            &&& self.ids_can_be_shown()
            &&& self.output_is_countable(panes.output)
            &&& self.metrics_are_countable(panes.metrics)
        }
    }

    /// Whether the state can be drawn on a frame that covers `bounds`, by whichever plan suits.
    pub open spec fn fits(self, bounds: Area) -> bool {
        &&& bounds.countable()
        &&& forall|plan: ScreenPlan| #[trigger]
            plan.suits(bounds, self.help) ==> self.fits_plan(plan, bounds)
    }
}

} // verus!
