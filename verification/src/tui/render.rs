//! Drawing the dashboard.

use ratatui::Frame;
use vstd::prelude::*;

use crate::session::{
    line_views, session_views, LineView, OutputLine, Session, SessionState, SessionView,
};
use crate::tui::dashboard::Dashboard;
use crate::tui::model::{
    help_lines, help_panel_view, metrics_text, output_text, running_count, session_row_text,
    state_icon_text, status_panel_view, Model, Pane, PanePlan, ScreenPlan,
};
use crate::tui::screen::{
    area_of, frame_area, frame_cells, has_room, list_painted, paint_list, paint_tabs, paint_text,
    one_takes_the_rest, shares_settled, split, tabs_painted, text_can_be_counted, text_painted, total, Area, Axis, Edges,
    Hue, ListRow, RowList, Share, TabBar, TextPanel, Weight,
};
use crate::tui::text::{
    append_decimal, decimal_is_short, has_short_id, join_lines, joined, joined_is_bounded,
    short_id, short_text_has_short_lines, LINE_LIMIT,
};

verus! {

/// The sign that stands for a session's state.
pub fn state_icon(state: SessionState) -> (icon: &'static str)
    ensures
        icon@ == state_icon_text(state),
{
    match state {
        SessionState::Running => "●",
        SessionState::Idle => "○",
        SessionState::Completed => "✓",
        SessionState::Failed => "✗",
        SessionState::Stopped => "■",
        SessionState::Pending => "◌",
    }
}

/// How many sessions are running.
fn count_running(sessions: &Vec<Session>) -> (count: usize)
    ensures
        count == running_count(session_views(sessions@)),
        count <= sessions@.len(),
{
    let ghost views = session_views(sessions@);
    let mut count: usize = 0;
    assert(views.take(0) =~= Seq::empty());
    proof {
        reveal(Seq::filter);
    }
    for i in 0..sessions.len()
        invariant
            views == session_views(sessions@),
            count == running_count(views.take(i as int)),
            count <= i,
    {
        proof {
            reveal(Seq::filter);
            assert(views.take(i + 1).drop_last() =~= views.take(i as int));
        }
        if sessions[i].state == SessionState::Running {
            count = count + 1;
        }
    }
    assert(views.take(sessions@.len() as int) =~= views);
    count
}

/// The row of a session in the list.
pub fn session_row(session: &Session) -> (text: Option<String>)
    ensures
        match text {
            Some(row) => has_short_id(session.id@) && row@
                == session_row_text(session@),
            None => !has_short_id(session.id@),
        },
{
    match short_id(session.id.as_str()) {
        Some(id) => {
            let mut text = state_icon(session.state).to_owned();
            text.append(" ");
            text.append(id);
            text.append(" [");
            text.append(session.agent_type.as_str());
            text.append("] ");
            text.append(session.task.as_str());
            Some(text)
        },
        None => None,
    }
}

/// What a session has used up, in one line.
pub fn metrics_line(session: &Session) -> (text: String)
    ensures
        text@ == metrics_text(session@),
{
    let mut text = "Tokens: ".to_owned();
    append_decimal(&mut text, session.metrics.tokens_used);
    text.append(" | Tools: ");
    append_decimal(&mut text, session.metrics.tool_calls);
    text.append(" | Files: ");
    append_decimal(&mut text, session.metrics.files_changed);
    text.append(" | Cost: $");
    text.append(session.metrics.cost_usd.as_str());
    text.append(" | Duration: ");
    append_decimal(&mut text, session.metrics.duration_secs);
    text.append("s");
    text
}

/// The texts of lines of output, one below the other.
fn lines_text(lines: &[OutputLine]) -> (text: String)
    ensures
        text@ == output_text(line_views(lines@)),
{
    let mut texts: Vec<&str> = Vec::new();
    for i in 0..lines.len()
        invariant
            texts@.len() == i,
            forall|j: int| 0 <= j < i ==> (#[trigger] texts@[j])@ == lines@[j].text@,
    {
        texts.push(lines[i].text.as_str());
    }
    assert(texts@.map_values(|line: &str| line@) =~= line_views(lines@).map_values(
        |line: LineView| line.text,
    ));
    join_lines(&texts)
}

/// The help.
pub fn help_panel() -> (panel: TextPanel)
    ensures
        panel@ == help_panel_view(),
{
    let lines: Vec<&str> = vec![
        "Keyboard Shortcuts:",
        "",
        "  n       New session",
        "  s       Stop selected session",
        "  Tab     Next pane",
        "  S-Tab   Previous pane",
        "  j/↓     Scroll down",
        "  k/↑     Scroll up",
        "  r       Refresh",
        "  ?       Toggle help",
        "  q/C-c   Quit",
    ];
    assert(lines@.map_values(|line: &str| line@) =~= help_lines());
    TextPanel {
        title: Some(" Help ".to_owned()),
        edges: Edges::All,
        border: Some(Hue::Yellow),
        hue: None,
        text: join_lines(&lines),
        scroll: 0,
    }
}

/// The keys, at the bottom of the screen.
pub fn status_panel() -> (panel: TextPanel)
    ensures
        panel@ == status_panel_view(),
{
    TextPanel {
        title: None,
        edges: Edges::All,
        border: None,
        hue: Some(Hue::DarkGray),
        text: " [n]ew session  [s]top  [Tab] switch pane  [j/k] scroll  [?] help  [q]uit ".to_owned(),
        scroll: 0,
    }
}

proof fn two_percentages_are_settled(p: u16, q: u16, extent: int)
    requires
        p + q == 100,
    ensures
        shares_settled(seq![Share::Percentage(p), Share::Percentage(q)], extent),
        total(seq![Share::Percentage(p), Share::Percentage(q)].take(1)) == p,
{
    let shares = seq![Share::Percentage(p), Share::Percentage(q)];
    reveal_with_fuel(total, 3);
    assert(shares.drop_last() =~= seq![Share::Percentage(p)]);
    assert(shares.take(1) =~= seq![Share::Percentage(p)]);
}

proof fn rows_are_settled(extent: int)
    ensures
        shares_settled(seq![Share::Length(3), Share::Min(10), Share::Length(3)], extent),
        total(seq![Share::Length(3), Share::Min(10), Share::Length(3)]) == 16,
{
    let shares = seq![Share::Length(3), Share::Min(10), Share::Length(3)];
    reveal_with_fuel(total, 4);
    assert(shares.drop_last() =~= seq![Share::Length(3), Share::Min(10)]);
    assert(shares.drop_last().drop_last() =~= seq![Share::Length(3)]);
    assert(shares[1] is Min);
    assert(one_takes_the_rest(shares));
}

/// Divides `body` between the panes.
fn plan_panes(body: Area) -> (panes: PanePlan)
    ensures
        panes.divides(body),
        panes.inside(body),
        body.countable() ==> panes.in_proportion(body),
{
    proof {
        two_percentages_are_settled(35, 65, body.width as int);
        two_percentages_are_settled(70, 30, body.height as int);
    }
    let columns = split(
        body,
        Axis::Horizontal,
        &vec![Share::Percentage(35), Share::Percentage(65)],
    );
    assert(columns@ =~= seq![columns@[0], columns@[1]]);
    let right = split(
        columns[1],
        Axis::Vertical,
        &vec![Share::Percentage(70), Share::Percentage(30)],
    );
    assert(right@ =~= seq![right@[0], right@[1]]);
    PanePlan { sessions: columns[0], right: columns[1], output: right[0], metrics: right[1] }
}

/// Divides the screen.
pub fn plan_screen(area: Area, help: bool) -> (plan: ScreenPlan)
    ensures
        plan.divides(area, help),
        plan.inside(area),
        area.countable() ==> plan.suits(area, help),
{
    proof {
        rows_are_settled(area.height as int);
    }
    let rows = split(
        area,
        Axis::Vertical,
        &vec![Share::Length(3), Share::Min(10), Share::Length(3)],
    );
    assert(rows@ =~= seq![rows@[0], rows@[1], rows@[2]]);
    let panes = if help {
        None
    } else {
        Some(plan_panes(rows[1]))
    };
    ScreenPlan { header: rows[0], body: rows[1], status: rows[2], panes }
}

impl Dashboard {
    fn border(&self, pane: Pane) -> (border: Option<Hue>)
        ensures
            border == self@.border(pane),
    {
        if self.selected_pane() == pane {
            Some(Hue::Cyan)
        } else {
            None
        }
    }

    /// The header: how many sessions there are, and which pane is selected.
    pub fn header(&self) -> (tabs: TabBar)
        ensures
            tabs@ == self@.header_view(),
    {
        let sessions = self.sessions();
        let mut title = " ECC 2.0 | ".to_owned();
        append_decimal(&mut title, count_running(sessions) as u64);
        title.append(" running / ");
        append_decimal(&mut title, sessions.len() as u64);
        title.append(" total ");
        let labels: Vec<String> = vec![
            "Sessions".to_owned(),
            "Output".to_owned(),
            "Metrics".to_owned(),
        ];
        assert(labels@.map_values(|label: String| label@) =~= self@.header_view().labels);
        let selected: usize = match self.selected_pane() {
            Pane::Sessions => 0,
            Pane::Output => 1,
            Pane::Metrics => 2,
        };
        TabBar {
            title,
            edges: Edges::All,
            labels,
            selected,
            highlight: Hue::Cyan,
            weight: Weight::Bold,
        }
    }

    /// The session list, or nothing where an id has no beginning that can be shown.
    pub fn session_list(&self) -> (list: Option<RowList>)
        ensures
            match list {
                Some(rows) => rows@ == self@.session_list_view() && forall|i: int|
                    0 <= i < self@.sessions.len() ==> has_short_id((#[trigger] self@.sessions[i]).id),
                None => exists|i: int|
                    0 <= i < self@.sessions.len() && !has_short_id((#[trigger] self@.sessions[i]).id),
            },
    {
        let sessions = self.sessions();
        let selected = self.selected_index();
        let mut rows: Vec<ListRow> = Vec::new();
        for i in 0..sessions.len()
            invariant
                session_views(sessions@) == self@.sessions,
                selected == self@.selected,
                rows@.len() == i,
                forall|j: int|
                    0 <= j < i ==> (#[trigger] rows@[j])@ == self@.session_row_view(j),
                forall|j: int|
                    0 <= j < i ==> has_short_id((#[trigger] self@.sessions[j]).id),
        {
            assert(self@.sessions[i as int] == sessions@[i as int]@);
            match session_row(&sessions[i]) {
                Some(text) => {
                    rows.push(
                        ListRow {
                            text,
                            highlight: if i == selected {
                                Some(Hue::Cyan)
                            } else {
                                None
                            },
                            weight: if i == selected {
                                Weight::Bold
                            } else {
                                Weight::Normal
                            },
                        },
                    );
                },
                None => {
                    return None;
                },
            }
        }
        let list = RowList {
            title: " Sessions ".to_owned(),
            edges: Edges::All,
            border: self.border(Pane::Sessions),
            rows,
        };
        assert(list@.rows =~= self@.session_list_view().rows);
        Some(list)
    }

    /// What the output pane says.
    fn output_content(&self) -> (text: String)
        ensures
            text@ == self@.output_pane_text(),
    {
        match self.selected_session() {
            Some(_) => {
                let lines = self.selected_output_lines();
                assert(lines@.len() == line_views(lines@).len());
                if lines.len() == 0 {
                    "Waiting for session output...".to_owned()
                } else {
                    lines_text(lines)
                }
            },
            None => "No sessions. Press 'n' to start one.".to_owned(),
        }
    }

    /// The texts of the selected session's output, one below the other.
    pub fn selected_output_text(&self) -> (text: String)
        ensures
            text@ == output_text(self@.selected_output()),
    {
        lines_text(self.selected_output_lines())
    }

    /// The output of the selected session.
    pub fn output_panel(&self) -> (panel: TextPanel)
        ensures
            panel@ == self@.output_panel_view(),
    {
        let offset = self.output_scroll_offset();
        assert(offset as u16 == offset % 0x1_0000) by (bit_vector);
        TextPanel {
            title: Some(" Output ".to_owned()),
            edges: Edges::All,
            border: self.border(Pane::Output),
            hue: None,
            text: self.output_content(),
            scroll: offset as u16,
        }
    }

    /// What the selected session has used up.
    pub fn metrics_panel(&self) -> (panel: TextPanel)
        ensures
            panel@ == self@.metrics_panel_view(),
    {
        let text = match self.selected_session() {
            Some(session) => metrics_line(session),
            None => "No metrics available".to_owned(),
        };
        TextPanel {
            title: Some(" Metrics ".to_owned()),
            edges: Edges::All,
            border: self.border(Pane::Metrics),
            hue: None,
            text,
            scroll: 0,
        }
    }
}

proof fn header_is_drawable(m: Model, area: Area, bounds: Area)
    requires
        m.sessions.len() <= u64::MAX,
        has_room(area, bounds),
    ensures
        m.header_view().drawable(area, bounds),
{
    reveal_strlit(" ECC 2.0 | ");
    reveal_strlit(" running / ");
    reveal_strlit(" total ");
    m.sessions.lemma_filter_len(|session: SessionView| session.state == SessionState::Running);
    decimal_is_short(running_count(m.sessions));
    decimal_is_short(m.sessions.len());
}

proof fn help_is_drawable(area: Area, bounds: Area)
    requires
        has_room(area, bounds),
    ensures
        help_panel_view().drawable(area, bounds),
{
    reveal_strlit(" Help ");
    reveal_strlit("Keyboard Shortcuts:");
    reveal_strlit("");
    reveal_strlit("  n       New session");
    reveal_strlit("  s       Stop selected session");
    reveal_strlit("  Tab     Next pane");
    reveal_strlit("  S-Tab   Previous pane");
    reveal_strlit("  j/↓     Scroll down");
    reveal_strlit("  k/↑     Scroll up");
    reveal_strlit("  r       Refresh");
    reveal_strlit("  ?       Toggle help");
    reveal_strlit("  q/C-c   Quit");
    let lines = help_lines();
    joined_is_bounded(lines, 100);
    assert(lines.len() * (100 + 1) <= LINE_LIMIT) by (nonlinear_arith)
        requires
            lines.len() == 11,
    ;
    short_text_has_short_lines(joined(lines));
}

proof fn status_is_drawable(area: Area, bounds: Area)
    requires
        has_room(area, bounds),
    ensures
        status_panel_view().drawable(area, bounds),
{
    reveal_strlit(" [n]ew session  [s]top  [Tab] switch pane  [j/k] scroll  [?] help  [q]uit ");
    short_text_has_short_lines(status_panel_view().text);
}

impl Dashboard {
    fn render_header(&self, frame: &mut Frame<'_>, area: Area)
        requires
            has_room(area, frame_area(*old(frame))),
        ensures
            frame_area(*final(frame)) == frame_area(*old(frame)),
            frame_cells(*final(frame)) == tabs_painted(
                frame_cells(*old(frame)),
                frame_area(*old(frame)),
                self@.header_view(),
                area,
            ),
    {
        let sessions = self.sessions();
        let tabs = self.header();
        proof {
            assert(sessions@.len() == self@.sessions.len());
            assert(sessions.len() <= usize::MAX);
            header_is_drawable(self@, area, frame_area(*frame));
        }
        paint_tabs(frame, &tabs, area);
    }

    fn render_sessions(&self, frame: &mut Frame<'_>, area: Area)
        requires
            has_room(area, frame_area(*old(frame))),
            self@.ids_can_be_shown(),
        ensures
            frame_area(*final(frame)) == frame_area(*old(frame)),
            frame_cells(*final(frame)) == list_painted(
                frame_cells(*old(frame)),
                frame_area(*old(frame)),
                self@.session_list_view(),
                area,
            ),
    {
        if let Some(list) = self.session_list() {
            proof {
                reveal_strlit(" Sessions ");
            }
            paint_list(frame, &list, area);
        }
    }

    fn render_output(&mut self, frame: &mut Frame<'_>, area: Area)
        requires
            has_room(area, frame_area(*old(frame))),
            old(self)@.output_is_countable(area),
        ensures
            final(self)@ == old(self)@.fitted(Model::viewport(area.height as int)),
            frame_area(*final(frame)) == frame_area(*old(frame)),
            frame_cells(*final(frame)) == text_painted(
                frame_cells(*old(frame)),
                frame_area(*old(frame)),
                final(self)@.output_panel_view(),
                area,
            ),
    {
        self.sync_output_scroll(area.height.saturating_sub(2) as usize);
        let panel = self.output_panel();
        proof {
            reveal_strlit(" Output ");
        }
        paint_text(frame, &panel, area);
    }

    fn render_metrics(&self, frame: &mut Frame<'_>, area: Area)
        requires
            has_room(area, frame_area(*old(frame))),
            self@.metrics_are_countable(area),
        ensures
            frame_area(*final(frame)) == frame_area(*old(frame)),
            frame_cells(*final(frame)) == text_painted(
                frame_cells(*old(frame)),
                frame_area(*old(frame)),
                self@.metrics_panel_view(),
                area,
            ),
    {
        let panel = self.metrics_panel();
        proof {
            reveal_strlit(" Metrics ");
        }
        paint_text(frame, &panel, area);
    }

    fn render_status_bar(&self, frame: &mut Frame<'_>, area: Area)
        requires
            has_room(area, frame_area(*old(frame))),
        ensures
            frame_area(*final(frame)) == frame_area(*old(frame)),
            frame_cells(*final(frame)) == text_painted(
                frame_cells(*old(frame)),
                frame_area(*old(frame)),
                status_panel_view(),
                area,
            ),
    {
        proof {
            status_is_drawable(area, frame_area(*frame));
        }
        paint_text(frame, &status_panel(), area);
    }

    fn render_help(&self, frame: &mut Frame<'_>, area: Area)
        requires
            has_room(area, frame_area(*old(frame))),
        ensures
            frame_area(*final(frame)) == frame_area(*old(frame)),
            frame_cells(*final(frame)) == text_painted(
                frame_cells(*old(frame)),
                frame_area(*old(frame)),
                help_panel_view(),
                area,
            ),
    {
        proof {
            help_is_drawable(area, frame_area(*frame));
        }
        paint_text(frame, &help_panel(), area);
    }

    /// Draws the dashboard by `plan`.
    pub fn render_planned(&mut self, frame: &mut Frame<'_>, plan: ScreenPlan)
        requires
            old(self)@.fits_plan(plan, frame_area(*old(frame))),
        ensures
            final(self)@ == old(self)@.rendered(plan),
            frame_area(*final(frame)) == frame_area(*old(frame)),
            frame_cells(*final(frame)) == old(self)@.painted(
                frame_cells(*old(frame)),
                frame_area(*old(frame)),
                plan,
            ),
    {
        self.render_header(frame, plan.header);
        match plan.panes {
            None => self.render_help(frame, plan.body),
            Some(panes) => {
                self.render_sessions(frame, panes.sessions);
                self.render_output(frame, panes.output);
                self.render_metrics(frame, panes.metrics);
            },
        }
        self.render_status_bar(frame, plan.status);
    }

    /// Draws the dashboard: the header, the panes or the help, and the status bar.
    ///
    /// [`Dashboard::render_if_possible`] finds out whether that is possible.
    pub fn render(&mut self, frame: &mut Frame<'_>)
        requires
            old(self)@.fits(frame_area(*old(frame))),
        ensures
            frame_area(*final(frame)) == frame_area(*old(frame)),
            old(self)@.drawn(
                frame_cells(*old(frame)),
                frame_area(*old(frame)),
                final(self)@,
                frame_cells(*final(frame)),
            ),
    {
        let plan = plan_screen(area_of(frame), self.help_is_shown());
        self.render_planned(frame, plan);
    }

    /// Tells whether every session has an id with a beginning that can be shown.
    fn ids_can_be_shown(&self) -> (shown: bool)
        ensures
            shown == self@.ids_can_be_shown(),
    {
        let sessions = self.sessions();
        for i in 0..sessions.len()
            invariant
                session_views(sessions@) == self@.sessions,
                forall|j: int| 0 <= j < i ==> has_short_id((#[trigger] self@.sessions[j]).id),
        {
            assert(self@.sessions[i as int] == sessions@[i as int]@);
            if short_id(sessions[i].id.as_str()).is_none() {
                return false;
            }
        }
        true
    }

    /// Tells whether the dashboard can be drawn by `plan` on a frame that covers `bounds`.
    fn can_be_drawn(&self, plan: &ScreenPlan, bounds: Area) -> (fits: bool)
        requires
            plan.inside(bounds),
        ensures
            fits == self@.fits_plan(*plan, bounds),
    {
        if bounds.x > 0xffff - bounds.width || bounds.y > 0xffff - bounds.height {
            return false;
        }
        match plan.panes {
            None => true,
            Some(panes) => {
                let offset = self.fitted_offset(panes.output.height.saturating_sub(2) as usize);
                assert(offset as u16 == offset % 0x1_0000) by (bit_vector);
                self.ids_can_be_shown() && text_can_be_counted(
                    self.output_content().as_str(),
                    offset as u16,
                    panes.output,
                ) && text_can_be_counted(self.metrics_panel().text.as_str(), 0, panes.metrics)
            },
        }
    }

    /// Draws the dashboard if it can be drawn on the frame as the frame is divided; else it
    /// leaves both as they are and answers `false`.
    pub fn render_if_possible(&mut self, frame: &mut Frame<'_>) -> (drawn: bool)
        ensures
            old(self)@.fits(frame_area(*old(frame))) ==> drawn,
            frame_area(*final(frame)) == frame_area(*old(frame)),
            exists|plan: ScreenPlan|
                {
                    &&& #[trigger] plan.divides(frame_area(*old(frame)), old(self)@.help)
                    &&& frame_area(*old(frame)).countable() ==> plan.suits(
                        frame_area(*old(frame)),
                        old(self)@.help,
                    )
                    &&& drawn == old(self)@.fits_plan(plan, frame_area(*old(frame)))
                    &&& drawn ==> final(self)@ == old(self)@.rendered(plan)
                    &&& drawn ==> frame_cells(*final(frame)) == old(self)@.painted(
                        frame_cells(*old(frame)),
                        frame_area(*old(frame)),
                        plan,
                    )
                },
            drawn ==> old(self)@.drawn(
                frame_cells(*old(frame)),
                frame_area(*old(frame)),
                final(self)@,
                frame_cells(*final(frame)),
            ),
            !drawn ==> final(self)@ == old(self)@ && *final(frame) == *old(frame),
    {
        let area = area_of(frame);
        let plan = plan_screen(area, self.help_is_shown());
        if self.can_be_drawn(&plan, area) {
            self.render_planned(frame, plan);
            true
        } else {
            false
        }
    }
}

} // verus!
