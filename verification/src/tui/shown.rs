//! What the screen says, told from the sessions and their output.

use vstd::prelude::*;
use vstd::utf8::is_ascii_chars;

use crate::session::{LineView, Session, SessionState, SessionView};
use crate::tui::dashboard::Dashboard;
use crate::tui::laws::moderate_output_can_be_drawn;
use crate::tui::model::{
    help_panel_view, metrics_text, output_text, running_count, session_row_text, state_icon_text,
    status_panel_view, Model, Pane, ScreenPlan,
};
use crate::tui::reading::{
    ascii_texts_have_no_runs, digits_begin_where_others_end, digits_end_where_others_begin,
    equal_texts_have_equal_rests, is_digit, joined_lines_are_rows, lines_are_put_below_each_other,
    numbers_are_written_out, numbers_have_one_notation, rows, writes,
};
use crate::tui::render::{help_panel, metrics_line, session_row, state_icon, status_panel};
use crate::tui::screen::{
    columns_are_countable, list_painted, may_split, tabs_painted, text_is_countable, text_painted,
    Area, Axis, Edges, Hue, ListRow, RowList, Share, TabBar, TextPanel, Weight,
};
use crate::tui::text::{
    ascii_id_is_shown_by_its_first_characters, decimal, has_short_id, has_short_lines,
    has_short_runs, joined, short_id_text, short_text_has_short_lines,
};

verus! {

/// The five figures stand in the line of metrics behind their names, each written out as it is:
/// the numbers in decimal notation, and the cost as it was given.
pub proof fn metrics_name_every_figure(
    session: SessionView,
    tokens: Seq<char>,
    tools: Seq<char>,
    files: Seq<char>,
    duration: Seq<char>,
)
    requires
        writes(tokens, session.metrics.tokens_used as int),
        writes(tools, session.metrics.tool_calls as int),
        writes(files, session.metrics.files_changed as int),
        writes(duration, session.metrics.duration_secs as int),
    ensures
        metrics_text(session) == "Tokens: "@ + tokens + " | Tools: "@ + tools + " | Files: "@
            + files + " | Cost: $"@ + session.metrics.cost_usd + " | Duration: "@ + duration
            + "s"@,
{
    let m = session.metrics;
    numbers_are_written_out(m.tokens_used);
    numbers_are_written_out(m.tool_calls);
    numbers_are_written_out(m.files_changed);
    numbers_are_written_out(m.duration_secs);
    numbers_have_one_notation(tokens, decimal(m.tokens_used), m.tokens_used as int);
    numbers_have_one_notation(tools, decimal(m.tool_calls), m.tool_calls as int);
    numbers_have_one_notation(files, decimal(m.files_changed), m.files_changed as int);
    numbers_have_one_notation(duration, decimal(m.duration_secs), m.duration_secs as int);
}

proof fn texts_can_be_regrouped(a: Seq<char>, b: Seq<char>, c: Seq<char>)
    ensures
        (a + b) + c == a + (b + c),
{
    assert((a + b) + c =~= a + (b + c));
}

/// What stands before and behind the figures of a line of metrics.
struct Labels {
    tokens: Seq<char>,
    tools: Seq<char>,
    files: Seq<char>,
    cost: Seq<char>,
    duration: Seq<char>,
    end: Seq<char>,
}

/// The figures of a line of metrics, written out.
struct Figures {
    tokens: Seq<char>,
    tools: Seq<char>,
    files: Seq<char>,
    cost: Seq<char>,
    duration: Seq<char>,
}

impl Figures {
    spec fn are_numbers(self) -> bool {
        &&& forall|i: int| 0 <= i < self.tokens.len() ==> is_digit(#[trigger] self.tokens[i])
        &&& forall|i: int| 0 <= i < self.tools.len() ==> is_digit(#[trigger] self.tools[i])
        &&& forall|i: int| 0 <= i < self.files.len() ==> is_digit(#[trigger] self.files[i])
        &&& forall|i: int| 0 <= i < self.duration.len() ==> is_digit(#[trigger] self.duration[i])
    }

    spec fn labelled(self, l: Labels) -> Seq<char> {
        l.tokens + self.tokens + l.tools + self.tools + l.files + self.files + l.cost + self.cost
            + l.duration + self.duration + l.end
    }

    spec fn from_cost(self, l: Labels) -> Seq<char> {
        self.cost + l.duration + self.duration + l.end
    }

    spec fn from_files(self, l: Labels) -> Seq<char> {
        l.files + (self.files + (l.cost + self.from_cost(l)))
    }

    spec fn from_tools(self, l: Labels) -> Seq<char> {
        l.tools + (self.tools + self.from_files(l))
    }
}

proof fn labelled_figures_are_regrouped(f: Figures, l: Labels)
    ensures
        f.labelled(l) == l.tokens + (f.tokens + f.from_tools(l)),
{
    let h1 = l.tokens + f.tokens;
    let h2 = h1 + l.tools;
    let h3 = h2 + f.tools;
    let h4 = h3 + l.files;
    let h5 = h4 + f.files;
    let h6 = h5 + l.cost;
    texts_can_be_regrouped(h6, f.cost, l.duration);
    texts_can_be_regrouped(h6, f.cost + l.duration, f.duration);
    texts_can_be_regrouped(h6, f.cost + l.duration + f.duration, l.end);
    let x4 = f.from_cost(l);
    texts_can_be_regrouped(h5, l.cost, x4);
    let x3 = l.cost + x4;
    texts_can_be_regrouped(h4, f.files, x3);
    texts_can_be_regrouped(h3, l.files, f.files + x3);
    let x2 = f.from_files(l);
    texts_can_be_regrouped(h2, f.tools, x2);
    texts_can_be_regrouped(h1, l.tools, f.tools + x2);
    texts_can_be_regrouped(l.tokens, f.tokens, f.from_tools(l));
}

proof fn labelled_figures_are_told_apart(f: Figures, g: Figures, l: Labels)
    requires
        f.are_numbers(),
        g.are_numbers(),
        l.tools.len() > 0 && !is_digit(l.tools[0]),
        l.files.len() > 0 && !is_digit(l.files[0]),
        l.cost.len() > 0 && !is_digit(l.cost[0]),
        l.duration.len() > 0 && !is_digit(l.duration.last()),
        f.labelled(l) == g.labelled(l),
    ensures
        f == g,
{
    labelled_figures_are_regrouped(f, l);
    labelled_figures_are_regrouped(g, l);
    let (x1, y1) = (f.from_tools(l), g.from_tools(l));
    let (x2, y2) = (f.from_files(l), g.from_files(l));
    let (x3, y3) = (l.cost + f.from_cost(l), l.cost + g.from_cost(l));
    assert(x1[0] == l.tools[0] && y1[0] == l.tools[0]);
    assert(x2[0] == l.files[0] && y2[0] == l.files[0]);
    assert(x3[0] == l.cost[0] && y3[0] == l.cost[0]);
    equal_texts_have_equal_rests(l.tokens, f.tokens + x1, g.tokens + y1);
    digits_end_where_others_begin(f.tokens, x1, g.tokens, y1);
    equal_texts_have_equal_rests(l.tools, f.tools + x2, g.tools + y2);
    digits_end_where_others_begin(f.tools, x2, g.tools, y2);
    equal_texts_have_equal_rests(l.files, f.files + x3, g.files + y3);
    digits_end_where_others_begin(f.files, x3, g.files, y3);
    equal_texts_have_equal_rests(l.cost, f.from_cost(l), g.from_cost(l));
    let (u, v) = (f.cost + l.duration, g.cost + l.duration);
    equal_texts_have_equal_rests(l.end, u + f.duration, v + g.duration);
    assert(u.last() == l.duration.last() && v.last() == l.duration.last());
    digits_begin_where_others_end(u, f.duration, v, g.duration);
    equal_texts_have_equal_rests(l.duration, f.cost, g.cost);
}

/// Sessions that differ in any of the five figures have different lines of metrics.
pub proof fn metrics_tell_sessions_apart(a: SessionView, b: SessionView)
    requires
        metrics_text(a) == metrics_text(b),
    ensures
        a.metrics.tokens_used == b.metrics.tokens_used,
        a.metrics.tool_calls == b.metrics.tool_calls,
        a.metrics.files_changed == b.metrics.files_changed,
        a.metrics.cost_usd == b.metrics.cost_usd,
        a.metrics.duration_secs == b.metrics.duration_secs,
{
    let l = Labels {
        tokens: "Tokens: "@,
        tools: " | Tools: "@,
        files: " | Files: "@,
        cost: " | Cost: $"@,
        duration: " | Duration: "@,
        end: "s"@,
    };
    let (m, n) = (a.metrics, b.metrics);
    let f = Figures {
        tokens: decimal(m.tokens_used),
        tools: decimal(m.tool_calls),
        files: decimal(m.files_changed),
        cost: m.cost_usd,
        duration: decimal(m.duration_secs),
    };
    let g = Figures {
        tokens: decimal(n.tokens_used),
        tools: decimal(n.tool_calls),
        files: decimal(n.files_changed),
        cost: n.cost_usd,
        duration: decimal(n.duration_secs),
    };
    assert(f.labelled(l) == metrics_text(a));
    assert(g.labelled(l) == metrics_text(b));
    numbers_are_written_out(m.tokens_used);
    numbers_are_written_out(m.tool_calls);
    numbers_are_written_out(m.files_changed);
    numbers_are_written_out(m.duration_secs);
    numbers_are_written_out(n.tokens_used);
    numbers_are_written_out(n.tool_calls);
    numbers_are_written_out(n.files_changed);
    numbers_are_written_out(n.duration_secs);
    assert(!is_digit(' '));
    reveal_strlit(" | Tools: ");
    reveal_strlit(" | Files: ");
    reveal_strlit(" | Cost: $");
    reveal_strlit(" | Duration: ");
    labelled_figures_are_told_apart(f, g, l);
}

/// The metrics pane speaks of the selected session, and of no other.
pub proof fn the_metrics_pane_shows_the_selected_session(m: Model)
    ensures
        0 <= m.selected < m.sessions.len() ==> m.metrics_panel_view().text == metrics_text(
            m.sessions[m.selected],
        ),
        !(0 <= m.selected < m.sessions.len()) ==> m.metrics_panel_view().text
            == "No metrics available"@,
        m.metrics_panel_view().title == Some(" Metrics "@),
        m.metrics_panel_view().scroll == 0,
        m.metrics_panel_view().hue is None,
        m.metrics_panel_view().border == if m.pane == Pane::Metrics {
            Some(Hue::Cyan)
        } else {
            None
        },
{
}

/// Each state has a sign of its own.
pub proof fn states_have_signs_of_their_own(a: SessionState, b: SessionState)
    ensures
        state_icon_text(SessionState::Running) == seq!['●'],
        state_icon_text(SessionState::Idle) == seq!['○'],
        state_icon_text(SessionState::Completed) == seq!['✓'],
        state_icon_text(SessionState::Failed) == seq!['✗'],
        state_icon_text(SessionState::Stopped) == seq!['■'],
        state_icon_text(SessionState::Pending) == seq!['◌'],
        state_icon_text(a) == state_icon_text(b) ==> a == b,
{
    reveal_strlit("●");
    reveal_strlit("○");
    reveal_strlit("✓");
    reveal_strlit("✗");
    reveal_strlit("■");
    reveal_strlit("◌");
    assert(state_icon_text(SessionState::Running) =~= seq!['●']);
    assert(state_icon_text(SessionState::Idle) =~= seq!['○']);
    assert(state_icon_text(SessionState::Completed) =~= seq!['✓']);
    assert(state_icon_text(SessionState::Failed) =~= seq!['✗']);
    assert(state_icon_text(SessionState::Stopped) =~= seq!['■']);
    assert(state_icon_text(SessionState::Pending) =~= seq!['◌']);
    if a != b {
        assert(state_icon_text(a)[0] != state_icon_text(b)[0]);
    }
}

/// The row of a session shows its state, the beginning of its id, its agent in brackets and its
/// task to the end. Of an id in ASCII the first eight characters are shown.
pub proof fn a_row_names_its_session(session: SessionView)
    ensures
        session_row_text(session) == state_icon_text(session.state) + seq![' '] + short_id_text(
            session.id,
        ) + seq![' ', '['] + session.agent_type + seq![']', ' '] + session.task,
        is_ascii_chars(session.id) && session.id.len() >= 8 ==> short_id_text(session.id)
            == session.id.take(8),
        is_ascii_chars(session.id) && session.id.len() <= 8 ==> short_id_text(session.id)
            == session.id,
{
    reveal_strlit(" ");
    reveal_strlit(" [");
    reveal_strlit("] ");
    assert(" "@ =~= seq![' ']);
    assert(" ["@ =~= seq![' ', '[']);
    assert("] "@ =~= seq![']', ' ']);
    if is_ascii_chars(session.id) {
        ascii_id_is_shown_by_its_first_characters(session.id);
        assert(session.id.take(session.id.len() as int) =~= session.id);
    }
}

/// What a task goes on with, its row goes on with, and rows of sessions that differ in nothing
/// but the task, or nothing but the state, differ.
pub proof fn rows_follow_their_sessions(
    session: SessionView,
    more: Seq<char>,
    task: Seq<char>,
    state: SessionState,
)
    ensures
        session_row_text(SessionView { task: session.task + more, ..session }) == session_row_text(
            session,
        ) + more,
        session_row_text(SessionView { task, ..session }) == session_row_text(session) ==> task
            == session.task,
        session_row_text(SessionView { state, ..session }) == session_row_text(session) ==> state
            == session.state,
{
    let other = SessionView { task, ..session };
    a_row_names_its_session(session);
    a_row_names_its_session(other);
    let start = state_icon_text(session.state) + seq![' '] + short_id_text(session.id) + seq![
        ' ',
        '[',
    ] + session.agent_type + seq![']', ' '];
    equal_texts_have_equal_rests(start, task, session.task);
    a_row_names_its_session(SessionView { task: session.task + more, ..session });
    assert(start + (session.task + more) =~= start + session.task + more);
    let changed = SessionView { state, ..session };
    a_row_names_its_session(changed);
    states_have_signs_of_their_own(state, session.state);
    assert(state_icon_text(state).len() == 1 && state_icon_text(session.state).len() == 1);
    assert(session_row_text(changed)[0] == state_icon_text(state)[0]);
    assert(session_row_text(session)[0] == state_icon_text(session.state)[0]);
    if session_row_text(changed) == session_row_text(session) {
        assert(state_icon_text(state) =~= state_icon_text(session.state));
    }
}

/// The list has a row for every session, in order, and only the row of the selected one is
/// painted in cyan and in bold.
pub proof fn the_list_shows_every_session(m: Model, i: int)
    requires
        0 <= i < m.sessions.len(),
    ensures
        m.session_list_view().rows.len() == m.sessions.len(),
        m.session_list_view().rows[i].text == session_row_text(m.sessions[i]),
        i == m.selected ==> m.session_list_view().rows[i].highlight == Some(Hue::Cyan)
            && m.session_list_view().rows[i].weight == Weight::Bold,
        i != m.selected ==> m.session_list_view().rows[i].highlight is None
            && m.session_list_view().rows[i].weight == Weight::Normal,
        m.session_list_view().title == " Sessions "@,
        m.session_list_view().border == if m.pane == Pane::Sessions {
            Some(Hue::Cyan)
        } else {
            None
        },
{
}

/// Each session that is running counts, and no other.
pub proof fn running_sessions_are_counted(sessions: Seq<SessionView>, session: SessionView)
    ensures
        running_count(Seq::empty()) == 0,
        session.state == SessionState::Running ==> running_count(sessions.push(session))
            == running_count(sessions) + 1,
        session.state != SessionState::Running ==> running_count(sessions.push(session))
            == running_count(sessions),
{
    reveal(Seq::filter);
    assert(sessions.push(session).drop_last() =~= sessions);
}

/// The header says how many sessions run and how many there are, and points out the selected
/// pane by its name, in cyan and in bold.
pub proof fn the_header_counts_and_names(m: Model, running: Seq<char>, all: Seq<char>)
    requires
        writes(running, running_count(m.sessions) as int),
        writes(all, m.sessions.len() as int),
    ensures
        m.header_view().title == " ECC 2.0 | "@ + running + " running / "@ + all + " total "@,
        m.header_view().labels == seq!["Sessions"@, "Output"@, "Metrics"@],
        m.header_view().labels[m.header_view().selected] == match m.pane {
            Pane::Sessions => "Sessions"@,
            Pane::Output => "Output"@,
            Pane::Metrics => "Metrics"@,
        },
        m.header_view().highlight == Hue::Cyan,
        m.header_view().weight == Weight::Bold,
{
    let (r, n) = (running_count(m.sessions), m.sessions.len());
    numbers_are_written_out(r);
    numbers_are_written_out(n);
    numbers_have_one_notation(running, decimal(r), r as int);
    numbers_have_one_notation(all, decimal(n), n as int);
}

/// The text of one line is shown as it is, and the lines below others follow them behind one
/// line break, whatever they say and whichever stream they were printed on.
pub proof fn output_is_shown_line_by_line(
    line: LineView,
    above: Seq<LineView>,
    below: Seq<LineView>,
)
    requires
        above.len() > 0,
        below.len() > 0,
    ensures
        output_text(seq![line]) == line.text,
        output_text(above + below) == output_text(above) + seq!['\n'] + output_text(below),
{
    let text_of = |line: LineView| line.text;
    let (a, b) = (above.map_values(text_of), below.map_values(text_of));
    assert(seq![line].map_values(text_of) =~= seq![line.text]);
    assert((above + below).map_values(text_of) =~= a + b);
    lines_are_put_below_each_other(line.text, a, b);
}

/// The output pane shows the selected session's output, every line of it in a row of its own,
/// in order and as it was printed, on whichever stream.
pub proof fn every_line_of_output_has_its_row(m: Model)
    requires
        0 <= m.selected < m.sessions.len(),
        m.selected_output().len() > 0,
        forall|i: int|
            0 <= i < m.selected_output().len() ==> !(#[trigger] m.selected_output()[i]).text.contains(
                '\n',
            ),
    ensures
        rows(m.output_panel_view().text).len() == m.selected_output().len(),
        forall|i: int|
            0 <= i < m.selected_output().len() ==> (#[trigger] rows(m.output_panel_view().text)[i])
                == m.selected_output()[i].text,
{
    let texts = m.selected_output().map_values(|line: LineView| line.text);
    joined_lines_are_rows(texts);
    assert(m.output_panel_view().text == joined(texts));
}

/// The output pane is shown from the line on that the offset names, as far as sixteen bits tell
/// it; without output, or without sessions, it says so.
pub proof fn the_output_pane_is_told_where_to_begin(m: Model)
    ensures
        0 <= m.scroll <= u16::MAX ==> m.output_panel_view().scroll == m.scroll,
        0 <= m.output_panel_view().scroll <= u16::MAX,
        (m.scroll - m.output_panel_view().scroll) % 65_536 == 0,
        m.sessions.len() == 0 ==> m.output_panel_view().text
            == "No sessions. Press 'n' to start one."@,
        0 <= m.selected < m.sessions.len() && m.selected_output().len() == 0
            ==> m.output_panel_view().text == "Waiting for session output..."@,
        m.output_panel_view().title == Some(" Output "@),
        m.output_panel_view().hue is None,
        m.output_panel_view().border == if m.pane == Pane::Output {
            Some(Hue::Cyan)
        } else {
            None
        },
{
}

/// The help has a row for each key, and the status bar names the keys too. Both look the same
/// whatever the dashboard shows.
pub proof fn the_keys_are_explained()
    ensures
        rows(help_panel_view().text) == seq![
            "Keyboard Shortcuts:"@,
            ""@,
            "  n       New session"@,
            "  s       Stop selected session"@,
            "  Tab     Next pane"@,
            "  S-Tab   Previous pane"@,
            "  j/↓     Scroll down"@,
            "  k/↑     Scroll up"@,
            "  r       Refresh"@,
            "  ?       Toggle help"@,
            "  q/C-c   Quit"@,
        ],
        help_panel_view().title == Some(" Help "@),
        help_panel_view().border == Some(Hue::Yellow),
        help_panel_view().hue is None && help_panel_view().scroll == 0,
        status_panel_view().text
            == " [n]ew session  [s]top  [Tab] switch pane  [j/k] scroll  [?] help  [q]uit "@,
        status_panel_view().title is None && status_panel_view().border is None,
        status_panel_view().hue == Some(Hue::DarkGray) && status_panel_view().scroll == 0,
{
    reveal_strlit("Keyboard Shortcuts:");
    reveal_strlit("");
    reveal_strlit("  n       New session");
    reveal_strlit("  s       Stop selected session");
    reveal_strlit("  Tab     Next pane");
    reveal_strlit("  S-Tab   Previous pane");
    reveal_strlit("  j/↓     Scroll down");
    reveal_strlit("  k/↑     Scroll up");
    reveal_strlit("  r       Refresh");
    reveal_strlit("  ?       Toggle help");
    reveal_strlit("  q/C-c   Quit");
    joined_lines_are_rows(crate::tui::model::help_lines());
}

/// Everything is painted once and in its place: the header, then the help or the three panes,
/// and then the status bar. The output is painted as it is after it was fitted to its pane.
pub proof fn everything_is_painted_in_its_place(
    m: Model,
    cells: Seq<Seq<char>>,
    bounds: Area,
    plan: ScreenPlan,
)
    ensures
        plan.panes is None ==> m.painted(cells, bounds, plan) == text_painted(
            text_painted(
                tabs_painted(cells, bounds, m.header_view(), plan.header),
                bounds,
                help_panel_view(),
                plan.body,
            ),
            bounds,
            status_panel_view(),
            plan.status,
        ),
        plan.panes matches Some(panes) ==> m.painted(cells, bounds, plan) == text_painted(
            text_painted(
                text_painted(
                    list_painted(
                        tabs_painted(cells, bounds, m.header_view(), plan.header),
                        bounds,
                        m.session_list_view(),
                        panes.sessions,
                    ),
                    bounds,
                    m.rendered(plan).output_panel_view(),
                    panes.output,
                ),
                bounds,
                m.metrics_panel_view(),
                panes.metrics,
            ),
            bounds,
            status_panel_view(),
            plan.status,
        ),
{
    assert(m.rendered(plan).metrics_panel_view() == m.metrics_panel_view());
}

/// Drawing fits the output to the rows inside the pane's border: output that is followed ends
/// with the pane, and other output stays where it is unless that is beyond its end.
pub proof fn drawing_fits_the_output(m: Model, plan: ScreenPlan)
    requires
        plan.panes is Some,
        0 <= m.scroll,
    ensures
        ({
            let inside = plan.panes->0.output.height - 2;
            let shown = if inside < 1 {
                1
            } else {
                inside
            };
            let len = m.selected_output().len();
            let last = if len > shown {
                len - shown
            } else {
                0
            };
            &&& m.rendered(plan).height == shown
            &&& m.rendered(plan).follow == m.follow
            &&& m.follow ==> m.rendered(plan).scroll == last
            &&& !m.follow && m.scroll <= last ==> m.rendered(plan).scroll == m.scroll
            &&& !m.follow && m.scroll > last ==> m.rendered(plan).scroll == last
            &&& m.rendered(plan).selected_output() == m.selected_output()
        }),
{
    let viewport = Model::viewport(plan.panes->0.output.height as int);
    let resized = Model { height: m.fitted(viewport).height, ..m };
    assert(resized.selected_output() == m.selected_output());
    assert(m.fitted(viewport).selected_output() == m.selected_output());
}

/// On a screen that is not too low, the header and the status bar have three rows each, at the
/// top and at the bottom, and the panes share what is in between: the sessions on the left with
/// 35 columns of a hundred, the output on the right with 70 rows of a hundred, and below it the
/// metrics.
pub proof fn the_screen_is_shared_out(plan: ScreenPlan, bounds: Area, help: bool)
    requires
        plan.suits(bounds, help),
        plan.divides(bounds, help),
    ensures
        plan.panes is None <==> help,
        plan.header.y == bounds.y && plan.header.x == bounds.x && plan.header.width
            == bounds.width,
        plan.status.y + plan.status.height == bounds.y + bounds.height,
        plan.status.x == bounds.x && plan.status.width == bounds.width,
        bounds.height >= 16 ==> plan.header.height == 3 && plan.status.height == 3
            && plan.body.height == bounds.height - 6,
        10 <= bounds.height < 16 ==> plan.body.height == 10,
        bounds.height < 10 ==> plan.body.height == bounds.height,
        plan.body.y == plan.header.y + plan.header.height,
        plan.status.y == plan.body.y + plan.body.height,
        plan.panes matches Some(panes) ==> {
            &&& panes.sessions.x == plan.body.x && panes.sessions.y == plan.body.y
            &&& panes.sessions.height == plan.body.height
            &&& panes.output.x == panes.sessions.x + panes.sessions.width
            &&& panes.output.y == plan.body.y
            &&& panes.metrics.x == panes.output.x && panes.metrics.width == panes.output.width
            &&& panes.metrics.y == panes.output.y + panes.output.height
            &&& panes.output.x + panes.output.width == plan.body.x + plan.body.width
            &&& panes.metrics.y + panes.metrics.height == plan.body.y + plan.body.height
            &&& -50 < 100 * panes.sessions.width - 35 * plan.body.width <= 50
            &&& -50 < 100 * panes.output.height - 70 * plan.body.height <= 50
        },
        may_split(
            bounds,
            Axis::Vertical,
            seq![Share::Length(3), Share::Min(10), Share::Length(3)],
            seq![plan.header, plan.body, plan.status],
        ),
        plan.panes matches Some(panes) ==> {
            &&& may_split(
                plan.body,
                Axis::Horizontal,
                seq![Share::Percentage(35), Share::Percentage(65)],
                seq![panes.sessions, panes.right],
            )
            &&& may_split(
                panes.right,
                Axis::Vertical,
                seq![Share::Percentage(70), Share::Percentage(30)],
                seq![panes.output, panes.metrics],
            )
        },
{
}

/// The cells of an area inside another are cells of that other.
pub proof fn inner_areas_have_no_cells_outside(inner: Area, outer: Area, x: int, y: int)
    requires
        inner.inside(outer),
        inner.x <= x < inner.x + inner.width,
        inner.y <= y < inner.y + inner.height,
    ensures
        outer.x <= x < outer.x + outer.width,
        outer.y <= y < outer.y + outer.height,
{
}

/// Columns can be counted in a box of up to 32,769 of them, and in wider ones where the text is
/// in ASCII or has no more than 21,845 characters.
pub proof fn ordinary_columns_can_be_counted(text: Seq<char>, width: u16)
    requires
        width <= 32_769 || text.len() <= 21_845 || forall|i: int|
            0 <= i < text.len() ==> (#[trigger] text[i]) as u32 <= 127,
    ensures
        columns_are_countable(text, width),
{
    if text.len() <= 21_845 {
        short_text_has_short_lines(text);
    } else if width > 32_769 {
        ascii_texts_have_no_runs(text);
    }
}

/// A text can be drawn in a box where there is no room inside it anyway, or else where the row
/// below the last one shown has a number of sixteen bits, and where in a very wide box the lines
/// are short or the clusters narrow.
pub proof fn what_it_takes_to_draw_a_text(text: Seq<char>, scroll: int, area: Area)
    ensures
        area.width <= 2 || area.height <= 2 ==> text_is_countable(text, scroll, area),
        area.width > 2 && area.height > 2 ==> (text_is_countable(text, scroll, area) <==> {
            &&& area.y + area.height - 2 + scroll <= 65_535
            &&& area.width <= 32_769 || has_short_lines(text) || has_short_runs(
                text,
                (65_535 - area.width) / 6,
            )
        }),
{
}

/// A dashboard can be drawn by a plan that lies inside a frame whose cells can be counted, under
/// the help always, and else where every id can be shown and both texts can be drawn.
pub proof fn what_it_takes_to_draw_a_dashboard(m: Model, plan: ScreenPlan, bounds: Area)
    requires
        plan.inside(bounds),
        bounds.x + bounds.width <= u16::MAX,
        bounds.y + bounds.height <= u16::MAX,
    ensures
        plan.panes is None ==> m.fits_plan(plan, bounds),
        plan.panes matches Some(panes) ==> (m.fits_plan(plan, bounds) <==> {
            &&& forall|i: int|
                0 <= i < m.sessions.len() ==> has_short_id((#[trigger] m.sessions[i]).id)
            &&& text_is_countable(
                m.rendered(plan).output_panel_view().text,
                m.rendered(plan).output_panel_view().scroll,
                panes.output,
            )
            &&& text_is_countable(m.metrics_panel_view().text, 0, panes.metrics)
        }),
{
    if let Some(panes) = plan.panes {
        assert(m.rendered(plan).selected_output() == m.selected_output());
        assert(m.rendered(plan).output_pane_text() == m.output_pane_text());
    }
}

/// A dashboard on sessions whose ids can be shown can be drawn on any frame of an ordinary size,
/// unless there is very much output, whatever the sessions, their output and their metrics say.
pub proof fn an_ordinary_dashboard_can_be_drawn(m: Model, bounds: Area)
    requires
        0 <= m.scroll,
        m.help || forall|i: int|
            0 <= i < m.sessions.len() ==> has_short_id((#[trigger] m.sessions[i]).id),
        bounds.x + bounds.width <= u16::MAX,
        bounds.width <= 32_769,
        bounds.y + bounds.height + m.selected_output().len() <= u16::MAX,
    ensures
        m.fits(bounds),
{
    ordinary_columns_can_be_counted(m.output_pane_text(), bounds.width);
    ordinary_columns_can_be_counted(m.metrics_pane_text(), bounds.width);
    moderate_output_can_be_drawn(m, bounds);
}

/// The descriptions of widgets say what their parts say.
pub proof fn descriptions_are_faithful(
    tabs: TabBar,
    row: ListRow,
    list: RowList,
    panel: TextPanel,
    i: int,
)
    ensures
        tabs@.title == tabs.title@ && tabs@.edges == tabs.edges && tabs@.selected == tabs.selected
            && tabs@.highlight == tabs.highlight && tabs@.weight == tabs.weight,
        tabs@.labels.len() == tabs.labels@.len(),
        0 <= i < tabs.labels@.len() ==> tabs@.labels[i] == tabs.labels@[i]@,
        row@.text == row.text@ && row@.highlight == row.highlight && row@.weight == row.weight,
        list@.title == list.title@ && list@.edges == list.edges && list@.border == list.border,
        list@.rows.len() == list.rows@.len(),
        0 <= i < list.rows@.len() ==> list@.rows[i] == list.rows@[i]@,
        panel@.edges == panel.edges && panel@.border == panel.border && panel@.hue == panel.hue
            && panel@.text == panel.text@ && panel@.scroll == panel.scroll,
        panel.title is None <==> panel@.title is None,
        panel.title is Some ==> panel@.title == Some(panel.title->0@),
{
}

/// What is handed to be drawn is what the dashboard's state says.
pub proof fn widgets_show_the_state(
    d: &Dashboard,
    tabs: TabBar,
    list: Option<RowList>,
    output: TextPanel,
    metrics: TextPanel,
    help: TextPanel,
    status: TextPanel,
)
    requires
        call_ensures(Dashboard::header, (d,), tabs),
        call_ensures(Dashboard::session_list, (d,), list),
        call_ensures(Dashboard::output_panel, (d,), output),
        call_ensures(Dashboard::metrics_panel, (d,), metrics),
        call_ensures(help_panel, (), help),
        call_ensures(status_panel, (), status),
    ensures
        tabs@ == d@.header_view(),
        list matches Some(rows) ==> rows@ == d@.session_list_view(),
        list is Some <==> forall|i: int|
            0 <= i < d@.sessions.len() ==> has_short_id((#[trigger] d@.sessions[i]).id),
        output@ == d@.output_panel_view(),
        metrics@ == d@.metrics_panel_view(),
        help@ == help_panel_view(),
        status@ == status_panel_view(),
        tabs.edges == Edges::All && output.edges == Edges::All && metrics.edges == Edges::All
            && help.edges == Edges::All && status.edges == Edges::All,
{
}

/// The texts of sessions and lines are written as the laws above read them.
pub proof fn texts_show_their_sessions(
    session: &Session,
    state: SessionState,
    icon: &'static str,
    row: Option<String>,
    metrics: String,
    d: &Dashboard,
    output: String,
)
    requires
        call_ensures(state_icon, (state,), icon),
        call_ensures(session_row, (session,), row),
        call_ensures(metrics_line, (session,), metrics),
        call_ensures(Dashboard::selected_output_text, (d,), output),
    ensures
        icon@ == state_icon_text(state),
        row is Some <==> has_short_id(session.id@),
        row matches Some(text) ==> text@ == session_row_text(session@),
        metrics@ == metrics_text(session@),
        output@ == output_text(d@.selected_output()),
{
}

} // verus!
