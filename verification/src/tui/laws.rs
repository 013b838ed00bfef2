//! What can be relied on, whichever keys are pressed.

use tokio::sync::broadcast::Receiver;
use vstd::prelude::*;

use crate::session::{
    line_views, session_views, LineView, OutputEvent, OutputLine, Session, SessionView,
};
use crate::tui::dashboard::Dashboard;
use crate::tui::feed::{
    drained, keep_draining, may_receive, received_in_turn, receiver_position, Received, DRAIN_LIMIT,
};
use crate::tui::model::{listed, max, Model, Pane, Request, RequestView, ScreenPlan};
use crate::tui::screen::{columns_are_countable, Area};

verus! {

/// Going one pane to the right and one to the left leads back, in either order, and three
/// steps to the right lead once around.
pub proof fn panes_form_a_ring(m: Model)
    ensures
        m.moved_right().moved_left() == m,
        m.moved_left().moved_right() == m,
        m.moved_right().moved_right().moved_right() == m,
        m.moved_right().pane != m.pane,
        m.moved_left().pane != m.moved_right().pane,
{
}

/// Toggling the help twice changes nothing.
pub proof fn help_can_be_closed_again(m: Model)
    ensures
        m.help_toggled().help != m.help,
        m.help_toggled().help_toggled() == m,
{
}

/// The selection stays on a session, as long as there is one, whatever is done.
pub proof fn selection_stays_valid(
    m: Model,
    sessions: Seq<SessionView>,
    id: Seq<char>,
    lines: Seq<LineView>,
    viewport: int,
)
    requires
        m.selection_is_valid(),
    ensures
        Model::opened(sessions, m.limit, m.feed).selection_is_valid(),
        m.scrolled_down().selection_is_valid(),
        m.scrolled_up().selection_is_valid(),
        m.relisted(sessions).selection_is_valid(),
        m.loaded(id, lines).selection_is_valid(),
        m.fitted(viewport).selection_is_valid(),
        m.relisted(sessions).selected_id() is Some <==> sessions.len() > 0,
{
}

/// The arrow keys change neither the sessions nor their output, nor what is selected among
/// the panes.
pub proof fn scrolling_changes_only_the_view(m: Model)
    ensures
        m.scrolled_down() == (Model {
            selected: m.scrolled_down().selected,
            follow: m.scrolled_down().follow,
            scroll: m.scrolled_down().scroll,
            ..m
        }),
        m.scrolled_up() == (Model {
            selected: m.scrolled_up().selected,
            follow: m.scrolled_up().follow,
            scroll: m.scrolled_up().scroll,
            ..m
        }),
        m.pane != Pane::Sessions ==> m.scrolled_down().selected == m.selected
            && m.scrolled_up().selected == m.selected,
{
}

/// Selecting another session starts at the end of its output.
pub proof fn selecting_a_session_follows_its_output(m: Model)
    requires
        m.pane == Pane::Sessions,
        m.sessions.len() > 0,
    ensures
        m.scrolled_down().follow && m.scrolled_down().scroll == 0,
        m.scrolled_up().follow && m.scrolled_up().scroll == 0,
{
}

/// In the session pane a step up and a step down lead back to the selected session, unless
/// the first step meets the end of the list.
pub proof fn session_steps_undo_each_other(m: Model)
    requires
        m.selection_is_valid(),
        m.pane == Pane::Sessions,
    ensures
        m.selected > 0 ==> m.scrolled_up().scrolled_down().selected == m.selected,
        m.selected + 1 < m.sessions.len() ==> m.scrolled_down().scrolled_up().selected
            == m.selected,
        m.selected == 0 ==> m.scrolled_up().selected == 0,
        m.selected == m.sessions.len() - 1 ==> m.scrolled_down().selected == m.selected,
{
}

/// Scrolling up in the output pane ends following, and shows the output from one line
/// further up.
pub proof fn scrolling_up_ends_following(m: Model)
    requires
        m.pane == Pane::Output,
    ensures
        !m.scrolled_up().follow,
        m.follow ==> m.scrolled_up().scroll == max(m.max_scroll() - 1, 0),
        !m.follow ==> m.scrolled_up().scroll == max(m.scroll - 1, 0),
{
}

/// As long as the output is followed, scrolling down in the output pane does nothing.
pub proof fn scrolling_down_while_following_does_nothing(m: Model)
    requires
        m.pane == Pane::Output,
        m.follow,
    ensures
        m.scrolled_down() == m,
{
}

/// In the metrics pane there is nothing to scroll down.
pub proof fn metrics_do_not_scroll_down(m: Model)
    requires
        m.pane == Pane::Metrics,
    ensures
        m.scrolled_down() == m,
{
}

/// `times` steps down.
pub open spec fn scrolled_down_by(m: Model, times: nat) -> Model
    decreases times,
{
    if times == 0 {
        m
    } else {
        scrolled_down_by(m, (times - 1) as nat).scrolled_down()
    }
}

/// Enough steps down in the output pane lead to the end of the output, and to following it
/// again; until then each step goes down by one line.
pub proof fn scrolling_down_leads_back_to_following(m: Model, times: nat)
    requires
        m.pane == Pane::Output,
        !m.follow,
        0 <= m.scroll,
    ensures
        times > 0 && m.scroll + times >= m.max_scroll() ==> {
            &&& scrolled_down_by(m, times).follow
            &&& scrolled_down_by(m, times).scroll == m.max_scroll()
        },
        times == 0 || m.scroll + times < m.max_scroll() ==> {
            &&& !scrolled_down_by(m, times).follow
            &&& scrolled_down_by(m, times).scroll == m.scroll + times
        },
        scrolled_down_by(m, times) == (Model {
            follow: scrolled_down_by(m, times).follow,
            scroll: scrolled_down_by(m, times).scroll,
            ..m
        }),
    decreases times,
{
    if times > 0 {
        scrolling_down_leads_back_to_following(m, (times - 1) as nat);
        let before = scrolled_down_by(m, (times - 1) as nat);
        assert(before.selected_output() == m.selected_output());
        assert(before.max_scroll() == m.max_scroll());
    }
}

/// Once fitted to its pane, the output is shown without blank lines at its end: the offset
/// leaves the pane full, or is zero where all of the output fits.
pub proof fn fitted_output_fills_its_pane(m: Model, viewport: int)
    requires
        0 <= m.scroll,
    ensures
        0 <= m.fitted(viewport).scroll <= m.fitted(viewport).max_scroll(),
        m.fitted(viewport).height == max(viewport, 1),
        m.fitted(viewport).scroll > 0 ==> m.fitted(viewport).scroll + m.fitted(viewport).height
            <= m.selected_output().len(),
{
    assert(m.fitted(viewport).selected_output() == m.selected_output());
}

/// Output that is followed is shown to its last line, however high the pane is.
pub proof fn followed_output_shows_its_end(m: Model, viewport: int)
    requires
        m.follow,
    ensures
        m.fitted(viewport).follow,
        m.fitted(viewport).scroll == m.fitted(viewport).max_scroll(),
        m.fitted(viewport).scroll + m.fitted(viewport).height >= m.selected_output().len(),
{
    assert(m.fitted(viewport).selected_output() == m.selected_output());
}

/// Output that is not followed stays where it is, as long as that is not beyond its end.
pub proof fn output_stays_in_place_unless_followed(m: Model, viewport: int)
    requires
        !m.follow,
        m.scroll <= max(m.selected_output().len() - max(viewport, 1), 0),
    ensures
        m.fitted(viewport).scroll == m.scroll,
        !m.fitted(viewport).follow,
{
    let resized = Model { height: max(viewport, 1), ..m };
    assert(resized.selected_output() == m.selected_output());
}

/// Drawing the same state in the same way again changes nothing.
pub proof fn fitting_twice_is_fitting_once(m: Model, viewport: int)
    ensures
        m.fitted(viewport).fitted(viewport) == m.fitted(viewport),
{
    let once = m.fitted(viewport);
    let resized = Model { height: max(viewport, 1), ..m };
    assert(resized.selected_output() == m.selected_output());
    assert(once.selected_output() == m.selected_output());
    assert(once.fitted(viewport) =~= once);
}

/// Drawing changes nothing but the view of the output, and under the help not even that.
pub proof fn drawing_changes_only_the_output_view(m: Model, plan: ScreenPlan)
    ensures
        m.rendered(plan) == (Model {
            scroll: m.rendered(plan).scroll,
            height: m.rendered(plan).height,
            ..m
        }),
        plan.panes is None ==> m.rendered(plan) == m,
{
}

/// What was loaded for a session is what is shown of it, and nothing else changes.
pub proof fn loaded_output_is_read_back(
    m: Model,
    id: Seq<char>,
    lines: Seq<LineView>,
    other: Seq<char>,
)
    ensures
        m.loaded(id, lines).outputs.contains_key(id),
        m.loaded(id, lines).outputs[id] == lines,
        m.selected_id() == Some(id) ==> m.loaded(id, lines).selected_output() == lines,
        m.selected_id() != Some(id) ==> m.loaded(id, lines).selected_output()
            == m.selected_output(),
        other != id ==> (m.loaded(id, lines).outputs.contains_key(other)
            <==> m.outputs.contains_key(other)),
        other != id && m.outputs.contains_key(other) ==> m.loaded(id, lines).outputs[other]
            == m.outputs[other],
        m.loaded(id, lines) == (Model { outputs: m.loaded(id, lines).outputs, ..m }),
{
}

/// A refresh asks for the output of the session that is selected afterwards. When it comes,
/// and the output is followed, the pane shows the output's last lines.
pub proof fn refreshed_output_is_shown_to_its_end(
    m: Model,
    sessions: Seq<SessionView>,
    id: Seq<char>,
    lines: Seq<LineView>,
    viewport: int,
)
    requires
        m.selection_is_valid(),
        m.follow,
        m.relisted(sessions).selected_id() == Some(id),
    ensures
        m.relisted(sessions).output_request() == (RequestView::LoadOutput {
            session_id: id,
            limit: m.limit,
        }),
        ({
            let shown = m.relisted(sessions).loaded(id, lines).fitted(viewport);
            &&& shown.selected_output() == lines
            &&& shown.scroll == max(lines.len() - max(viewport, 1), 0)
        }),
{
    let loaded = m.relisted(sessions).loaded(id, lines);
    let resized = Model { height: max(viewport, 1), ..loaded };
    assert(loaded.selected_output() == lines);
    assert(resized.selected_output() == lines);
    assert(loaded.fitted(viewport).selected_output() == lines);
}

/// A new list keeps the selection's place where it can, and the loaded output, the panes and
/// the view as they are. Listing the same sessions again changes nothing.
pub proof fn relisting_keeps_the_rest(m: Model, sessions: Seq<SessionView>)
    requires
        m.selection_is_valid(),
    ensures
        m.relisted(sessions) == (Model {
            sessions,
            selected: m.relisted(sessions).selected,
            ..m
        }),
        m.selected < sessions.len() ==> m.relisted(sessions).selected == m.selected,
        m.relisted(sessions).relisted(sessions) == m.relisted(sessions),
        m.relisted(m.sessions) == m,
{
}

/// Where no session is listed, nothing is selected, and neither output nor a stop is asked
/// for.
pub proof fn nothing_is_asked_for_without_sessions(m: Model)
    ensures
        ({
            let empty = m.relisted(Seq::empty());
            &&& empty.selected == 0
            &&& empty.selected_id() is None
            &&& empty.output_request() == RequestView::Nothing
            &&& empty.stop_request() == RequestView::Nothing
        }),
{
}

/// Only the session that is selected is ever asked to be stopped, or asked for its output.
pub proof fn requests_concern_the_selected_session(m: Model)
    requires
        m.selection_is_valid(),
        m.sessions.len() > 0,
    ensures
        m.stop_request() == (RequestView::StopSession { session_id: m.sessions[m.selected].id }),
        m.output_request() == (RequestView::LoadOutput {
            session_id: m.sessions[m.selected].id,
            limit: m.limit,
        }),
{
}

/// In the session list exactly the selected row stands out, and in all of the dashboard
/// exactly the border of the selected pane.
pub proof fn selection_stands_out(m: Model, i: int, pane: Pane)
    requires
        0 <= i < m.sessions.len(),
    ensures
        m.session_list_view().rows[i].highlight is Some <==> i == m.selected,
        m.border(pane) is Some <==> pane == m.pane,
{
}

/// The help covers the panes, and nothing but the help does.
pub proof fn help_covers_the_panes(m: Model, plan: ScreenPlan, bounds: Area)
    requires
        plan.divides(bounds, m.help),
    ensures
        plan.panes is None <==> m.help,
{
}

/// Unless there is very much output, all that it takes to draw the dashboard are ids that can be
/// shown and texts whose columns can be counted.
pub proof fn moderate_output_can_be_drawn(m: Model, bounds: Area)
    requires
        0 <= m.scroll,
        bounds.countable(),
        m.help || {
            &&& m.ids_can_be_shown()
            &&& columns_are_countable(m.output_pane_text(), bounds.width)
            &&& columns_are_countable(m.metrics_pane_text(), bounds.width)
        },
        bounds.y + bounds.height + m.selected_output().len() <= u16::MAX,
    ensures
        m.fits(bounds),
{
    assert forall|plan: ScreenPlan| #[trigger] plan.suits(bounds, m.help) implies m.fits_plan(
        plan,
        bounds,
    ) by {
        if let Some(panes) = plan.panes {
            let viewport = Model::viewport(panes.output.height as int);
            fitted_output_fills_its_pane(m, viewport);
            assert(m.fitted(viewport).selected_output() == m.selected_output());
            assert(m.fitted(viewport).scroll % 0x1_0000 == m.fitted(viewport).scroll);
        }
    }
}

/// Followed output can be drawn as long as its last line can be counted, whatever the height of
/// its pane.
pub proof fn followed_output_can_be_drawn(m: Model, bounds: Area)
    requires
        m.follow,
        bounds.countable(),
        columns_are_countable(m.output_pane_text(), bounds.width),
        columns_are_countable(m.metrics_pane_text(), bounds.width),
        m.ids_can_be_shown(),
        bounds.y + 3 + m.selected_output().len() <= u16::MAX,
    ensures
        m.fits(bounds),
{
    assert forall|plan: ScreenPlan| #[trigger] plan.suits(bounds, m.help) implies m.fits_plan(
        plan,
        bounds,
    ) by {
        if let Some(panes) = plan.panes {
            let viewport = Model::viewport(panes.output.height as int);
            let fitted = m.fitted(viewport);
            assert(fitted.selected_output() == m.selected_output());
            let resized = Model { height: max(viewport, 1), ..m };
            assert(resized.selected_output() == m.selected_output());
            assert(fitted.scroll % 0x1_0000 == fitted.scroll);
        }
    }
}

/// In the output pane a step down undoes a step up: the output is followed again if it was, and
/// shown from the same line.
pub proof fn output_step_down_undoes_a_step_up(m: Model)
    requires
        m.pane == Pane::Output,
        (m.follow && m.scroll == m.max_scroll()) || (!m.follow && 0 < m.scroll < m.max_scroll()),
    ensures
        m.scrolled_up().scrolled_down() == m,
{
    assert(m.scrolled_up().selected_output() == m.selected_output());
    assert(m.scrolled_up().max_scroll() == m.max_scroll());
    assert(m.scrolled_up().scrolled_down() =~= m);
}

/// A valid selection lies on a session, and is zero where there is none.
pub proof fn valid_selections_lie_on_sessions(m: Model)
    ensures
        m.sessions.len() > 0 ==> (m.selection_is_valid() <==> 0 <= m.selected < m.sessions.len()),
        m.sessions.len() == 0 ==> (m.selection_is_valid() <==> m.selected == 0),
{
}

/// In the session pane a step down selects the next session and a step up the previous one, as
/// long as there is one; at either end of the list the selection stays.
pub proof fn steps_select_the_neighbours(m: Model)
    requires
        m.pane == Pane::Sessions,
        m.selection_is_valid(),
    ensures
        m.selected + 1 < m.sessions.len() ==> m.scrolled_down().selected == m.selected + 1,
        m.selected + 1 >= m.sessions.len() ==> m.scrolled_down().selected == m.selected,
        m.selected > 0 ==> m.scrolled_up().selected == m.selected - 1,
        m.selected == 0 ==> m.scrolled_up().selected == 0,
        m.selected + 1 < m.sessions.len() ==> m.scrolled_down().output_request() == (
        RequestView::LoadOutput { session_id: m.sessions[m.selected + 1].id, limit: m.limit }),
        m.selected > 0 ==> m.scrolled_up().output_request() == (RequestView::LoadOutput {
            session_id: m.sessions[m.selected - 1].id,
            limit: m.limit,
        }),
{
}

/// By steps down every session below the selected one is reached, one after the other.
pub proof fn steps_reach_every_session(m: Model, times: nat)
    requires
        m.pane == Pane::Sessions,
        m.selection_is_valid(),
        m.selected + times < m.sessions.len(),
    ensures
        scrolled_down_by(m, times).selected == m.selected + times,
        scrolled_down_by(m, times).sessions == m.sessions,
        scrolled_down_by(m, times).pane == Pane::Sessions,
        times > 0 ==> scrolled_down_by(m, times).follow && scrolled_down_by(m, times).scroll == 0,
    decreases times,
{
    if times > 0 {
        steps_reach_every_session(m, (times - 1) as nat);
    }
}

/// Without sessions a step in the session pane selects nothing, and asks for nothing.
pub proof fn steps_without_sessions_select_nothing(m: Model)
    requires
        m.pane == Pane::Sessions,
        m.selection_is_valid(),
        m.sessions.len() == 0,
    ensures
        m.scrolled_down() == m,
        m.scrolled_up().selected == 0,
        m.scrolled_up().selected_id() is None,
        m.scrolled_up().output_request() == RequestView::Nothing,
{
}

/// The largest offset leaves the pane full: the last line of output is in its last row. Where
/// all of the output fits, it is zero.
pub proof fn the_largest_offset_shows_the_last_page(m: Model)
    requires
        0 <= m.height,
    ensures
        m.height > 0 && m.selected_output().len() > m.height ==> m.max_scroll() + m.height
            == m.selected_output().len(),
        m.height > 0 && m.selected_output().len() <= m.height ==> m.max_scroll() == 0,
        m.height == 0 && m.selected_output().len() > 0 ==> m.max_scroll() + 1
            == m.selected_output().len(),
        m.height == 0 && m.selected_output().len() == 0 ==> m.max_scroll() == 0,
{
}

/// In the output pane each step moves the output by one line, and no further than to its ends:
/// a step down to the end follows the output again, a step up follows it no longer.
pub proof fn output_steps_move_by_one_line(m: Model)
    requires
        m.pane == Pane::Output,
        !m.follow,
        0 <= m.scroll,
    ensures
        m.scroll > 0 ==> m.scrolled_up().scroll == m.scroll - 1,
        m.scroll == 0 ==> m.scrolled_up().scroll == 0,
        !m.scrolled_up().follow,
        m.scroll + 1 < m.max_scroll() ==> m.scrolled_down().scroll == m.scroll + 1
            && !m.scrolled_down().follow,
        m.scroll + 1 >= m.max_scroll() ==> m.scrolled_down().scroll == m.max_scroll()
            && m.scrolled_down().follow,
{
}

/// A step up while the output is followed leaves its end by one line, wherever the offset was.
pub proof fn a_step_up_leaves_the_end(m: Model)
    requires
        m.pane == Pane::Output,
        m.follow,
    ensures
        !m.scrolled_up().follow,
        m.max_scroll() > 0 ==> m.scrolled_up().scroll == m.max_scroll() - 1,
        m.max_scroll() == 0 ==> m.scrolled_up().scroll == 0,
{
}

/// In the metrics pane a step up takes the offset back by one, and changes nothing else.
pub proof fn a_step_up_in_the_metrics_moves_the_offset(m: Model)
    requires
        m.pane == Pane::Metrics,
        0 <= m.scroll,
    ensures
        m.scroll > 0 ==> m.scrolled_up() == (Model { scroll: m.scroll - 1, ..m }),
        m.scroll == 0 ==> m.scrolled_up() == m,
{
}

/// A dashboard opens on all sessions of the listing, with the first selected and the keys on
/// the session pane, no output loaded yet, the output followed and the help hidden.
pub proof fn a_dashboard_opens_on_the_first_session(
    sessions: Seq<SessionView>,
    limit: int,
    feed: Receiver<OutputEvent>,
    id: Seq<char>,
)
    ensures
        ({
            let m = Model::opened(sessions, limit, feed);
            &&& m.sessions == sessions
            &&& m.selected == 0
            &&& m.pane == Pane::Sessions
            &&& !m.help
            &&& m.follow && m.scroll == 0
            &&& !m.outputs.contains_key(id)
            &&& m.limit == limit
            &&& m.feed == feed
            &&& m.selected_output().len() == 0
            &&& sessions.len() > 0 ==> m.output_request() == (RequestView::LoadOutput {
                session_id: sessions[0].id,
                limit,
            })
            &&& sessions.len() == 0 ==> m.output_request() == RequestView::Nothing
        }),
{
}

/// The output pane is to the right of the sessions, and the metrics to the right of the output.
pub proof fn panes_stand_in_order(m: Model)
    ensures
        m.pane == Pane::Sessions ==> m.moved_right().pane == Pane::Output,
        m.pane == Pane::Output ==> m.moved_right().pane == Pane::Metrics,
        m.pane == Pane::Metrics ==> m.moved_right().pane == Pane::Sessions,
        m.pane == Pane::Output ==> m.moved_left().pane == Pane::Sessions,
        m.pane == Pane::Metrics ==> m.moved_left().pane == Pane::Output,
        m.pane == Pane::Sessions ==> m.moved_left().pane == Pane::Metrics,
{
}

/// Moving between panes and showing the help change nothing else.
pub proof fn panes_and_help_change_nothing_else(m: Model)
    ensures
        m.moved_right() == (Model { pane: m.moved_right().pane, ..m }),
        m.moved_left() == (Model { pane: m.moved_left().pane, ..m }),
        m.help_toggled() == (Model { help: !m.help, ..m }),
{
}

/// The output that is shown is what was loaded for the id of the selected session, or nothing
/// where nothing was loaded for it.
pub proof fn shown_output_belongs_to_the_selected_session(m: Model)
    ensures
        0 <= m.selected < m.sessions.len() ==> m.selected_id() == Some(m.sessions[m.selected].id),
        !(0 <= m.selected < m.sessions.len()) ==> m.selected_id() is None
            && m.selected_output().len() == 0,
        0 <= m.selected < m.sessions.len() && m.outputs.contains_key(m.sessions[m.selected].id)
            ==> m.selected_output() == m.outputs[m.sessions[m.selected].id],
        0 <= m.selected < m.sessions.len() && !m.outputs.contains_key(m.sessions[m.selected].id)
            ==> m.selected_output().len() == 0,
{
}

/// A listing that succeeded is taken as it is: every session of it, whatever its state, in the
/// order of the listing. One that failed counts as empty.
pub proof fn listings_are_taken_as_they_are<E>(sessions: Vec<Session>, error: E, i: int)
    ensures
        listed(Ok::<Vec<Session>, E>(sessions)).len() == sessions@.len(),
        0 <= i < sessions@.len() ==> listed(Ok::<Vec<Session>, E>(sessions))[i] == sessions@[i]@,
        listed(Err::<Vec<Session>, E>(error)).len() == 0,
{
}

/// After a new listing all of its sessions are there, in its order. The selection keeps its
/// place in the list, or moves up to the last session where the list has become too short.
pub proof fn relisting_shows_the_whole_listing<E>(m: Model, sessions: Vec<Session>, i: int)
    requires
        m.selection_is_valid(),
    ensures
        ({
            let after = m.relisted(listed(Ok::<Vec<Session>, E>(sessions)));
            &&& after.sessions.len() == sessions@.len()
            &&& 0 <= i < sessions@.len() ==> after.sessions[i] == sessions@[i]@
            &&& m.selected < sessions@.len() ==> after.selected == m.selected
            &&& 0 < sessions@.len() <= m.selected ==> after.selected == sessions@.len() - 1
            &&& sessions@.len() == 0 ==> after.selected == 0
            &&& after.outputs == m.outputs && after.pane == m.pane && after.help == m.help
            &&& after.follow == m.follow && after.scroll == m.scroll
        }),
{
}

/// Fitting sets the height to the room there is, at least one line. Output that is followed
/// then ends with the pane; other output stays where it is, unless that is beyond its end.
pub proof fn fitting_keeps_what_it_can(m: Model, viewport: int)
    requires
        0 <= viewport,
        0 <= m.scroll,
    ensures
        ({
            let shown = if viewport == 0 {
                1
            } else {
                viewport
            };
            let len = m.selected_output().len();
            let last = if len > shown {
                len - shown
            } else {
                0
            };
            let after = m.fitted(viewport);
            &&& after.height == shown
            &&& m.follow ==> after.scroll == last
            &&& !m.follow && m.scroll <= last ==> after.scroll == m.scroll
            &&& !m.follow && m.scroll > last ==> after.scroll == last
            &&& after == (Model { height: after.height, scroll: after.scroll, ..m })
        }),
{
    let resized = Model { height: max(viewport, 1), ..m };
    assert(resized.selected_output() == m.selected_output());
}

/// A request says which session it is about, and how much of its output is wanted.
pub proof fn requests_say_what_they_ask_for(session_id: String, limit: usize)
    ensures
        Request::Nothing@ == RequestView::Nothing,
        Request::NewSession@ == RequestView::NewSession,
        Request::ListSessions@ == RequestView::ListSessions,
        (Request::StopSession { session_id })@ == (RequestView::StopSession {
            session_id: session_id@,
        }),
        (Request::LoadOutput { session_id, limit })@ == (RequestView::LoadOutput {
            session_id: session_id@,
            limit: limit as int,
        }),
{
}

/// What a dashboard asks for when a session is to be started or stopped, has been stopped, or
/// is to show its output.
pub proof fn keys_ask_for_the_right_thing<E>(
    d: &Dashboard,
    started: Request,
    stop: Request,
    stopped: Result<(), E>,
    relist: Request,
    load: Request,
)
    requires
        call_ensures(Dashboard::new_session, (d,), started),
        call_ensures(Dashboard::stop_selected, (d,), stop),
        call_ensures(Dashboard::session_stopped::<E>, (d, stopped), relist),
        call_ensures(Dashboard::sync_selected_output, (d,), load),
    ensures
        started@ == RequestView::NewSession,
        relist@ == RequestView::ListSessions,
        0 <= d@.selected < d@.sessions.len() ==> {
            &&& stop@ == (RequestView::StopSession { session_id: d@.sessions[d@.selected].id })
            &&& load@ == (RequestView::LoadOutput {
                session_id: d@.sessions[d@.selected].id,
                limit: d@.limit,
            })
        },
        !(0 <= d@.selected < d@.sessions.len()) ==> stop@ == RequestView::Nothing && load@
            == RequestView::Nothing,
{
}

/// What a dashboard tells of itself is its state.
pub proof fn answers_tell_the_state(
    d: &Dashboard,
    sessions: &Vec<Session>,
    index: usize,
    pane: Pane,
    help: bool,
    follow: bool,
    offset: usize,
    largest: usize,
    id: Option<&str>,
    lines: &[OutputLine],
    session: Option<&Session>,
    i: int,
)
    requires
        call_ensures(Dashboard::selected_session, (d,), session),
        call_ensures(Dashboard::sessions, (d,), sessions),
        call_ensures(Dashboard::selected_index, (d,), index),
        call_ensures(Dashboard::selected_pane, (d,), pane),
        call_ensures(Dashboard::help_is_shown, (d,), help),
        call_ensures(Dashboard::output_follow, (d,), follow),
        call_ensures(Dashboard::output_scroll_offset, (d,), offset),
        call_ensures(Dashboard::max_output_scroll, (d,), largest),
        call_ensures(Dashboard::selected_session_id, (d,), id),
        call_ensures(Dashboard::selected_output_lines, (d,), lines),
    ensures
        sessions@.len() == d@.sessions.len(),
        0 <= i < sessions@.len() ==> sessions@[i]@ == d@.sessions[i],
        index == d@.selected && d@.selection_is_valid(),
        pane == d@.pane && help == d@.help && follow == d@.follow && offset == d@.scroll,
        largest == d@.max_scroll(),
        session is Some <==> d@.sessions.len() > 0,
        session matches Some(selected) ==> selected@ == d@.sessions[d@.selected],
        id is Some <==> d@.sessions.len() > 0,
        id matches Some(text) ==> text@ == d@.sessions[d@.selected].id,
        lines@.len() == d@.selected_output().len(),
        0 <= i < lines@.len() ==> lines@[i]@ == d@.selected_output()[i],
{
    assert(session_views(sessions@).len() == sessions@.len());
    assert(line_views(lines@).len() == lines@.len());
    if 0 <= i < sessions@.len() {
        assert(session_views(sessions@)[i] == sessions@[i]@);
    }
    if 0 <= i < lines@.len() {
        assert(line_views(lines@)[i] == lines@[i]@);
    }
}

/// Events and lags keep the draining going; an empty or closed channel ends it.
pub proof fn only_an_empty_or_closed_channel_ends_the_draining(received: &Received, more: bool)
    requires
        call_ensures(keep_draining, (received,), more),
    ensures
        received is Event || received is Lagged ==> more,
        received is Empty || received is Closed ==> !more,
{
}

/// A channel that has been emptied was found empty or closed at the last attempt. Draining
/// gives up only after as many attempts as can be counted in sixty-four bits, all of which
/// brought something.
pub proof fn draining_ends_at_the_end(
    from: Receiver<OutputEvent>,
    to: Receiver<OutputEvent>,
    emptied: bool,
)
    requires
        drained(from, to, emptied),
    ensures
        emptied ==> exists|before: Receiver<OutputEvent>, last: Received|
            #[trigger] may_receive(before, last, to) && (last is Empty || last is Closed)
                && receiver_position(before) == receiver_position(to),
        !emptied ==> exists|stops: Seq<Receiver<OutputEvent>>, brought: Seq<Received>|
            {
                &&& #[trigger] received_in_turn(stops, brought)
                &&& stops.first() == from && stops.last() == to
                &&& brought.len() == u64::MAX
                &&& forall|i: int|
                    0 <= i < brought.len() ==> (#[trigger] brought[i]) is Event
                        || brought[i] is Lagged
            },
{
    let (stops, brought) = choose|stops: Seq<Receiver<OutputEvent>>, brought: Seq<Received>|
        {
            &&& #[trigger] received_in_turn(stops, brought)
            &&& brought.len() > 0
            &&& stops.first() == from
            &&& stops.last() == to
            &&& forall|i: int| 0 <= i < brought.len() - 1 ==> (#[trigger] brought[i]).goes_on()
            &&& brought.last().goes_on() == !emptied
            &&& !emptied ==> brought.len() == DRAIN_LIMIT
        };
    let end = brought.len() - 1;
    assert(may_receive(stops[end], brought[end], stops[end + 1]));
    assert(received_in_turn(stops, brought));
}

/// One attempt after the other is made where the one before it left the receiver.
pub proof fn attempts_follow_one_another(
    stops: Seq<Receiver<OutputEvent>>,
    brought: Seq<Received>,
    i: int,
)
    requires
        received_in_turn(stops, brought),
        0 <= i < brought.len(),
    ensures
        stops.len() == brought.len() + 1,
        may_receive(stops[i], brought[i], stops[i + 1]),
        brought[i] is Empty || brought[i] is Closed <==> receiver_position(stops[i])
            == receiver_position(stops[i + 1]),
{
}

} // verus!
