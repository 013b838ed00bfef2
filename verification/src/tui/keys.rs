//! What the dashboard does when it is opened, when a key is pressed, and when an answer comes.

use ratatui::Frame;
use tokio::sync::broadcast::Receiver;
use vstd::prelude::*;

use crate::session::{line_views, OutputEvent, OutputLine, Session};
use crate::tui::dashboard::{Dashboard, LoadedOutput};
use crate::tui::feed::{may_receive, receiver_position, Received};
use crate::tui::laws::{draining_ends_at_the_end, fitting_keeps_what_it_can};
use crate::tui::model::{
    help_panel_view, status_panel_view, Model, Pane, Request, RequestView, ScreenPlan,
};
use crate::tui::render::plan_screen;
use crate::tui::screen::{
    frame_area, frame_cells, list_painted, tabs_painted, text_painted, Area,
};
use crate::tui::shown::an_ordinary_dashboard_can_be_drawn;
use crate::tui::text::has_short_id;

verus! {

/// Whether `request` asks for the last `limit` lines of output of the session `id`.
pub open spec fn asks_for_output(request: Request, id: Seq<char>, limit: int) -> bool {
    request matches Request::LoadOutput { session_id, limit: count } && session_id@ == id && count
        == limit
}

/// A dashboard lists every session of the store, in the store's order, selects the first one and
/// asks for its output; it listens to the live output that it was given. A store that cannot be
/// listed counts as empty.
pub proof fn opening_lists_all_sessions<E>(
    listing: Result<Vec<Session>, E>,
    limit: usize,
    feed: Receiver<OutputEvent>,
    opened: (Dashboard, Request),
    i: int,
)
    requires
        call_ensures(Dashboard::new::<E>, (listing, limit, feed), opened) || call_ensures(
            Dashboard::with_output_store::<E>,
            (listing, limit, feed),
            opened,
        ),
    ensures
        listing is Err ==> opened.0@.sessions.len() == 0 && opened.1 is Nothing,
        listing matches Ok(sessions) ==> {
            &&& opened.0@.sessions.len() == sessions@.len()
            &&& 0 <= i < sessions@.len() ==> opened.0@.sessions[i] == sessions@[i]@
            &&& sessions@.len() > 0 ==> asks_for_output(
                opened.1,
                sessions@[0].id@,
                limit as int,
            )
            &&& sessions@.len() == 0 ==> opened.1 is Nothing
        },
        opened.0@.selected == 0,
        opened.0@.pane == Pane::Sessions,
        !opened.0@.help && opened.0@.follow && opened.0@.scroll == 0,
        opened.0@.limit == limit && opened.0@.feed == feed,
        opened.0@.outputs.dom() =~= Set::empty(),
{
}

/// The key for the next pane selects the pane to the right, and does nothing else.
pub proof fn the_next_pane_is_to_the_right(d: &mut Dashboard)
    requires
        call_ensures(Dashboard::next_pane, (d,), ()),
    ensures
        final(d)@ == (Model {
            pane: match old(d)@.pane {
                Pane::Sessions => Pane::Output,
                Pane::Output => Pane::Metrics,
                Pane::Metrics => Pane::Sessions,
            },
            ..old(d)@
        }),
{
}

/// The key for the previous pane selects the pane to the left, and does nothing else.
pub proof fn the_previous_pane_is_to_the_left(d: &mut Dashboard)
    requires
        call_ensures(Dashboard::prev_pane, (d,), ()),
    ensures
        final(d)@ == (Model {
            pane: match old(d)@.pane {
                Pane::Sessions => Pane::Metrics,
                Pane::Output => Pane::Sessions,
                Pane::Metrics => Pane::Output,
            },
            ..old(d)@
        }),
{
}

/// The key for the help shows it or hides it, and does nothing else.
pub proof fn the_help_comes_and_goes(d: &mut Dashboard)
    requires
        call_ensures(Dashboard::toggle_help, (d,), ()),
    ensures
        final(d)@ == (Model { help: !old(d)@.help, ..old(d)@ }),
{
}

/// A step down among the sessions selects the next one, if there is one, shows its output to the
/// end and asks for it.
pub proof fn a_step_down_selects_the_next_session(d: &mut Dashboard, request: Request)
    requires
        call_ensures(Dashboard::scroll_down, (d,), request),
        old(d)@.pane == Pane::Sessions,
        old(d)@.selection_is_valid(),
    ensures
        old(d)@.sessions.len() == 0 ==> final(d)@ == old(d)@ && request is Nothing,
        old(d)@.sessions.len() > 0 ==> {
            let next = if old(d)@.selected + 1 < old(d)@.sessions.len() {
                old(d)@.selected + 1
            } else {
                old(d)@.selected
            };
            &&& final(d)@ == (Model { selected: next, follow: true, scroll: 0, ..old(d)@ })
            &&& asks_for_output(request, old(d)@.sessions[next].id, old(d)@.limit)
        },
{
}

/// A step up among the sessions selects the previous one, if there is one, shows its output to
/// the end and asks for it.
pub proof fn a_step_up_selects_the_previous_session(d: &mut Dashboard, request: Request)
    requires
        call_ensures(Dashboard::scroll_up, (d,), request),
        old(d)@.pane == Pane::Sessions,
        old(d)@.selection_is_valid(),
    ensures
        ({
            let previous = if old(d)@.selected > 0 {
                old(d)@.selected - 1
            } else {
                0
            };
            &&& final(d)@ == (Model { selected: previous, follow: true, scroll: 0, ..old(d)@ })
            &&& old(d)@.sessions.len() > 0 ==> asks_for_output(
                request,
                old(d)@.sessions[previous].id,
                old(d)@.limit,
            )
            &&& old(d)@.sessions.len() == 0 ==> request is Nothing
        }),
{
}

/// The first line that is shown when the end of `m`'s output is: none is left blank below it.
pub open spec fn start_of_last_page(m: Model) -> int {
    let shown = if m.height < 1 {
        1
    } else {
        m.height
    };
    if m.selected_output().len() > shown {
        m.selected_output().len() - shown
    } else {
        0
    }
}

/// A step down in the output goes down by one line, and at the end of the output follows it
/// again; while it is followed, there is nothing to do. Nothing is asked for.
pub proof fn a_step_down_in_the_output_goes_down_a_line(d: &mut Dashboard, request: Request)
    requires
        call_ensures(Dashboard::scroll_down, (d,), request),
        old(d)@.pane == Pane::Output,
        0 <= old(d)@.scroll,
    ensures
        request is Nothing,
        old(d)@.follow ==> final(d)@ == old(d)@,
        !old(d)@.follow && old(d)@.scroll + 1 < start_of_last_page(old(d)@) ==> final(d)@ == (
        Model { scroll: old(d)@.scroll + 1, ..old(d)@ }),
        !old(d)@.follow && old(d)@.scroll + 1 >= start_of_last_page(old(d)@) ==> final(d)@ == (
        Model { follow: true, scroll: start_of_last_page(old(d)@), ..old(d)@ }),
{
}

/// A step up in the output goes up by one line, from the end where the output was followed, and
/// follows it no longer. Nothing is asked for.
pub proof fn a_step_up_in_the_output_goes_up_a_line(d: &mut Dashboard, request: Request)
    requires
        call_ensures(Dashboard::scroll_up, (d,), request),
        old(d)@.pane == Pane::Output,
        0 <= old(d)@.scroll,
    ensures
        request is Nothing,
        ({
            let from = if old(d)@.follow {
                start_of_last_page(old(d)@)
            } else {
                old(d)@.scroll
            };
            &&& from > 0 ==> final(d)@ == (Model { follow: false, scroll: from - 1, ..old(d)@ })
            &&& from == 0 ==> final(d)@ == (Model { follow: false, scroll: 0, ..old(d)@ })
        }),
{
}

/// In the metrics a step down does nothing.
pub proof fn a_step_down_in_the_metrics_does_nothing(d: &mut Dashboard, request: Request)
    requires
        call_ensures(Dashboard::scroll_down, (d,), request),
        old(d)@.pane == Pane::Metrics,
    ensures
        request is Nothing,
        final(d)@ == old(d)@,
{
}

/// In the metrics a step up takes the offset of the output back by one, and does nothing else.
pub proof fn a_step_up_in_the_metrics_takes_the_offset_back(d: &mut Dashboard, request: Request)
    requires
        call_ensures(Dashboard::scroll_up, (d,), request),
        old(d)@.pane == Pane::Metrics,
        0 <= old(d)@.scroll,
    ensures
        request is Nothing,
        old(d)@.scroll > 0 ==> final(d)@ == (Model { scroll: old(d)@.scroll - 1, ..old(d)@ }),
        old(d)@.scroll == 0 ==> final(d)@ == old(d)@,
{
}

/// A refresh lists every session of the store, whatever its state and in the store's order. The
/// selection keeps its place, or moves up to the last session, whose output is asked for. All
/// else stays as it is.
pub proof fn a_refresh_lists_all_sessions<E>(
    d: &mut Dashboard,
    listing: Result<Vec<Session>, E>,
    request: Request,
    i: int,
)
    requires
        call_ensures(Dashboard::refresh::<E>, (d, listing), request),
        old(d)@.selection_is_valid(),
    ensures
        listing is Err ==> final(d)@.sessions.len() == 0 && final(d)@.selected == 0
            && request is Nothing,
        listing matches Ok(sessions) ==> {
            &&& final(d)@.sessions.len() == sessions@.len()
            &&& 0 <= i < sessions@.len() ==> final(d)@.sessions[i] == sessions@[i]@
            &&& old(d)@.selected < sessions@.len() ==> final(d)@.selected == old(d)@.selected
            &&& 0 < sessions@.len() <= old(d)@.selected ==> final(d)@.selected == sessions@.len()
                - 1
            &&& sessions@.len() == 0 ==> final(d)@.selected == 0 && request is Nothing
            &&& sessions@.len() > 0 ==> asks_for_output(
                request,
                sessions@[final(d)@.selected].id@,
                old(d)@.limit,
            )
        },
        final(d)@ == (Model {
            sessions: final(d)@.sessions,
            selected: final(d)@.selected,
            ..old(d)@
        }),
{
}

/// A tick empties the live output, changes nothing else and asks for the sessions of the moment.
/// The last attempt found the channel empty or closed, unless more attempts were made than can
/// be counted in sixty-four bits.
pub proof fn a_tick_empties_the_live_output(d: &mut Dashboard, request: Request)
    requires
        call_ensures(Dashboard::tick, (d,), request),
    ensures
        request is ListSessions,
        final(d)@ == (Model { feed: final(d)@.feed, ..old(d)@ }),
        (exists|before: Receiver<OutputEvent>, last: Received|
            #[trigger] may_receive(before, last, final(d)@.feed) && (last is Empty
                || last is Closed)) || crate::tui::feed::drained(
            old(d)@.feed,
            final(d)@.feed,
            false,
        ),
{
    let emptied = choose|emptied: bool| #[trigger]
        crate::tui::feed::drained(old(d)@.feed, final(d)@.feed, emptied);
    draining_ends_at_the_end(old(d)@.feed, final(d)@.feed, emptied);
}

/// One attempt to take an event says whether something came: an event takes the dashboard one
/// place on in the live output, a lag past what was missed, and else it stays where it is.
pub proof fn an_attempt_tells_whether_something_came(d: &mut Dashboard, more: bool)
    requires
        call_ensures(Dashboard::drain_event, (d,), more),
    ensures
        final(d)@ == (Model { feed: final(d)@.feed, ..old(d)@ }),
        more <==> receiver_position(final(d)@.feed) != receiver_position(old(d)@.feed),
        exists|received: Received|
            #[trigger] may_receive(old(d)@.feed, received, final(d)@.feed) && (more <==> received
                is Event || received is Lagged),
{
}

/// Output that was read is kept for its session, line by line as it was read, in place of what
/// was kept for it, and handed on as it is. Where it could not be read, nothing changes and the
/// error is handed on.
pub proof fn loaded_output_is_kept_and_handed_on<E>(
    d: &mut Dashboard,
    session_id: String,
    fetched: Result<Vec<OutputLine>, E>,
    loaded: LoadedOutput<E>,
    other: Seq<char>,
    i: int,
)
    requires
        call_ensures(Dashboard::output_loaded::<E>, (d, session_id, fetched), loaded),
    ensures
        fetched matches Err(error) ==> final(d)@ == old(d)@ && loaded == LoadedOutput::<E>::Failed(
            error,
        ),
        fetched matches Ok(lines) ==> {
            &&& final(d)@ == (Model { outputs: final(d)@.outputs, ..old(d)@ })
            &&& final(d)@.outputs.contains_key(session_id@)
            &&& final(d)@.outputs[session_id@].len() == lines@.len()
            &&& 0 <= i < lines@.len() ==> {
                &&& final(d)@.outputs[session_id@][i].text == lines@[i].text@
                &&& final(d)@.outputs[session_id@][i].stream == lines@[i].stream
            }
            &&& other != session_id@ ==> (final(d)@.outputs.contains_key(other)
                <==> old(d)@.outputs.contains_key(other))
            &&& other != session_id@ && old(d)@.outputs.contains_key(other)
                ==> final(d)@.outputs[other] == old(d)@.outputs[other]
            &&& loaded matches LoadedOutput::Replace { session_id: id, lines: handed }
            &&& id@ == session_id@
            &&& handed@ == lines@
        },
{
    if let Ok(lines) = fetched {
        assert(line_views(lines@).len() == lines@.len());
        if 0 <= i < lines@.len() {
            assert(line_views(lines@)[i] == lines@[i]@);
        }
    }
}

/// Fitting the view to a pane sets its height, at least one line, and moves the output only as
/// far as that asks for: to its end where it is followed, else back from beyond its end.
pub proof fn fitting_moves_the_output_no_further_than_needed(
    d: &mut Dashboard,
    viewport_height: usize,
)
    requires
        call_ensures(Dashboard::sync_output_scroll, (d, viewport_height), ()),
        0 <= old(d)@.scroll,
    ensures
        ({
            let shown = if viewport_height == 0 {
                1
            } else {
                viewport_height as int
            };
            let last = start_of_last_page(Model { height: shown, ..old(d)@ });
            &&& final(d)@.height == shown
            &&& old(d)@.follow ==> final(d)@.scroll == last
            &&& !old(d)@.follow && old(d)@.scroll <= last ==> final(d)@.scroll == old(d)@.scroll
            &&& !old(d)@.follow && old(d)@.scroll > last ==> final(d)@.scroll == last
            &&& final(d)@ == (Model {
                height: final(d)@.height,
                scroll: final(d)@.scroll,
                ..old(d)@
            })
        }),
{
    fitting_keeps_what_it_can(old(d)@, viewport_height as int);
    let resized = Model {
        height: if viewport_height == 0 {
            1
        } else {
            viewport_height as int
        },
        ..old(d)@
    };
    assert(resized.selected_output() == old(d)@.selected_output());
}

/// The screen is planned for the area that it has, with panes unless the help is shown.
pub proof fn the_plan_suits_the_screen(area: Area, help: bool, plan: ScreenPlan)
    requires
        call_ensures(plan_screen, (area, help), plan),
    ensures
        plan.panes is None <==> help,
        plan.inside(area),
        plan.divides(area, help),
        area.x + area.width <= u16::MAX && area.y + area.height <= u16::MAX ==> plan.suits(
            area,
            help,
        ),
{
}

/// Drawing by a plan paints the header, the three panes or the help, and the status bar, each
/// where the plan says, and touches nothing of the dashboard but the view of the output.
pub proof fn drawing_paints_everything_where_it_belongs(
    d: &mut Dashboard,
    frame: &mut Frame<'_>,
    plan: ScreenPlan,
)
    requires
        call_ensures(Dashboard::render_planned, (d, frame, plan), ()),
    ensures
        frame_area(*final(frame)) == frame_area(*old(frame)),
        final(d)@ == (Model {
            height: final(d)@.height,
            scroll: final(d)@.scroll,
            ..old(d)@
        }),
        ({
            let bounds = frame_area(*old(frame));
            let cells = frame_cells(*old(frame));
            let header = tabs_painted(cells, bounds, old(d)@.header_view(), plan.header);
            let body = match plan.panes {
                None => text_painted(header, bounds, help_panel_view(), plan.body),
                Some(panes) => text_painted(
                    text_painted(
                        list_painted(
                            header,
                            bounds,
                            old(d)@.session_list_view(),
                            panes.sessions,
                        ),
                        bounds,
                        final(d)@.output_panel_view(),
                        panes.output,
                    ),
                    bounds,
                    final(d)@.metrics_panel_view(),
                    panes.metrics,
                ),
            };
            frame_cells(*final(frame)) == text_painted(
                body,
                bounds,
                status_panel_view(),
                plan.status,
            )
        }),
        plan.panes is None ==> final(d)@ == old(d)@,
        plan.panes matches Some(panes) ==> final(d)@.height == if panes.output.height <= 3 {
            1
        } else {
            panes.output.height - 2
        },
{
}

/// A dashboard on sessions whose ids can be shown is drawn on any frame of an ordinary size,
/// unless there is very much output; where one is not drawn, neither it nor the frame changes.
pub proof fn an_ordinary_dashboard_is_drawn(
    d: &mut Dashboard,
    frame: &mut Frame<'_>,
    drawn: bool,
)
    requires
        call_ensures(Dashboard::render_if_possible, (d, frame), drawn),
        0 <= old(d)@.scroll,
    ensures
        ({
            let bounds = frame_area(*old(frame));
            &&& bounds.x + bounds.width <= u16::MAX
            &&& bounds.width <= 32_769
            &&& bounds.y + bounds.height + old(d)@.selected_output().len() <= u16::MAX
            &&& old(d)@.help || forall|i: int|
                0 <= i < old(d)@.sessions.len() ==> has_short_id(
                    (#[trigger] old(d)@.sessions[i]).id,
                )
        }) ==> drawn,
        !drawn ==> final(d)@ == old(d)@ && *final(frame) == *old(frame),
        final(d)@ == (Model {
            height: final(d)@.height,
            scroll: final(d)@.scroll,
            ..old(d)@
        }),
        old(d)@.help ==> final(d)@ == old(d)@,
        drawn ==> exists|plan: ScreenPlan|
            {
                &&& #[trigger] plan.divides(frame_area(*old(frame)), old(d)@.help)
                &&& plan.suits(frame_area(*old(frame)), old(d)@.help)
                &&& final(d)@ == old(d)@.rendered(plan)
                &&& frame_cells(*final(frame)) == old(d)@.painted(
                    frame_cells(*old(frame)),
                    frame_area(*old(frame)),
                    plan,
                )
            },
{
    let bounds = frame_area(*old(frame));
    if {
        &&& bounds.x + bounds.width <= u16::MAX
        &&& bounds.width <= 32_769
        &&& bounds.y + bounds.height + old(d)@.selected_output().len() <= u16::MAX
        &&& old(d)@.help || forall|i: int|
            0 <= i < old(d)@.sessions.len() ==> has_short_id((#[trigger] old(d)@.sessions[i]).id)
    } {
        an_ordinary_dashboard_can_be_drawn(old(d)@, bounds);
    }
}

/// A dashboard that is drawn is drawn by a plan that divides its frame, and everything is where
/// that plan says.
pub proof fn a_drawn_dashboard_follows_a_plan(d: &mut Dashboard, frame: &mut Frame<'_>)
    requires
        call_ensures(Dashboard::render, (d, frame), ()),
    ensures
        frame_area(*final(frame)) == frame_area(*old(frame)),
        exists|plan: ScreenPlan|
            {
                &&& #[trigger] plan.divides(frame_area(*old(frame)), old(d)@.help)
                &&& plan.suits(frame_area(*old(frame)), old(d)@.help)
                &&& final(d)@ == old(d)@.rendered(plan)
                &&& frame_cells(*final(frame)) == old(d)@.painted(
                    frame_cells(*old(frame)),
                    frame_area(*old(frame)),
                    plan,
                )
            },
{
}

} // verus!
