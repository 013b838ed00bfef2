//! The dashboard: the sessions, the output of the selected one, and what the keys do.
//!
//! The dashboard does not touch the store. Where it needs something from it, a method
//! returns a [`Request`], and another method takes what came of it.

use tokio::sync::broadcast::Receiver;
use vstd::hash_map::StringHashMap;
use vstd::prelude::*;

use crate::session::{line_views, session_views, OutputEvent, OutputLine, Session};
use crate::tui::feed::{
    drained, keep_draining, may_receive, received_in_turn, receiver_position, try_recv, Received,
    DRAIN_LIMIT,
};
use crate::tui::model::{listed, max, min, Model, Pane, Request, RequestView};

verus! {

/// The sessions that are listed, and which of them is selected.
struct SessionList {
    sessions: Vec<Session>,
    selected: usize,
}

impl SessionList {
    /// The selection lies on a session, where there is one.
    #[verifier::type_invariant]
    spec fn selection_is_valid(self) -> bool {
        if self.sessions@.len() == 0 {
            self.selected == 0
        } else {
            self.selected < self.sessions@.len()
        }
    }

    fn new(sessions: Vec<Session>, selected: usize) -> (list: SessionList)
        ensures
            list.sessions == sessions,
            list.selected == max(min(selected as int, sessions@.len() - 1), 0),
    {
        let selected: usize = if sessions.len() == 0 {
            0
        } else if selected < sessions.len() - 1 {
            selected
        } else {
            sessions.len() - 1
        };
        SessionList { sessions, selected }
    }
}

/// The dashboard.
pub struct Dashboard {
    list: SessionList,
    output_rx: Receiver<OutputEvent>,
    session_output_cache: StringHashMap<Vec<OutputLine>>,
    selected_pane: Pane,
    show_help: bool,
    output_follow: bool,
    output_scroll_offset: usize,
    last_output_height: usize,
    output_limit: usize,
}

/// What is to be done with the output that was read from the store.
#[derive(Debug)]
pub enum LoadedOutput<E> {
    /// Hand the lines to the live output, in place of those that it holds for the session.
    Replace { session_id: String, lines: Vec<OutputLine> },
    /// Report that the output could not be loaded.
    Failed(E),
}

impl View for Dashboard {
    type V = Model;

    closed spec fn view(&self) -> Model {
        Model {
            sessions: session_views(self.list.sessions@),
            outputs: self.session_output_cache@.map_values(
                |lines: Vec<OutputLine>| line_views(lines@),
            ),
            pane: self.selected_pane,
            selected: self.list.selected as int,
            help: self.show_help,
            follow: self.output_follow,
            scroll: self.output_scroll_offset as int,
            height: self.last_output_height as int,
            limit: self.output_limit as int,
            feed: self.output_rx,
        }
    }
}

impl Dashboard {
    /// A dashboard on the sessions of `listing`, and a request for the output of the first.
    pub fn new<E>(
        listing: Result<Vec<Session>, E>,
        output_limit: usize,
        output_rx: Receiver<OutputEvent>,
    ) -> (opened: (Dashboard, Request))
        ensures
            opened.0@ == Model::opened(listed(listing), output_limit as int, output_rx),
            opened.0@.selection_is_valid(),
            opened.1@ == opened.0@.output_request(),
    {
        Self::with_output_store(listing, output_limit, output_rx)
    }

    /// A dashboard on the sessions of `listing` that listens to the live output of
    /// `output_rx`, and a request for the output of the first session.
    pub fn with_output_store<E>(
        listing: Result<Vec<Session>, E>,
        output_limit: usize,
        output_rx: Receiver<OutputEvent>,
    ) -> (opened: (Dashboard, Request))
        ensures
            opened.0@ == Model::opened(listed(listing), output_limit as int, output_rx),
            opened.0@.selection_is_valid(),
            opened.1@ == opened.0@.output_request(),
    {
        let ghost sessions = listed(listing);
        let dashboard = Dashboard {
            list: SessionList::new(sessions_or_none(listing), 0),
            output_rx,
            session_output_cache: StringHashMap::new(),
            selected_pane: Pane::Sessions,
            show_help: false,
            output_follow: true,
            output_scroll_offset: 0,
            last_output_height: 0,
            output_limit,
        };
        proof {
            use_type_invariant(&dashboard.list);
            assert(dashboard@.outputs =~= Map::empty());
            assert(dashboard@ =~= Model::opened(sessions, output_limit as int, output_rx));
        }
        let request = dashboard.sync_selected_output();
        (dashboard, request)
    }

    /// Selects the pane to the right.
    pub fn next_pane(&mut self)
        ensures
            final(self)@ == old(self)@.moved_right(),
    {
        self.selected_pane = match self.selected_pane {
            Pane::Sessions => Pane::Output,
            Pane::Output => Pane::Metrics,
            Pane::Metrics => Pane::Sessions,
        };
    }

    /// Selects the pane to the left.
    pub fn prev_pane(&mut self)
        ensures
            final(self)@ == old(self)@.moved_left(),
    {
        self.selected_pane = match self.selected_pane {
            Pane::Sessions => Pane::Metrics,
            Pane::Output => Pane::Sessions,
            Pane::Metrics => Pane::Output,
        };
    }

    /// One step down in the selected pane.
    pub fn scroll_down(&mut self) -> (request: Request)
        ensures
            final(self)@ == old(self)@.scrolled_down(),
            final(self)@.selection_is_valid(),
            request@ == if old(self)@.pane == Pane::Sessions {
                final(self)@.output_request()
            } else {
                RequestView::Nothing
            },
    {
        proof {
            use_type_invariant(&self.list);
        }
        if self.selected_pane == Pane::Sessions && self.list.sessions.len() > 0 {
            if self.list.selected < self.list.sessions.len() - 1 {
                self.list.selected = self.list.selected + 1;
            }
            self.reset_output_view();
            self.sync_selected_output()
        } else if self.selected_pane == Pane::Output {
            let max_scroll = self.max_output_scroll();
            if self.output_follow {
                return Request::Nothing;
            }
            if self.output_scroll_offset >= max_scroll.saturating_sub(1) {
                self.output_follow = true;
                self.output_scroll_offset = max_scroll;
            } else {
                self.output_scroll_offset = self.output_scroll_offset.saturating_add(1);
            }
            Request::Nothing
        } else {
            Request::Nothing
        }
    }

    /// One step up in the selected pane.
    pub fn scroll_up(&mut self) -> (request: Request)
        ensures
            final(self)@ == old(self)@.scrolled_up(),
            final(self)@.selection_is_valid(),
            request@ == if old(self)@.pane == Pane::Sessions {
                final(self)@.output_request()
            } else {
                RequestView::Nothing
            },
    {
        proof {
            use_type_invariant(&self.list);
        }
        if self.selected_pane == Pane::Sessions {
            self.list.selected = self.list.selected.saturating_sub(1);
            self.reset_output_view();
            self.sync_selected_output()
        } else if self.selected_pane == Pane::Output {
            if self.output_follow {
                self.output_follow = false;
                self.output_scroll_offset = self.max_output_scroll();
            }
            self.output_scroll_offset = self.output_scroll_offset.saturating_sub(1);
            Request::Nothing
        } else {
            self.output_scroll_offset = self.output_scroll_offset.saturating_sub(1);
            Request::Nothing
        }
    }

    /// Asks for a new session.
    pub fn new_session(&self) -> (request: Request)
        ensures
            request@ == RequestView::NewSession,
    {
        Request::NewSession
    }

    /// Asks to stop the selected session, if there is one.
    pub fn stop_selected(&self) -> (request: Request)
        ensures
            request@ == self@.stop_request(),
    {
        match self.selected_session_id() {
            Some(session_id) => Request::StopSession { session_id: session_id.to_owned() },
            None => Request::Nothing,
        }
    }

    /// Goes on when a session was to be stopped: whether that could be recorded or not, the
    /// sessions are listed anew.
    pub fn session_stopped<E>(&self, _stopped: Result<(), E>) -> (request: Request)
        ensures
            request@ == RequestView::ListSessions,
    {
        Request::ListSessions
    }

    /// Takes a new list of sessions, and asks for the output of the selected one.
    pub fn refresh<E>(&mut self, listing: Result<Vec<Session>, E>) -> (request: Request)
        ensures
            final(self)@ == old(self)@.relisted(listed(listing)),
            final(self)@.selection_is_valid(),
            request@ == final(self)@.output_request(),
    {
        self.list = SessionList::new(sessions_or_none(listing), self.list.selected);
        proof {
            use_type_invariant(&self.list);
        }
        self.sync_selected_output()
    }

    /// Shows the help, or hides it again.
    pub fn toggle_help(&mut self)
        ensures
            final(self)@ == old(self)@.help_toggled(),
    {
        self.show_help = !self.show_help;
    }

    /// Takes one event from the live output, if one is waiting. The answer says whether to
    /// go on: it is `false` once the channel is empty or closed.
    pub fn drain_event(&mut self) -> (more: bool)
        ensures
            final(self)@ == (Model { feed: final(self)@.feed, ..old(self)@ }),
            more == (final(self).feed_position() != old(self).feed_position()),
            exists|received: Received|
                {
                    &&& #[trigger] may_receive(old(self)@.feed, received, final(self)@.feed)
                    &&& received.moves(old(self).feed_position(), final(self).feed_position())
                    &&& more == received.goes_on()
                },
    {
        let received = try_recv(&mut self.output_rx);
        assert(may_receive(old(self)@.feed, received, self@.feed));
        keep_draining(&received)
    }

    /// Where the dashboard stands in the live output: each event taken, and each lag, moves it.
    pub open spec fn feed_position(self) -> u64 {
        receiver_position(self@.feed)
    }

    /// Takes events from the live output until the channel is empty or closed. The answer is
    /// `false` where that does not happen within [`DRAIN_LIMIT`] attempts.
    fn drain(&mut self) -> (emptied: bool)
        ensures
            final(self)@ == (Model { feed: final(self)@.feed, ..old(self)@ }),
            drained(old(self)@.feed, final(self)@.feed, emptied),
    {
        let ghost mut stops: Seq<Receiver<OutputEvent>> = seq![self@.feed];
        let ghost mut brought: Seq<Received> = Seq::empty();
        let mut attempts: u64 = 0;
        while attempts < DRAIN_LIMIT
            invariant
                attempts <= DRAIN_LIMIT,
                brought.len() == attempts,
                self@ == (Model { feed: self@.feed, ..old(self)@ }),
                received_in_turn(stops, brought),
                stops.first() == old(self)@.feed,
                stops.last() == self@.feed,
                forall|i: int| 0 <= i < brought.len() ==> (#[trigger] brought[i]).goes_on(),
            decreases DRAIN_LIMIT - attempts,
        {
            let ghost before = *self;
            let more = self.drain_event();
            proof {
                let received = choose|received: Received|
                    {
                        &&& #[trigger] may_receive(before@.feed, received, self@.feed)
                        &&& received.moves(before.feed_position(), self.feed_position())
                        &&& more == received.goes_on()
                    };
                stops = stops.push(self@.feed);
                brought = brought.push(received);
                assert(received_in_turn(stops, brought));
            }
            attempts = attempts + 1;
            if !more {
                return true;
            }
        }
        false
    }

    /// Drains the live output, and then asks for the sessions of the moment.
    pub fn tick(&mut self) -> (request: Request)
        ensures
            final(self)@ == (Model { feed: final(self)@.feed, ..old(self)@ }),
            exists|emptied: bool| #[trigger] drained(old(self)@.feed, final(self)@.feed, emptied),
            request@ == RequestView::ListSessions,
    {
        let emptied = self.drain();
        assert(drained(old(self)@.feed, self@.feed, emptied));
        Request::ListSessions
    }

    /// Asks for the output of the selected session, if there is one.
    pub fn sync_selected_output(&self) -> (request: Request)
        ensures
            request@ == self@.output_request(),
    {
        match self.selected_session_id() {
            Some(session_id) => Request::LoadOutput {
                session_id: session_id.to_owned(),
                limit: self.output_limit,
            },
            None => Request::Nothing,
        }
    }

    /// Takes the output that was asked for, to show it. Where it could not be read, what was
    /// shown stays.
    pub fn output_loaded<E>(
        &mut self,
        session_id: String,
        fetched: Result<Vec<OutputLine>, E>,
    ) -> (loaded: LoadedOutput<E>)
        ensures
            match fetched {
                Ok(lines) => {
                    &&& final(self)@ == old(self)@.loaded(session_id@, line_views(lines@))
                    &&& loaded matches LoadedOutput::Replace { session_id: id, lines: copy }
                    &&& id@ == session_id@
                    &&& copy@ == lines@
                },
                Err(error) => {
                    &&& final(self)@ == old(self)@
                    &&& loaded == LoadedOutput::<E>::Failed(error)
                },
            },
    {
        match fetched {
            Ok(lines) => {
                let copy = lines.clone();
                assert(copy@ =~= lines@);
                let id = session_id.clone();
                self.session_output_cache.insert(session_id, lines);
                assert(self@.outputs =~= old(self)@.outputs.insert(
                    session_id@,
                    line_views(lines@),
                ));
                LoadedOutput::Replace { session_id: id, lines: copy }
            },
            Err(error) => LoadedOutput::Failed(error),
        }
    }

    /// The sessions, in the order in which they are listed.
    pub fn sessions(&self) -> (sessions: &Vec<Session>)
        ensures
            session_views(sessions@) == self@.sessions,
    {
        &self.list.sessions
    }

    /// Which session is selected.
    pub fn selected_index(&self) -> (index: usize)
        ensures
            index == self@.selected,
            self@.selection_is_valid(),
    {
        proof {
            use_type_invariant(&self.list);
        }
        self.list.selected
    }

    /// The pane that the keys act on.
    pub fn selected_pane(&self) -> (pane: Pane)
        ensures
            pane == self@.pane,
    {
        self.selected_pane
    }

    /// Whether the help is shown in place of the panes.
    pub fn help_is_shown(&self) -> (shown: bool)
        ensures
            shown == self@.help,
    {
        self.show_help
    }

    /// Whether the output pane stays at the end of the output.
    pub fn output_follow(&self) -> (follow: bool)
        ensures
            follow == self@.follow,
    {
        self.output_follow
    }

    /// The first line of output that is shown.
    pub fn output_scroll_offset(&self) -> (offset: usize)
        ensures
            offset == self@.scroll,
    {
        self.output_scroll_offset
    }

    /// The selected session, if there is one.
    pub fn selected_session(&self) -> (session: Option<&Session>)
        ensures
            match session {
                Some(selected) => 0 <= self@.selected < self@.sessions.len() && selected@
                    == self@.sessions[self@.selected],
                None => !(0 <= self@.selected < self@.sessions.len()),
            },
    {
        if self.list.selected < self.list.sessions.len() {
            Some(&self.list.sessions[self.list.selected])
        } else {
            None
        }
    }

    /// The id of the selected session, if there is one.
    pub fn selected_session_id(&self) -> (id: Option<&str>)
        ensures
            match id {
                Some(text) => self@.selected_id() == Some(text@),
                None => self@.selected_id() is None,
            },
    {
        match self.selected_session() {
            Some(session) => Some(session.id.as_str()),
            None => None,
        }
    }

    /// The output of the selected session, as far as it was loaded.
    pub fn selected_output_lines(&self) -> (lines: &[OutputLine])
        ensures
            line_views(lines@) == self@.selected_output(),
    {
        if let Some(session_id) = self.selected_session_id() {
            if let Some(lines) = self.session_output_cache.get(session_id) {
                return lines.as_slice();
            }
        }
        assert(line_views(Seq::<OutputLine>::empty()) =~= Seq::empty());
        &[]
    }

    /// Fits the view of the output to a pane with room for `viewport_height` lines.
    pub fn sync_output_scroll(&mut self, viewport_height: usize)
        ensures
            final(self)@ == old(self)@.fitted(viewport_height as int),
    {
        self.last_output_height = if viewport_height < 1 {
            1
        } else {
            viewport_height
        };
        let max_scroll = self.max_output_scroll();
        if self.output_follow {
            self.output_scroll_offset = max_scroll;
        } else if max_scroll < self.output_scroll_offset {
            self.output_scroll_offset = max_scroll;
        }
    }

    /// The offset that the view of the output gets when it is fitted to a pane with room for
    /// `viewport_height` lines.
    pub(crate) fn fitted_offset(&self, viewport_height: usize) -> (offset: usize)
        ensures
            offset == self@.fitted(viewport_height as int).scroll,
    {
        let height: usize = if viewport_height < 1 {
            1
        } else {
            viewport_height
        };
        let lines = self.selected_output_lines();
        assert(lines@.len() == line_views(lines@).len());
        let max_scroll = lines.len().saturating_sub(height);
        let ghost resized = Model { height: height as int, ..self@ };
        assert(resized.selected_output() == self@.selected_output());
        if self.output_follow || max_scroll < self.output_scroll_offset {
            max_scroll
        } else {
            self.output_scroll_offset
        }
    }

    /// The largest scroll offset that leaves no blank line at the end of the output.
    pub fn max_output_scroll(&self) -> (offset: usize)
        ensures
            offset == self@.max_scroll(),
    {
        let height: usize = if self.last_output_height < 1 {
            1
        } else {
            self.last_output_height
        };
        let lines = self.selected_output_lines();
        assert(lines@.len() == line_views(lines@).len());
        lines.len().saturating_sub(height)
    }

    fn reset_output_view(&mut self)
        ensures
            final(self)@ == old(self)@.view_reset(),
    {
        self.output_follow = true;
        self.output_scroll_offset = 0;
    }
}

/// The sessions of a listing, or none where it failed.
fn sessions_or_none<E>(listing: Result<Vec<Session>, E>) -> (sessions: Vec<Session>)
    ensures
        session_views(sessions@) == listed(listing),
{
    match listing {
        Ok(sessions) => sessions,
        Err(_) => {
            let none: Vec<Session> = Vec::new();
            assert(session_views(none@) =~= Seq::empty());
            none
        },
    }
}

} // verus!
