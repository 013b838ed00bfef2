//! The session dashboard and the process runner of an agent control centre.
//!
//! [`session`] holds what a session is and how the output of its process is captured and
//! stored. [`tui`] holds the dashboard: what is selected, what is shown, and how it is
//! drawn. Both describe the work that touches the outside world (the session store, the
//! child process) as requests, which a driver performs and answers.

pub mod session;
pub mod tui;
