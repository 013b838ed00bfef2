//! The live output that the dashboard listens to.
//!
//! The dashboard reads the output it shows from the store, so it only empties the channel
//! of live events, to keep it from filling up.

use tokio::sync::broadcast::error::TryRecvError;
use tokio::sync::broadcast::Receiver;
use vstd::prelude::*;

use crate::session::OutputEvent;

verus! {

/// `tokio::sync::broadcast::Receiver`: the receiving end of a channel.
#[verifier::external_type_specification]
#[verifier::external_body]
#[verifier::reject_recursive_types(T)]
pub struct ExReceiver<T>(tokio::sync::broadcast::Receiver<T>);

/// Where a receiver of `tokio::sync::broadcast` stands in its channel: the place of the value
/// that it reads next, counted modulo 2^64. The receiver itself holds it, and only receiving
/// changes it.
pub uninterp spec fn receiver_position(events: Receiver<OutputEvent>) -> u64;

/// Whether `try_recv` may bring `received` on the receiver `before`, and leave it as `after`.
///
/// What comes depends on what other tasks have sent. So this holds of every outcome that may
/// come, and does not single one out.
pub uninterp spec fn may_receive(
    before: Receiver<OutputEvent>,
    received: Received,
    after: Receiver<OutputEvent>,
) -> bool;

/// What an attempt to receive an event brought.
#[derive(Debug)]
pub enum Received {
    /// An event.
    Event(OutputEvent),
    /// No event is waiting.
    Empty,
    /// So many events were overwritten before they could be received.
    Lagged(u64),
    /// No event is waiting, and none can be sent any more.
    Closed,
}

impl Received {
    /// Whether there may be more: neither an empty nor a closed channel was found.
    pub open spec fn goes_on(self) -> bool {
        self is Event || self is Lagged
    }

    /// Whether receiving this takes a receiver from the place `before` to the place `after`.
    pub open spec fn moves(self, before: u64, after: u64) -> bool {
        match self {
            Received::Event(_) => after == before.wrapping_add(1),
            Received::Lagged(missed) => missed > 0 && after == before.wrapping_add(missed),
            Received::Empty | Received::Closed => after == before,
        }
    }
}

/// Whether `brought` may be what one attempt after the other brings, the first on the first
/// receiver of `stops`, and each leaving the next.
pub open spec fn received_in_turn(
    stops: Seq<Receiver<OutputEvent>>,
    brought: Seq<Received>,
) -> bool {
    &&& stops.len() == brought.len() + 1
    &&& forall|i: int|
        0 <= i < brought.len() ==> may_receive(stops[i], #[trigger] brought[i], stops[i + 1])
            && brought[i].moves(receiver_position(stops[i]), receiver_position(stops[i + 1]))
}

/// After how many attempts draining gives up on a channel that never runs empty.
pub const DRAIN_LIMIT: u64 = 0xffff_ffff_ffff_ffff;

/// Whether draining the receiver `from` may leave it as `to`: there was one attempt after the
/// other, and each but the last gave reason to go on. If the channel was `emptied`, the last
/// one found it empty or closed; else the attempts were used up.
pub open spec fn drained(
    from: Receiver<OutputEvent>,
    to: Receiver<OutputEvent>,
    emptied: bool,
) -> bool {
    exists|stops: Seq<Receiver<OutputEvent>>, brought: Seq<Received>|
        {
            &&& #[trigger] received_in_turn(stops, brought)
            &&& brought.len() > 0
            &&& stops.first() == from
            &&& stops.last() == to
            &&& forall|i: int| 0 <= i < brought.len() - 1 ==> (#[trigger] brought[i]).goes_on()
            &&& brought.last().goes_on() == !emptied
            &&& !emptied ==> brought.len() == DRAIN_LIMIT
        }
}

/// Whether to go on receiving: only an empty or closed channel ends it.
pub fn keep_draining(received: &Received) -> (more: bool)
    ensures
        more == received.goes_on(),
{
    match received {
        Received::Event(_) => true,
        Received::Lagged(_) => true,
        Received::Empty => false,
        Received::Closed => false,
    }
}

/// `tokio::sync::broadcast::Receiver::try_recv`. An event takes the receiver one place on. A
/// lag takes it past the events it missed, of which there is at least one. An empty or closed
/// channel leaves it where it is: a closed one is reported only when no event is waiting, since
/// an event is kept until each receiver subscribed when it was sent has read or missed it.
/// Which of the four comes, and with which event, depends on what other tasks have sent:
/// `may_receive` ties it to the receiver, and does not say which.
#[verifier::external_body]
pub(crate) fn try_recv(events: &mut Receiver<OutputEvent>) -> (received: Received)
    ensures
        may_receive(*old(events), received, *final(events)),
        received.moves(receiver_position(*old(events)), receiver_position(*final(events))),
{
    match events.try_recv() {
        Ok(event) => Received::Event(event),
        Err(TryRecvError::Empty) => Received::Empty,
        Err(TryRecvError::Lagged(missed)) => Received::Lagged(missed),
        Err(TryRecvError::Closed) => Received::Closed,
    }
}

} // verus!
