//! The connection gateway's protocol: what one connection task does on each
//! cooperative poll, and the bookkeeping that keeps connections independent.

use vstd::prelude::*;
use crate::events::OutboundEvent;

verus! {

/// One observation a connection task makes when it polls its socket.
pub enum FrameEvent {
    /// A text or binary data frame, carried as text.
    Data(String),
    /// A close frame from the peer.
    Close,
    /// A read error or the end of the stream.
    Failed,
}

/// What a connection task does next after one poll.
pub enum ConnAction {
    /// Send a close frame, then stop the task.
    CloseAndStop,
    /// Relay the inbound text outward and echo the fixed acknowledgement.
    RelayAndEcho { relay: OutboundEvent, reply: String },
    /// Stop the task without replying.
    Stop,
    /// Nothing pending; poll again after the fixed interval.
    Idle,
}

/// Whether an action ends the connection's task.
pub open spec fn action_stops(r: ConnAction) -> bool {
    r is CloseAndStop || r is Stop
}

/// The fixed acknowledgement text echoed for every inbound data frame.
pub open spec fn ack_text() -> Seq<char> {
    "ack"@
}

/// The acknowledgement frame's text.
pub fn ack_message() -> (r: String)
    ensures
        r@ == ack_text(),
{
    "ack".to_owned()
}

/// What `connection_step` decides for one poll outcome. The shutdown check
/// comes first, whatever else is pending: an asserted shutdown flag closes
/// the connection within this one poll. A data frame is relayed outward and
/// echoed with exactly one acknowledgement frame, and — the task handling one
/// event per poll — that echo goes out before any later frame is looked at. A
/// peer close frame is answered with a close frame; a failed or ended stream
/// stops the task silently. Each connection polls for itself: no outcome here
/// touches any other connection.
pub open spec fn step_decides(shutdown: bool, event: Option<FrameEvent>, r: ConnAction) -> bool {
    if shutdown {
        r is CloseAndStop
    } else {
        match event {
            Some(FrameEvent::Data(text)) => {
                &&& r matches ConnAction::RelayAndEcho { relay, reply } && (relay matches
                OutboundEvent::InboundMessage { text: t } && t == text) && reply@ == ack_text()
            },
            Some(FrameEvent::Close) => r is CloseAndStop,
            Some(FrameEvent::Failed) => r is Stop,
            None => r is Idle,
        }
    }
}

/// One cooperative poll of one connection task, deciding among the shared
/// shutdown flag, an inbound frame, and a dead stream.
pub fn connection_step(shutdown: bool, event: Option<FrameEvent>) -> (r: ConnAction)
    ensures
        step_decides(shutdown, event, r),
{
    if shutdown {
        return ConnAction::CloseAndStop;
    }
    match event {
        Some(FrameEvent::Data(text)) => ConnAction::RelayAndEcho {
            relay: OutboundEvent::InboundMessage { text },
            reply: ack_message(),
        },
        Some(FrameEvent::Close) => ConnAction::CloseAndStop,
        Some(FrameEvent::Failed) => ConnAction::Stop,
        None => ConnAction::Idle,
    }
}

/// On shutdown, each connection's next poll sends a close frame and stops its
/// task, whatever else that connection has pending — so every open connection
/// is closed within one poll interval of the flag's assertion.
pub proof fn lemma_shutdown_closes_connection(event: Option<FrameEvent>, r: ConnAction)
    requires
        step_decides(true, event, r),
    ensures
        r is CloseAndStop,
{
}

/// Whether one poll outcome ends the connection's task: an asserted shutdown
/// flag, a peer close frame, or a dead stream.
pub open spec fn poll_stops(poll: (bool, Option<FrameEvent>)) -> bool {
    ||| poll.0
    ||| poll.1 matches Some(FrameEvent::Close)
    ||| poll.1 matches Some(FrameEvent::Failed)
}

/// Whether one poll outcome is answered with an echo frame: a data frame
/// arriving while the shutdown flag is clear.
pub open spec fn poll_echoes(poll: (bool, Option<FrameEvent>)) -> bool {
    !poll.0 && poll.1 matches Some(FrameEvent::Data(_))
}

/// How many polls a connection task consumes out of a sequence of poll
/// outcomes: everything up to and including the first that stops it.
pub open spec fn consumed_polls(polls: Seq<(bool, Option<FrameEvent>)>) -> int
    decreases polls.len(),
{
    if polls.len() == 0 {
        0
    } else if poll_stops(polls[0]) {
        1
    } else {
        1 + consumed_polls(polls.drop_first())
    }
}

/// How many echo frames the task sends over those polls: one for each data
/// frame among the polls it consumes before the one that stops it.
pub open spec fn echo_frames(polls: Seq<(bool, Option<FrameEvent>)>) -> int
    decreases polls.len(),
{
    if polls.len() == 0 {
        0
    } else if poll_stops(polls[0]) {
        0
    } else {
        (if poll_echoes(polls[0]) {
            1int
        } else {
            0int
        }) + echo_frames(polls.drop_first())
    }
}

/// A copy of one poll's frame event.
fn clone_event(event: &Option<FrameEvent>) -> (r: Option<FrameEvent>)
    ensures
        r == *event,
{
    match event {
        Some(FrameEvent::Data(text)) => Some(FrameEvent::Data(text.clone())),
        Some(FrameEvent::Close) => Some(FrameEvent::Close),
        Some(FrameEvent::Failed) => Some(FrameEvent::Failed),
        None => None,
    }
}

/// One connection served to completion over a recorded sequence of poll
/// outcomes, every step decided by `connection_step`. The task takes the
/// polls strictly in order and each data frame is echoed before the next
/// poll is taken — so a data frame gets exactly one echo frame before any
/// subsequent frame is processed. The first stopping poll is the last one
/// consumed: nothing after it is looked at, and it sends no echo. Returns
/// how many polls were consumed and how many echo frames went out.
pub fn serve_connection(polls: &Vec<(bool, Option<FrameEvent>)>) -> (r: (usize, usize))
    ensures
        r.0 == consumed_polls(polls@),
        r.1 == echo_frames(polls@),
{
    let mut i: usize = 0;
    let mut echoes: usize = 0;
    proof {
        assert(polls@.skip(0) =~= polls@);
    }
    while i < polls.len()
        invariant
            i <= polls@.len(),
            echoes <= i,
            consumed_polls(polls@) == i + consumed_polls(polls@.skip(i as int)),
            echo_frames(polls@) == echoes + echo_frames(polls@.skip(i as int)),
            forall|j: int| 0 <= j < i ==> !poll_stops(polls@[j]),
        decreases polls@.len() - i,
    {
        proof {
            assert(polls@.skip(i as int)[0] == polls@[i as int]);
            assert(polls@.skip(i as int).drop_first() =~= polls@.skip(i + 1));
        }
        let (shutdown, event) = &polls[i];
        let action = connection_step(*shutdown, clone_event(event));
        i += 1;
        match action {
            ConnAction::RelayAndEcho { relay: _, reply: _ } => {
                echoes += 1;
            },
            ConnAction::CloseAndStop => {
                return (i, echoes);
            },
            ConnAction::Stop => {
                return (i, echoes);
            },
            ConnAction::Idle => {},
        }
    }
    proof {
        assert(polls@.skip(polls@.len() as int) =~= Seq::<(bool, Option<FrameEvent>)>::empty());
    }
    (i, echoes)
}

/// A fatal accept failure — the endpoint cannot listen at all — surfaced as a
/// structured error event toward the consumer, never a crash.
pub fn accept_failure_event(message: String) -> (r: OutboundEvent)
    ensures
        r == (OutboundEvent::ServerError { message }),
{
    OutboundEvent::ServerError { message }
}

/// The gateway's bookkeeping of its accepted connections: one slot per
/// connection, true while that connection's task still runs. The tasks are
/// independent: each poll touches exactly one slot.
pub struct ConnectionGateway {
    pub live: Vec<bool>,
}

impl ConnectionGateway {
    /// A gateway with no connections yet.
    pub fn new() -> (g: ConnectionGateway)
        ensures
            g.live@ =~= Seq::<bool>::empty(),
    {
        ConnectionGateway { live: Vec::new() }
    }

    /// How many connections ever accepted.
    pub fn connection_count(&self) -> (n: usize)
        ensures
            n == self.live@.len(),
    {
        self.live.len()
    }

    /// Accepts one connection: a fresh live slot, independent of the others,
    /// accepted concurrently with whatever the existing tasks are doing.
    pub fn accept_connection(&mut self) -> (id: usize)
        ensures
            id == old(self).live@.len(),
            final(self).live@ == old(self).live@.push(true),
    {
        let id = self.live.len();
        self.live.push(true);
        id
    }

    /// One poll of one live connection: the task takes the action
    /// `connection_step` decides, and its slot goes dead exactly when that
    /// action stops the task. Every other slot is untouched: one connection's
    /// traffic, closure or failure never affects another, and a close frame
    /// received on one connection terminates only that connection.
    pub fn poll_connection(&mut self, id: usize, shutdown: bool, event: Option<FrameEvent>) -> (r:
        ConnAction)
        requires
            id < old(self).live@.len(),
            old(self).live@[id as int],
        ensures
            step_decides(shutdown, event, r),
            final(self).live@ == old(self).live@.update(id as int, !action_stops(r)),
            forall|j: int|
                0 <= j < old(self).live@.len() && j != id ==> final(self).live@[j] == old(
                    self,
                ).live@[j],
    {
        let r = connection_step(shutdown, event);
        let stays = match r {
            ConnAction::CloseAndStop => false,
            ConnAction::Stop => false,
            _ => true,
        };
        let ghost pre = self.live@;
        if !stays {
            let _ = self.live.remove(id);
            self.live.insert(id, false);
            proof {
                assert(self.live@ =~= pre.update(id as int, false));
            }
        } else {
            proof {
                assert(self.live@ =~= pre.update(id as int, true));
            }
        }
        r
    }
}

} // verus!
