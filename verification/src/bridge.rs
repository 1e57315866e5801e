//! The ordered channel between subsystem callbacks and the monitor loop.

use vstd::prelude::*;

verus! {

/// One lifecycle notification ferried from a callback context into the
/// monitor loop. A created session is carried by the opaque handle the
/// subsystem gave out for it; a closed one by its instance identifier.
pub enum BridgeMessage {
    SessionCreated { handle: u64 },
    SessionClosed { session_uid: String },
}

/// The ordered channel between the callback contexts and the monitor loop:
/// messages come out in the order they went in, and the loop is the only
/// reader. Callbacks never touch the tracked-session map directly; they only
/// send here.
pub struct NotificationBridge {
    queue: Vec<BridgeMessage>,
}

impl NotificationBridge {
    /// The messages now queued, oldest first.
    pub closed spec fn view(&self) -> Seq<BridgeMessage> {
        self.queue@
    }

    /// An empty bridge.
    pub fn new() -> (b: NotificationBridge)
        ensures
            b@ =~= Seq::<BridgeMessage>::empty(),
    {
        NotificationBridge { queue: Vec::new() }
    }

    /// How many messages are queued.
    pub fn len(&self) -> (n: usize)
        ensures
            n == self@.len(),
    {
        self.queue.len()
    }

    /// Queues one message behind everything already queued.
    pub fn send(&mut self, message: BridgeMessage)
        ensures
            final(self)@ == old(self)@.push(message),
    {
        self.queue.push(message);
    }

    /// Takes the oldest queued message, or nothing when the bridge is empty.
    pub fn try_recv(&mut self) -> (r: Option<BridgeMessage>)
        ensures
            old(self)@.len() == 0 ==> r is None && final(self)@ == old(self)@,
            old(self)@.len() > 0 ==> r == Some(old(self)@[0]) && final(self)@ == old(self)@.subrange(
                1,
                old(self)@.len() as int,
            ),
    {
        if self.queue.len() == 0 {
            None
        } else {
            let m = self.queue.remove(0);
            proof {
                assert(self.queue@ =~= old(self)@.subrange(1, old(self)@.len() as int));
            }
            Some(m)
        }
    }
}

} // verus!
