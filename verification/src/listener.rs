//! The decisions of the per-session listeners and the process-wide notifier:
//! each subsystem callback maps to the events it publishes and the bridge
//! message it queues, and never to a map mutation.

use vstd::prelude::*;
use crate::bridge::BridgeMessage;
use crate::events::OutboundEvent;
use crate::session::SessionStatePayload;
use crate::session::VolumeChangedPayload;
use crate::session::valid_volume;

verus! {

/// The session states a listener callback distinguishes. Anything else the
/// subsystem might report is ignored at the boundary.
pub enum SessionState {
    Active,
    Inactive,
    Expired,
}

/// What one state-change callback decides for the session the listener is
/// bound to. An active or inactive session is announced as a state change and
/// the map is left alone. An expired session is announced as closed at once —
/// the consumer hears of it before any bookkeeping — and a closed message is
/// queued for the monitor loop, because callbacks run concurrently with the
/// loop and must never touch the tracked-session map themselves.
pub fn on_state_changed(session_uid: &String, state: SessionState) -> (r: (
    Option<OutboundEvent>,
    Option<BridgeMessage>,
))
    ensures
        state is Expired ==> {
            &&& r.0 matches Some(OutboundEvent::SessionClosed { session_uid: u }) && u@
                == session_uid@
            &&& r.1 matches Some(BridgeMessage::SessionClosed { session_uid: u }) && u@
                == session_uid@
        },
        state is Active ==> {
            &&& r.0 matches Some(OutboundEvent::StateChanged(p)) && p.session_uid@ == session_uid@
                && p.is_active
            &&& r.1 is None
        },
        state is Inactive ==> {
            &&& r.0 matches Some(OutboundEvent::StateChanged(p)) && p.session_uid@ == session_uid@
                && !p.is_active
            &&& r.1 is None
        },
{
    match state {
        SessionState::Expired => (
            Some(OutboundEvent::SessionClosed { session_uid: session_uid.clone() }),
            Some(BridgeMessage::SessionClosed { session_uid: session_uid.clone() }),
        ),
        SessionState::Active => (
            Some(
                OutboundEvent::StateChanged(
                    SessionStatePayload { session_uid: session_uid.clone(), is_active: true },
                ),
            ),
            None,
        ),
        SessionState::Inactive => (
            Some(
                OutboundEvent::StateChanged(
                    SessionStatePayload { session_uid: session_uid.clone(), is_active: false },
                ),
            ),
            None,
        ),
    }
}

/// What a volume-change callback decides: the new volume and mute state are
/// announced for the session the listener is bound to, and nothing else
/// happens — no map mutation, no bridge message.
pub fn on_volume_changed(session_uid: &String, volume: u32, is_muted: bool) -> (r: OutboundEvent)
    requires
        valid_volume(volume),
    ensures
        r matches OutboundEvent::VolumeChanged(p) && p.session_uid@ == session_uid@ && p.volume
            == volume && p.is_muted == is_muted,
{
    OutboundEvent::VolumeChanged(
        VolumeChangedPayload { session_uid: session_uid.clone(), volume, is_muted },
    )
}

/// What a disconnect callback decides: the same pair as an expired state —
/// the session is announced as closed at once, and the map mutation is left
/// to the monitor loop through the bridge.
pub fn on_disconnected(session_uid: &String) -> (r: (OutboundEvent, BridgeMessage))
    ensures
        r.0 matches OutboundEvent::SessionClosed { session_uid: u } && u@ == session_uid@,
        r.1 matches BridgeMessage::SessionClosed { session_uid: u } && u@ == session_uid@,
{
    (
        OutboundEvent::SessionClosed { session_uid: session_uid.clone() },
        BridgeMessage::SessionClosed { session_uid: session_uid.clone() },
    )
}

/// What the process-wide notifier decides when the subsystem reports a newly
/// created session: the session's handle is ferried to the monitor loop,
/// which alone queries, registers and announces it.
pub fn on_new_session(handle: u64) -> (r: BridgeMessage)
    ensures
        r == (BridgeMessage::SessionCreated { handle }),
{
    BridgeMessage::SessionCreated { handle }
}

} // verus!
