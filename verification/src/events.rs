//! What leaves the library: the outbound events the consumer subscribes to,
//! and the per-tab commands forwarded to the external agent.

use vstd::prelude::*;
use crate::session::SessionDetails;
use crate::session::SessionStatePayload;
use crate::session::VolumeChangedPayload;
use crate::session::valid_volume;

verus! {

/// One event published to the consumer of the monitor and the gateway.
/// Delivery is fire and forget; no variant carries an acknowledgement.
pub enum OutboundEvent {
    SessionCreated(SessionDetails),
    SessionClosed { session_uid: String },
    VolumeChanged(VolumeChangedPayload),
    StateChanged(SessionStatePayload),
    ServerError { message: String },
    InboundMessage { text: String },
}

impl OutboundEvent {
    /// The channel name each variant is published under.
    pub open spec fn name_spec(self) -> Seq<char> {
        match self {
            OutboundEvent::SessionCreated(_) => "audio-session-created"@,
            OutboundEvent::SessionClosed { .. } => "audio-session-closed"@,
            OutboundEvent::VolumeChanged(_) => "audio-session-volume-changed"@,
            OutboundEvent::StateChanged(_) => "session-state-changed"@,
            OutboundEvent::ServerError { .. } => "server-error"@,
            OutboundEvent::InboundMessage { .. } => "server-message"@,
        }
    }

    /// The channel name this event is published under.
    pub fn name(&self) -> (r: String)
        ensures
            r@ == self.name_spec(),
    {
        match self {
            OutboundEvent::SessionCreated(_) => "audio-session-created".to_owned(),
            OutboundEvent::SessionClosed { .. } => "audio-session-closed".to_owned(),
            OutboundEvent::VolumeChanged(_) => "audio-session-volume-changed".to_owned(),
            OutboundEvent::StateChanged(_) => "session-state-changed".to_owned(),
            OutboundEvent::ServerError { .. } => "server-error".to_owned(),
            OutboundEvent::InboundMessage { .. } => "server-message".to_owned(),
        }
    }
}

/// A per-tab command forwarded, never applied locally, to the external agent
/// connected through the gateway.
pub enum ExtensionCommand {
    SetVolume { tab_id: u32, volume: u32 },
    SetMute { tab_id: u32, mute: bool, initial_volume: u32 },
}

impl ExtensionCommand {
    /// A command is well formed when every volume it carries lies in the unit
    /// interval.
    pub open spec fn wf(self) -> bool {
        match self {
            ExtensionCommand::SetVolume { volume, .. } => valid_volume(volume),
            ExtensionCommand::SetMute { initial_volume, .. } => valid_volume(initial_volume),
        }
    }
}

/// The per-tab volume command a caller asks to forward: applied by the
/// external agent, never locally.
pub fn set_tab_volume(tab_id: u32, volume: u32) -> (c: ExtensionCommand)
    requires
        valid_volume(volume),
    ensures
        c == (ExtensionCommand::SetVolume { tab_id, volume }),
        c.wf(),
{
    ExtensionCommand::SetVolume { tab_id, volume }
}

/// The per-tab mute command a caller asks to forward, carrying the volume to
/// restore on unmute.
pub fn set_tab_mute(tab_id: u32, mute: bool, initial_volume: u32) -> (c: ExtensionCommand)
    requires
        valid_volume(initial_volume),
    ensures
        c == (ExtensionCommand::SetMute { tab_id, mute, initial_volume }),
        c.wf(),
{
    ExtensionCommand::SetMute { tab_id, mute, initial_volume }
}

} // verus!
