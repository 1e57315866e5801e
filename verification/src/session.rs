//! The session data model: one snapshot per enumerated audio session, the
//! payloads of change notifications, and the failures a query can report.

use vstd::prelude::*;

verus! {

/// Volumes are carried as thousandths of full scale, so that `0..=VOLUME_SCALE`
/// stands for the closed unit interval the audio subsystem works in.
pub const VOLUME_SCALE: u32 = 1000;

/// A volume level is valid when it does not exceed full scale.
pub open spec fn valid_volume(v: u32) -> bool {
    v <= VOLUME_SCALE
}

/// Point-in-time description of one audio session, freshly built on every
/// enumeration and never patched in place.
pub struct SessionDetails {
    pub process_id: u32,
    pub session_uid: String,
    pub process_name: String,
    pub session_volume: u32,
    pub is_muted: bool,
    pub is_active: bool,
}

impl SessionDetails {
    /// A snapshot is well formed when its volume lies in the unit interval.
    pub open spec fn wf(self) -> bool {
        valid_volume(self.session_volume)
    }
}

/// Payload of a volume or mute change notification for one session.
pub struct VolumeChangedPayload {
    pub session_uid: String,
    pub volume: u32,
    pub is_muted: bool,
}

/// Payload of an active/inactive state change notification for one session.
pub struct SessionStatePayload {
    pub session_uid: String,
    pub is_active: bool,
}

/// Failure of a session query or mutation. Subsystem and enumeration failures
/// are fatal to the one operation that hit them; a session without an instance
/// identifier is skipped.
#[derive(Debug)]
pub enum QueryError {
    Subsystem(String),
    Enumeration(String),
    MissingIdentifier,
}

impl QueryError {
    /// What `message` returns for each variant.
    pub open spec fn message_spec(self) -> Seq<char> {
        match self {
            QueryError::Subsystem(s) => "audio subsystem unavailable: "@ + s@,
            QueryError::Enumeration(s) => "session enumeration failed: "@ + s@,
            QueryError::MissingIdentifier => "session has no instance identifier"@,
        }
    }

    /// A descriptive line for the caller, naming the variant and any detail.
    pub fn message(&self) -> (r: String)
        ensures
            r@ == self.message_spec(),
    {
        match self {
            QueryError::Subsystem(s) => {
                let mut m = "audio subsystem unavailable: ".to_owned();
                m.append(s.as_str());
                m
            },
            QueryError::Enumeration(s) => {
                let mut m = "session enumeration failed: ".to_owned();
                m.append(s.as_str());
                m
            },
            QueryError::MissingIdentifier => "session has no instance identifier".to_owned(),
        }
    }
}

/// A raw optional string counts as present only when it is there and nonempty.
pub open spec fn text_present(s: Option<Seq<char>>) -> bool {
    match s {
        Some(t) => t.len() > 0,
        None => false,
    }
}

/// The display name a snapshot gets: the session's own name when it has a
/// nonempty one, else the name resolved from its process, else "unknown".
pub open spec fn chosen_name(display: Option<Seq<char>>, fallback: Option<Seq<char>>) -> Seq<char> {
    if text_present(display) {
        display->0
    } else {
        match fallback {
            Some(f) => f,
            None => "unknown"@,
        }
    }
}

/// Executable form of `chosen_name`: the session's own nonempty display name,
/// else the name resolved from its process, else "unknown". A session is
/// never left nameless.
pub fn pick_display_name(display_name: Option<String>, fallback_name: Option<String>) -> (r: String)
    ensures
        r@ == chosen_name(display_name.deep_view(), fallback_name.deep_view()),
{
    match display_name {
        Some(d) => {
            if d.as_str().is_empty() {
                match fallback_name {
                    Some(f) => f,
                    None => "unknown".to_owned(),
                }
            } else {
                d
            }
        },
        None => {
            match fallback_name {
                Some(f) => f,
                None => "unknown".to_owned(),
            }
        },
    }
}

/// Builds the snapshot of one session from the plain values the subsystem
/// reported: its process id, raw instance identifier and display name (either
/// may be missing or empty), the name resolved from the process id, and its
/// volume, mute and active state. A session without a nonempty instance
/// identifier cannot be tracked and is rejected.
pub fn session_details_from_parts(
    process_id: u32,
    session_uid: Option<String>,
    display_name: Option<String>,
    fallback_name: Option<String>,
    session_volume: u32,
    is_muted: bool,
    is_active: bool,
) -> (r: Result<SessionDetails, QueryError>)
    requires
        valid_volume(session_volume),
    ensures
        r is Ok <==> text_present(session_uid.deep_view()),
        r matches Ok(d) ==> {
            &&& d.process_id == process_id
            &&& d.session_uid@ == session_uid->0@
            &&& d.process_name@ == chosen_name(display_name.deep_view(), fallback_name.deep_view())
            &&& d.session_volume == session_volume
            &&& d.is_muted == is_muted
            &&& d.is_active == is_active
            &&& d.wf()
        },
        r is Err ==> r->Err_0 is MissingIdentifier,
{
    let uid = match session_uid {
        Some(u) => {
            if u.as_str().is_empty() {
                return Err(QueryError::MissingIdentifier);
            }
            u
        },
        None => {
            return Err(QueryError::MissingIdentifier);
        },
    };
    let name = pick_display_name(display_name, fallback_name);
    Ok(SessionDetails {
        process_id,
        session_uid: uid,
        process_name: name,
        session_volume,
        is_muted,
        is_active,
    })
}

} // verus!
