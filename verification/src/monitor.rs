//! The monitor loop's state: the tracked-session map, its transitions for
//! created and closed notifications, bootstrap, teardown, and the proof that
//! the map's keys always match the listener registrations.

use vstd::prelude::*;
use crate::events::OutboundEvent;
use crate::session::SessionDetails;

verus! {

/// One entry of the tracked-session map: an entry exists exactly while a
/// listener is registered with the subsystem for that session, and the handle
/// names the registration so that it can be undone.
pub struct TrackedSession {
    pub session_uid: String,
    pub handle: u64,
}

/// A sequence of identifiers with no two alike.
pub open spec fn unique_uids(s: Seq<Seq<char>>) -> bool {
    forall|i: int, j: int| 0 <= i < j < s.len() ==> s[i] != s[j]
}

/// The tracked key set after the loop handles a created notification: a
/// session already tracked is ignored, and one whose listener registration failed is
/// dropped; only a new session with a registered listener is added.
pub open spec fn tracked_after_created(
    keys: Set<Seq<char>>,
    session_uid: Seq<char>,
    registered: bool,
) -> Set<Seq<char>> {
    if !keys.contains(session_uid) && registered {
        keys.insert(session_uid)
    } else {
        keys
    }
}

/// The tracked key set after the loop handles a closed notification: the entry
/// leaves the set, and closing an untracked session changes nothing.
pub open spec fn tracked_after_closed(keys: Set<Seq<char>>, session_uid: Seq<char>) -> Set<
    Seq<char>,
> {
    keys.remove(session_uid)
}

/// The state of the monitor loop: the tracked-session map, keyed by instance
/// identifier, plus the registration handle of the process-wide notifier for
/// newly created sessions.
pub struct Monitor {
    pub entries: Vec<TrackedSession>,
    pub notifier_handle: Option<u64>,
}

impl Monitor {
    /// The identifiers of the tracked sessions, in insertion order.
    pub open spec fn uids(self) -> Seq<Seq<char>> {
        self.entries@.map_values(|t: TrackedSession| t.session_uid@)
    }

    /// The registration handles of the tracked sessions, in insertion order.
    pub open spec fn handles(self) -> Seq<u64> {
        self.entries@.map_values(|t: TrackedSession| t.handle)
    }

    /// The key set of the tracked-session map.
    pub open spec fn uid_set(self) -> Set<Seq<char>> {
        self.uids().to_set()
    }

    /// Whether a session with this identifier is tracked.
    pub open spec fn tracks(self, session_uid: Seq<char>) -> bool {
        self.uids().contains(session_uid)
    }

    /// The map is well formed when no two entries share an identifier.
    pub open spec fn wf(self) -> bool {
        unique_uids(self.uids())
    }

    /// A fresh monitor: nothing tracked, no notifier registered.
    pub fn new() -> (m: Monitor)
        ensures
            m.entries@.len() == 0,
            m.notifier_handle is None,
            m.wf(),
    {
        Monitor { entries: Vec::new(), notifier_handle: None }
    }

    /// How many sessions are tracked.
    pub fn tracked_count(&self) -> (n: usize)
        ensures
            n == self.uids().len(),
    {
        self.entries.len()
    }

    /// Records the registration of the process-wide created-session notifier.
    /// Only one may be registered at a time.
    pub fn register_notifier(&mut self, handle: u64)
        requires
            old(self).notifier_handle is None,
        ensures
            final(self).notifier_handle == Some(handle),
            final(self).entries@ == old(self).entries@,
    {
        self.notifier_handle = Some(handle);
    }

    /// The index of the entry for this identifier, if one exists.
    fn find_index(&self, session_uid: &String) -> (r: Option<usize>)
        ensures
            r matches Some(i) ==> 0 <= i < self.entries@.len() && self.entries@[
                i as int
            ].session_uid@ == session_uid@,
            r is Some <==> self.tracks(session_uid@),
    {
        let mut i: usize = 0;
        while i < self.entries.len()
            invariant
                i <= self.entries@.len(),
                forall|j: int| 0 <= j < i ==> self.entries@[j].session_uid@ != session_uid@,
            decreases self.entries@.len() - i,
        {
            if self.entries[i].session_uid == *session_uid {
                assert(self.tracks(session_uid@)) by {
                    assert(self.uids()[i as int] == session_uid@);
                }
                return Some(i);
            }
            i += 1;
        }
        assert(forall|j: int| 0 <= j < self.uids().len() ==> self.uids()[j] != session_uid@);
        None
    }

    /// Whether a session with this identifier is tracked. The loop asks this
    /// before it attempts a listener registration for a created notification.
    pub fn is_tracked(&self, session_uid: &String) -> (r: bool)
        ensures
            r == self.tracks(session_uid@),
    {
        self.find_index(session_uid).is_some()
    }

    /// Inserts a new entry; callers have checked that the identifier is new.
    fn insert_tracked(&mut self, session_uid: String, handle: u64)
        requires
            old(self).wf(),
            !old(self).tracks(session_uid@),
        ensures
            final(self).wf(),
            final(self).uids() == old(self).uids().push(session_uid@),
            final(self).handles() == old(self).handles().push(handle),
            final(self).notifier_handle == old(self).notifier_handle,
            final(self).uid_set() == old(self).uid_set().insert(session_uid@),
    {
        let ghost pre = *old(self);
        self.entries.push(TrackedSession { session_uid, handle });
        proof {
            assert(self.uids() =~= pre.uids().push(session_uid@));
            assert(self.handles() =~= pre.handles().push(handle));
            assert forall|x: Seq<char>| self.uids().contains(x) implies pre.uids().contains(x)
                || x == session_uid@ by {
                let k = choose|k: int| 0 <= k < self.uids().len() && self.uids()[k] == x;
                if k < pre.uids().len() {
                    assert(pre.uids()[k] == x);
                }
            }
            assert forall|x: Seq<char>| pre.uids().contains(x) implies self.uids().contains(x) by {
                let k = choose|k: int| 0 <= k < pre.uids().len() && pre.uids()[k] == x;
                assert(self.uids()[k] == x);
            }
            assert(self.uids()[pre.uids().len() as int] == session_uid@);
            assert(self.uids().contains(session_uid@));
            assert(self.uid_set() =~= pre.uid_set().insert(session_uid@));
        }
    }

    /// Handles one created notification from the bridge, given the session's
    /// freshly queried snapshot, the handle the subsystem gave out for it, and
    /// whether the listener registration the loop attempted succeeded. A
    /// session already tracked is ignored — the subsystem may report one
    /// session more than once — and a failed registration drops the session.
    /// Only a genuinely new, registered session enters the map, and only that
    /// case announces the session outward; bootstrap stays silent instead.
    pub fn process_created(
        &mut self,
        details: SessionDetails,
        handle: u64,
        registered: bool,
    ) -> (r: Option<OutboundEvent>)
        requires
            old(self).wf(),
        ensures
            final(self).wf(),
            final(self).notifier_handle == old(self).notifier_handle,
            r is Some <==> (!old(self).tracks(details.session_uid@) && registered),
            (!old(self).tracks(details.session_uid@) && registered) ==> {
                &&& r == Some(OutboundEvent::SessionCreated(details))
                &&& final(self).uids() == old(self).uids().push(details.session_uid@)
                &&& final(self).handles() == old(self).handles().push(handle)
            },
            (old(self).tracks(details.session_uid@) || !registered) ==> *final(self) == *old(
                self,
            ),
            final(self).uid_set() == tracked_after_created(
                old(self).uid_set(),
                details.session_uid@,
                registered,
            ),
    {
        proof {
            assert(old(self).uid_set().contains(details.session_uid@) == old(self).tracks(
                details.session_uid@,
            ));
        }
        if self.is_tracked(&details.session_uid) || !registered {
            return None;
        }
        let session_uid = details.session_uid.clone();
        self.insert_tracked(session_uid, handle);
        Some(OutboundEvent::SessionCreated(details))
    }

    /// Records one session found at bootstrap, given whether its listener
    /// registration succeeded. The transition is the same as for a created
    /// notification, but bootstrap is silent: the consumer is expected to
    /// enumerate the initial list itself.
    pub fn bootstrap_registered(&mut self, session_uid: String, handle: u64, registered: bool) -> (r:
        bool)
        requires
            old(self).wf(),
        ensures
            final(self).wf(),
            final(self).notifier_handle == old(self).notifier_handle,
            r == (!old(self).tracks(session_uid@) && registered),
            r ==> {
                &&& final(self).uids() == old(self).uids().push(session_uid@)
                &&& final(self).handles() == old(self).handles().push(handle)
            },
            !r ==> *final(self) == *old(self),
            final(self).uid_set() == tracked_after_created(
                old(self).uid_set(),
                session_uid@,
                registered,
            ),
    {
        proof {
            assert(old(self).uid_set().contains(session_uid@) == old(self).tracks(session_uid@));
        }
        if self.is_tracked(&session_uid) || !registered {
            return false;
        }
        self.insert_tracked(session_uid, handle);
        true
    }

    /// Handles one closed notification from the bridge: the entry leaves the
    /// map and its registration handle comes back so the caller can undo the
    /// listener registration — the one unregistration that pairs with the one
    /// registration recorded at insertion. Closing a session that is not
    /// tracked is a no-op, never an error: close races and repeated closes
    /// land here as harmless second attempts.
    pub fn process_closed(&mut self, session_uid: &String) -> (r: Option<u64>)
        requires
            old(self).wf(),
        ensures
            final(self).wf(),
            final(self).notifier_handle == old(self).notifier_handle,
            r is Some <==> old(self).tracks(session_uid@),
            old(self).tracks(session_uid@) ==> exists|i: int|
                {
                    &&& 0 <= i < old(self).entries@.len()
                    &&& old(self).entries@[i].session_uid@ == session_uid@
                    &&& r == Some(old(self).entries@[i].handle)
                    &&& final(self).entries@ == old(self).entries@.remove(i)
                },
            !old(self).tracks(session_uid@) ==> *final(self) == *old(self),
            final(self).uid_set() == tracked_after_closed(old(self).uid_set(), session_uid@),
            !final(self).tracks(session_uid@),
    {
        let ghost pre = *old(self);
        match self.find_index(session_uid) {
            Some(i) => {
                let entry = self.entries.remove(i);
                proof {
                    lemma_map_values_remove(pre.entries@, i as int);
                    lemma_unique_remove(pre.uids(), i as int);
                    lemma_unique_remove_contains(pre.uids(), i as int);
                    assert(self.uids() == pre.uids().remove(i as int));
                    assert(self.uid_set() =~= tracked_after_closed(pre.uid_set(), session_uid@));
                    assert(final(self).entries@ == pre.entries@.remove(i as int));
                }
                Some(entry.handle)
            },
            None => {
                proof {
                    assert(self.uid_set() =~= tracked_after_closed(pre.uid_set(), session_uid@));
                }
                None
            },
        }
    }

    /// Tears the monitor down: every remaining entry leaves the map and the
    /// handles come back — the notifier's first, then each listener's, in
    /// insertion order — so the caller can undo every registration still
    /// standing. Teardown is total-effort: the caller undoes each one even if
    /// another fails.
    pub fn shutdown(&mut self) -> (r: (Option<u64>, Vec<u64>))
        requires
            old(self).wf(),
        ensures
            final(self).entries@.len() == 0,
            final(self).notifier_handle is None,
            final(self).wf(),
            r.0 == old(self).notifier_handle,
            r.1@ == old(self).handles(),
    {
        let ghost pre = *old(self);
        let notifier = self.notifier_handle.take();
        let mut handles: Vec<u64> = Vec::new();
        let mut i: usize = 0;
        while i < self.entries.len()
            invariant
                i <= self.entries@.len(),
                self.entries@ == pre.entries@,
                handles@ == pre.handles().take(i as int),
            decreases self.entries@.len() - i,
        {
            handles.push(self.entries[i].handle);
            proof {
                assert(handles@ =~= pre.handles().take(i + 1));
            }
            i += 1;
        }
        self.entries.clear();
        proof {
            assert(handles@ =~= pre.handles());
        }
        (notifier, handles)
    }
}

/// One lifecycle notification as the monitor loop sees it, together with the
/// outcome of the listener registration the loop attempts for a new session.
pub enum LifecycleStep {
    Created { session_uid: Seq<char>, registered: bool },
    Closed { session_uid: Seq<char> },
}

/// The tracked key set after the loop handles one notification. This is the
/// transition the executable handlers are specified against: see
/// `Monitor::process_created` and `Monitor::process_closed`.
pub open spec fn step_keys(keys: Set<Seq<char>>, step: LifecycleStep) -> Set<Seq<char>> {
    match step {
        LifecycleStep::Created { session_uid, registered } => tracked_after_created(
            keys,
            session_uid,
            registered,
        ),
        LifecycleStep::Closed { session_uid } => tracked_after_closed(keys, session_uid),
    }
}

/// The set of listeners registered with the subsystem after one notification.
/// A listener is registered exactly when a new session enters the map —
/// `Monitor::process_created` inserts only for a successful registration —
/// and unregistered exactly when its entry leaves it —
/// `Monitor::process_closed` hands the registration handle back only when the
/// entry existed.
pub open spec fn step_listeners(
    keys: Set<Seq<char>>,
    listeners: Set<Seq<char>>,
    step: LifecycleStep,
) -> Set<Seq<char>> {
    match step {
        LifecycleStep::Created { session_uid, registered } => {
            if !keys.contains(session_uid) && registered {
                listeners.insert(session_uid)
            } else {
                listeners
            }
        },
        LifecycleStep::Closed { session_uid } => {
            if keys.contains(session_uid) {
                listeners.remove(session_uid)
            } else {
                listeners
            }
        },
    }
}

/// The tracked key set and the registered-listener set after the loop drains
/// a whole sequence of notifications, oldest first.
pub open spec fn run_steps(
    keys: Set<Seq<char>>,
    listeners: Set<Seq<char>>,
    steps: Seq<LifecycleStep>,
) -> (Set<Seq<char>>, Set<Seq<char>>)
    decreases steps.len(),
{
    if steps.len() == 0 {
        (keys, listeners)
    } else {
        run_steps(
            step_keys(keys, steps[0]),
            step_listeners(keys, listeners, steps[0]),
            steps.drop_first(),
        )
    }
}

/// The registration invariant: over every sequence of created and closed
/// notifications, the key set of the tracked-session map stays equal to the
/// set of listeners registered with the subsystem — each insertion is paired
/// with exactly one registration and each removal with exactly one
/// unregistration. (That the map holds no duplicate keys is `Monitor::wf`,
/// which every handler preserves.)
pub proof fn lemma_keys_match_listeners(
    keys: Set<Seq<char>>,
    listeners: Set<Seq<char>>,
    steps: Seq<LifecycleStep>,
)
    requires
        keys == listeners,
    ensures
        run_steps(keys, listeners, steps).0 == run_steps(keys, listeners, steps).1,
    decreases steps.len(),
{
    if steps.len() > 0 {
        let keys1 = step_keys(keys, steps[0]);
        let listeners1 = step_listeners(keys, listeners, steps[0]);
        match steps[0] {
            LifecycleStep::Created { session_uid, registered } => {
                assert(keys1 =~= listeners1);
            },
            LifecycleStep::Closed { session_uid } => {
                assert(keys1 =~= listeners1);
            },
        }
        lemma_keys_match_listeners(keys1, listeners1, steps.drop_first());
    }
}

/// Closing the same session twice is a no-op the second time: the first
/// removal already took the entry out, so the second changes nothing and asks
/// for no unregistration.
pub proof fn lemma_closed_twice_no_op(keys: Set<Seq<char>>, session_uid: Seq<char>)
    ensures
        !tracked_after_closed(keys, session_uid).contains(session_uid),
        tracked_after_closed(tracked_after_closed(keys, session_uid), session_uid)
            == tracked_after_closed(keys, session_uid),
{
    assert(tracked_after_closed(tracked_after_closed(keys, session_uid), session_uid)
        =~= tracked_after_closed(keys, session_uid));
}

/// Mapping entries to identifiers commutes with removal.
proof fn lemma_map_values_remove(s: Seq<TrackedSession>, i: int)
    requires
        0 <= i < s.len(),
    ensures
        s.remove(i).map_values(|t: TrackedSession| t.session_uid@) == s.map_values(
            |t: TrackedSession| t.session_uid@,
        ).remove(i),
{
    assert(s.remove(i).map_values(|t: TrackedSession| t.session_uid@) =~= s.map_values(
        |t: TrackedSession| t.session_uid@,
    ).remove(i));
}

/// Removing one element of a duplicate-free sequence keeps it duplicate-free.
proof fn lemma_unique_remove(s: Seq<Seq<char>>, i: int)
    requires
        unique_uids(s),
        0 <= i < s.len(),
    ensures
        unique_uids(s.remove(i)),
{
    let t = s.remove(i);
    assert forall|a: int, b: int| 0 <= a < b < t.len() implies t[a] != t[b] by {
        let a0 = if a < i {
            a
        } else {
            a + 1
        };
        let b0 = if b < i {
            b
        } else {
            b + 1
        };
        assert(t[a] == s[a0]);
        assert(t[b] == s[b0]);
    }
}

/// In a duplicate-free sequence, removing index `i` removes exactly the value
/// `s[i]` from what the sequence contains.
proof fn lemma_unique_remove_contains(s: Seq<Seq<char>>, i: int)
    requires
        unique_uids(s),
        0 <= i < s.len(),
    ensures
        forall|x: Seq<char>| s.remove(i).contains(x) <==> (s.contains(x) && x != s[i]),
{
    let t = s.remove(i);
    assert forall|x: Seq<char>| t.contains(x) implies (s.contains(x) && x != s[i]) by {
        let j = choose|j: int| 0 <= j < t.len() && t[j] == x;
        let j0 = if j < i {
            j
        } else {
            j + 1
        };
        assert(s[j0] == x);
    }
    assert forall|x: Seq<char>| s.contains(x) && x != s[i] implies t.contains(x) by {
        let j = choose|j: int| 0 <= j < s.len() && s[j] == x;
        if j < i {
            assert(t[j] == x);
        } else {
            assert(t[j - 1] == x);
        }
    }
}

} // verus!
