//! On-demand session queries and mutations: which sessions a (pid, uid) pair
//! addresses, what a volume or mute pass does to them, how many subsystem
//! calls it costs, and the rows of one enumeration.

use vstd::prelude::*;
use crate::session::SessionDetails;
use crate::session::valid_volume;

verus! {

/// Whether a mutation aimed at a (pid, uid) pair applies to a session: it
/// applies when the process id matches or the instance identifier does. A
/// missing identifier in the request can only match by process id.
pub open spec fn session_matches(pid: u32, uid: Option<Seq<char>>, s: SessionDetails) -> bool {
    s.process_id == pid || (uid matches Some(u) && s.session_uid@ == u)
}

/// Executable form of `session_matches`.
pub fn matches_session(pid: u32, uid: &Option<String>, s: &SessionDetails) -> (r: bool)
    ensures
        r == session_matches(pid, uid.deep_view(), *s),
{
    if s.process_id == pid {
        true
    } else {
        match uid {
            Some(u) => s.session_uid == *u,
            None => false,
        }
    }
}

/// Whether one session needs a subsystem mute call for this request: it is
/// addressed by the pair and its current state differs from the requested
/// one — a session already in the requested state is skipped. This is the
/// per-session decision that `mute_calls` counts; a caller working against
/// the live subsystem asks it before each call.
pub fn mute_call_needed(pid: u32, uid: &Option<String>, s: &SessionDetails, mute: bool) -> (r: bool)
    ensures
        r == (session_matches(pid, uid.deep_view(), *s) && s.is_muted != mute),
{
    matches_session(pid, uid, s) && s.is_muted != mute
}

/// A session after its volume is set.
pub open spec fn with_volume(s: SessionDetails, level: u32) -> SessionDetails {
    SessionDetails { session_volume: level, ..s }
}

/// A session after its mute state is set.
pub open spec fn with_mute(s: SessionDetails, mute: bool) -> SessionDetails {
    SessionDetails { is_muted: mute, ..s }
}

/// Every enumerated session after a volume mutation: each matching session
/// carries the requested level, every other session is untouched.
pub open spec fn volumes_after_set(
    s: Seq<SessionDetails>,
    pid: u32,
    uid: Option<Seq<char>>,
    level: u32,
) -> Seq<SessionDetails> {
    s.map_values(
        |e: SessionDetails|
            if session_matches(pid, uid, e) {
                with_volume(e, level)
            } else {
                e
            },
    )
}

/// Every enumerated session after a mute mutation.
pub open spec fn mutes_after_set(
    s: Seq<SessionDetails>,
    pid: u32,
    uid: Option<Seq<char>>,
    mute: bool,
) -> Seq<SessionDetails> {
    s.map_values(
        |e: SessionDetails|
            if session_matches(pid, uid, e) {
                with_mute(e, mute)
            } else {
                e
            },
    )
}

/// How many mute calls a set-mute pass makes against the subsystem: one for
/// each matching session whose current state differs from the requested one —
/// a session already in the requested state is skipped.
pub open spec fn mute_calls(
    s: Seq<SessionDetails>,
    pid: u32,
    uid: Option<Seq<char>>,
    mute: bool,
) -> nat
    decreases s.len(),
{
    if s.len() == 0 {
        0
    } else {
        mute_calls(s.drop_last(), pid, uid, mute) + (
        if session_matches(pid, uid, s.last()) && s.last().is_muted != mute {
            1 as nat
        } else {
            0 as nat
        })
    }
}

/// Applies a volume mutation to the enumerated sessions: every matching
/// session is set to the requested level, every other session is left alone,
/// and a pair that matches nothing is a silent no-op, not an error. Returns
/// the level the matched sessions now carry, or zero when nothing matched —
/// the resulting volume the subsystem reported back, in the no-match case
/// never queried.
pub fn apply_set_volume(
    sessions: &mut Vec<SessionDetails>,
    pid: u32,
    uid: &Option<String>,
    level: u32,
) -> (r: u32)
    requires
        valid_volume(level),
    ensures
        final(sessions)@ == volumes_after_set(old(sessions)@, pid, uid.deep_view(), level),
        r == if exists|i: int|
            0 <= i < old(sessions)@.len() && session_matches(pid, uid.deep_view(), old(sessions)@[i]) {
            level
        } else {
            0u32
        },
{
    let ghost pre = sessions@;
    let ghost target = volumes_after_set(pre, pid, uid.deep_view(), level);
    let mut found = false;
    let mut i: usize = 0;
    while i < sessions.len()
        invariant
            valid_volume(level),
            i <= sessions@.len(),
            sessions@.len() == pre.len(),
            target == volumes_after_set(pre, pid, uid.deep_view(), level),
            forall|j: int| 0 <= j < i ==> sessions@[j] == target[j],
            forall|j: int| i <= j < pre.len() ==> sessions@[j] == pre[j],
            found == exists|j: int| 0 <= j < i && session_matches(pid, uid.deep_view(), pre[j]),
        decreases sessions@.len() - i,
    {
        if matches_session(pid, uid, &sessions[i]) {
            let ghost at_entry = sessions@;
            let mut e = sessions.remove(i);
            e.session_volume = level;
            sessions.insert(i, e);
            proof {
                assert(sessions@ =~= at_entry.update(i as int, with_volume(pre[i as int], level)));
            }
            found = true;
        }
        i += 1;
    }
    proof {
        assert(sessions@ =~= target);
    }
    if found {
        level
    } else {
        0
    }
}

/// Applies a mute mutation to the enumerated sessions: every matching session
/// ends in the requested state, every other session is left alone, and a pair
/// that matches nothing is a silent no-op, not an error. Returns how many
/// mute calls the pass made against the subsystem: a matching session already
/// in the requested state is skipped, so repeating a request performs no
/// further calls.
pub fn apply_set_mute(
    sessions: &mut Vec<SessionDetails>,
    pid: u32,
    uid: &Option<String>,
    mute: bool,
) -> (calls: usize)
    ensures
        final(sessions)@ == mutes_after_set(old(sessions)@, pid, uid.deep_view(), mute),
        calls == mute_calls(old(sessions)@, pid, uid.deep_view(), mute),
{
    let ghost pre = sessions@;
    let ghost target = mutes_after_set(pre, pid, uid.deep_view(), mute);
    let mut calls: usize = 0;
    let mut i: usize = 0;
    while i < sessions.len()
        invariant
            i <= sessions@.len(),
            sessions@.len() == pre.len(),
            target == mutes_after_set(pre, pid, uid.deep_view(), mute),
            forall|j: int| 0 <= j < i ==> sessions@[j] == target[j],
            forall|j: int| i <= j < pre.len() ==> sessions@[j] == pre[j],
            calls == mute_calls(pre.take(i as int), pid, uid.deep_view(), mute),
            calls <= i,
        decreases sessions@.len() - i,
    {
        proof {
            assert(pre.take(i + 1).drop_last() =~= pre.take(i as int));
            assert(pre.take(i + 1).last() == pre[i as int]);
        }
        if matches_session(pid, uid, &sessions[i]) {
            if sessions[i].is_muted != mute {
                let ghost at_entry = sessions@;
                let mut e = sessions.remove(i);
                e.is_muted = mute;
                sessions.insert(i, e);
                proof {
                    assert(sessions@ =~= at_entry.update(i as int, with_mute(pre[i as int], mute)));
                }
                calls += 1;
            } else {
                proof {
                    assert(sessions@[i as int] == target[i as int]);
                }
            }
        }
        i += 1;
    }
    proof {
        assert(pre.take(pre.len() as int) =~= pre);
        assert(sessions@ =~= target);
    }
    calls
}

/// One session as the enumeration pass sees it: the raw process id, the
/// instance identifier and display name where the session exposes them, the
/// name resolved from the system process snapshot, the current volume, and
/// the mute and active state.
pub struct EnumeratedSession {
    pub process_id: u32,
    pub session_uid: Option<String>,
    pub display_name: Option<String>,
    pub resolved_name: Option<String>,
    pub session_volume: u32,
    pub is_muted: bool,
    pub is_active: bool,
}

/// One row of the session list handed back to the caller: the full snapshot
/// of one session. The identifier is carried as the subsystem gave it, absent
/// where the session exposes none.
pub struct SessionRow {
    pub process_id: u32,
    pub session_uid: Option<String>,
    pub process_name: String,
    pub session_volume: u32,
    pub is_muted: bool,
    pub is_active: bool,
}

/// Whether an enumerated session makes it into the list: every one does but
/// the system sound session (process id zero) — the list is per-application.
/// A session is never dropped for a missing name: the name falls back to the
/// resolved process name, then to "unknown".
pub open spec fn listed(e: EnumeratedSession) -> bool {
    e.process_id != 0
}

/// Whether a row is the snapshot of an enumerated session: every field
/// carried over, the name through the same fallback chain the monitor path
/// uses.
pub open spec fn is_row_of(row: SessionRow, e: EnumeratedSession) -> bool {
    &&& row.process_id == e.process_id
    &&& row.session_uid == e.session_uid
    &&& row.process_name@ == crate::session::chosen_name(
        e.display_name.deep_view(),
        e.resolved_name.deep_view(),
    )
    &&& row.session_volume == e.session_volume
    &&& row.is_muted == e.is_muted
    &&& row.is_active == e.is_active
}

/// How many of the enumerated sessions are listed.
pub open spec fn listed_count(s: Seq<EnumeratedSession>) -> nat
    decreases s.len(),
{
    if s.len() == 0 {
        0
    } else {
        listed_count(s.drop_last()) + (if listed(s.last()) {
            1 as nat
        } else {
            0 as nat
        })
    }
}

/// The session list of one enumeration, as a relation: exactly one row per
/// listed session, in enumeration order, and nothing else.
pub open spec fn rows_match(rows: Seq<SessionRow>, s: Seq<EnumeratedSession>) -> bool
    decreases s.len(),
{
    if s.len() == 0 {
        rows.len() == 0
    } else if listed(s.last()) {
        &&& rows.len() > 0
        &&& is_row_of(rows.last(), s.last())
        &&& rows_match(rows.drop_last(), s.drop_last())
    } else {
        rows_match(rows, s.drop_last())
    }
}

/// A copy of an optional identifier.
fn clone_opt_string(s: &Option<String>) -> (r: Option<String>)
    ensures
        r == *s,
{
    match s {
        Some(x) => Some(x.clone()),
        None => None,
    }
}

/// Builds the session list of one enumeration, each call enumerating afresh:
/// one full row — id, identifier, name, volume, mute and active state — for
/// every session but the system one, in enumeration order. A session whose
/// process the snapshot cannot name still gets its row, named through the
/// display-name fallback.
pub fn collect_session_rows(raw: &Vec<EnumeratedSession>) -> (rows: Vec<SessionRow>)
    ensures
        rows_match(rows@, raw@),
        rows@.len() == listed_count(raw@),
{
    let mut rows: Vec<SessionRow> = Vec::new();
    let mut i: usize = 0;
    while i < raw.len()
        invariant
            i <= raw@.len(),
            rows_match(rows@, raw@.take(i as int)),
            rows@.len() == listed_count(raw@.take(i as int)),
        decreases raw@.len() - i,
    {
        proof {
            assert(raw@.take(i + 1).drop_last() =~= raw@.take(i as int));
            assert(raw@.take(i + 1).last() == raw@[i as int]);
        }
        let e = &raw[i];
        if e.process_id != 0 {
            let ghost before = rows@;
            let row = SessionRow {
                process_id: e.process_id,
                session_uid: clone_opt_string(&e.session_uid),
                process_name: crate::session::pick_display_name(
                    clone_opt_string(&e.display_name),
                    clone_opt_string(&e.resolved_name),
                ),
                session_volume: e.session_volume,
                is_muted: e.is_muted,
                is_active: e.is_active,
            };
            proof {
                assert(is_row_of(row, raw@[i as int]));
            }
            rows.push(row);
            proof {
                assert(rows@.drop_last() =~= before);
                assert(rows@.last() == row);
            }
        }
        i += 1;
    }
    proof {
        assert(raw@.take(raw@.len() as int) =~= raw@);
    }
    rows
}

/// No-match mutations change nothing: when a (pid, uid) pair matches none of
/// the enumerated sessions, a volume or mute pass leaves every session's
/// volume and mute state as it was and makes no mute call — the operation
/// still reports success.
pub proof fn lemma_no_match_is_no_op(
    s: Seq<SessionDetails>,
    pid: u32,
    uid: Option<Seq<char>>,
    level: u32,
    mute: bool,
)
    requires
        forall|i: int| 0 <= i < s.len() ==> !session_matches(pid, uid, s[i]),
    ensures
        volumes_after_set(s, pid, uid, level) == s,
        mutes_after_set(s, pid, uid, mute) == s,
        mute_calls(s, pid, uid, mute) == 0,
    decreases s.len(),
{
    assert(volumes_after_set(s, pid, uid, level) =~= s);
    assert(mutes_after_set(s, pid, uid, mute) =~= s);
    if s.len() > 0 {
        assert(forall|i: int| 0 <= i < s.drop_last().len() ==> s.drop_last()[i] == s[i]);
        lemma_no_match_is_no_op(s.drop_last(), pid, uid, level, mute);
    }
}

/// In a store where every matching session already carries the requested mute
/// state, a mute pass changes nothing and makes no mute call.
proof fn lemma_settled_mute(s: Seq<SessionDetails>, pid: u32, uid: Option<Seq<char>>, mute: bool)
    requires
        forall|i: int|
            0 <= i < s.len() && session_matches(pid, uid, s[i]) ==> s[i].is_muted == mute,
    ensures
        mutes_after_set(s, pid, uid, mute) == s,
        mute_calls(s, pid, uid, mute) == 0,
    decreases s.len(),
{
    assert forall|i: int| 0 <= i < s.len() implies mutes_after_set(s, pid, uid, mute)[i] == s[i] by {
        if session_matches(pid, uid, s[i]) {
            assert(with_mute(s[i], mute) == s[i]);
        }
    }
    assert(mutes_after_set(s, pid, uid, mute) =~= s);
    if s.len() > 0 {
        assert(forall|i: int| 0 <= i < s.drop_last().len() ==> s.drop_last()[i] == s[i]);
        lemma_settled_mute(s.drop_last(), pid, uid, mute);
    }
}

/// Setting the mute state is idempotent: a second pass with the same value
/// finds every matching session already in the requested state, so it changes
/// nothing and performs no further mute call against the subsystem.
pub proof fn lemma_set_mute_idempotent(
    s: Seq<SessionDetails>,
    pid: u32,
    uid: Option<Seq<char>>,
    mute: bool,
)
    ensures
        mutes_after_set(mutes_after_set(s, pid, uid, mute), pid, uid, mute) == mutes_after_set(
            s,
            pid,
            uid,
            mute,
        ),
        mute_calls(mutes_after_set(s, pid, uid, mute), pid, uid, mute) == 0,
{
    let t = mutes_after_set(s, pid, uid, mute);
    assert forall|i: int|
        0 <= i < t.len() && session_matches(pid, uid, t[i]) implies t[i].is_muted == mute by {
        assert(session_matches(pid, uid, s[i]) == session_matches(pid, uid, t[i]));
    }
    lemma_settled_mute(t, pid, uid, mute);
}

/// Setting the volume is idempotent in its result: a second pass with the
/// same level leaves every session exactly where the first pass put it.
pub proof fn lemma_set_volume_idempotent(
    s: Seq<SessionDetails>,
    pid: u32,
    uid: Option<Seq<char>>,
    level: u32,
)
    ensures
        volumes_after_set(volumes_after_set(s, pid, uid, level), pid, uid, level)
            == volumes_after_set(s, pid, uid, level),
{
    let t = volumes_after_set(s, pid, uid, level);
    assert forall|i: int| 0 <= i < t.len() implies volumes_after_set(t, pid, uid, level)[i]
        == t[i] by {
        assert(session_matches(pid, uid, s[i]) == session_matches(pid, uid, t[i]));
    }
    assert(volumes_after_set(t, pid, uid, level) =~= t);
}

} // verus!
