//! Best-effort process-name lookup over a point-in-time process snapshot.

use vstd::prelude::*;

verus! {

/// One process of a point-in-time system process snapshot: its id, and its
/// executable name as the fixed-size UTF-16 buffer the snapshot carries,
/// NUL-terminated when the name is shorter than the buffer.
pub struct ProcessEntry {
    pub process_id: u32,
    pub exe_name: Vec<u16>,
}

/// The code units of a name buffer up to, and not including, its first NUL.
pub open spec fn until_nul(s: Seq<u16>) -> Seq<u16>
    decreases s.len(),
{
    if s.len() == 0 {
        s
    } else if s[0] == 0 {
        Seq::empty()
    } else {
        seq![s[0]] + until_nul(s.drop_first())
    }
}

/// What lenient UTF-16 decoding yields for given code units.
pub uninterp spec fn utf16_lossy_of(units: Seq<u16>) -> Seq<char>;

/// Relies on String::from_utf16_lossy: decodes UTF-16 code units to text,
/// putting the replacement character where the units are invalid; the text
/// depends on the code units alone.
#[verifier::external_body]
fn decode_utf16_lossy(units: &Vec<u16>) -> (r: String)
    ensures
        r@ == utf16_lossy_of(units@),
{
    String::from_utf16_lossy(units)
}

/// A scan that found no NUL among the first `i` units, and its end or a NUL
/// at `i`, has found the whole prefix before the terminator.
proof fn lemma_until_nul_prefix(s: Seq<u16>, i: int)
    requires
        0 <= i <= s.len(),
        forall|j: int| 0 <= j < i ==> s[j] != 0,
        i == s.len() || s[i] == 0,
    ensures
        until_nul(s) == s.take(i),
    decreases s.len(),
{
    if s.len() == 0 {
        assert(s.take(0) =~= s);
    } else if s[0] == 0 {
        assert(s.take(0) =~= Seq::<u16>::empty());
    } else {
        let t = s.drop_first();
        assert(forall|j: int| 0 <= j < i - 1 ==> t[j] == s[j + 1] && t[j] != 0);
        lemma_until_nul_prefix(t, i - 1);
        assert(s.take(i) =~= seq![s[0]] + t.take(i - 1));
    }
}

/// The prefix of a snapshot name buffer before its NUL terminator, or the
/// whole buffer when no unit is NUL.
pub fn truncate_at_nul(units: &Vec<u16>) -> (r: Vec<u16>)
    ensures
        r@ == until_nul(units@),
{
    let mut out: Vec<u16> = Vec::new();
    let mut i: usize = 0;
    while i < units.len()
        invariant
            i <= units@.len(),
            out@ == units@.take(i as int),
            forall|j: int| 0 <= j < i ==> units@[j] != 0,
        decreases units@.len() - i,
    {
        let u = units[i];
        if u == 0 {
            proof {
                lemma_until_nul_prefix(units@, i as int);
            }
            return out;
        }
        out.push(u);
        proof {
            assert(out@ =~= units@.take(i + 1));
        }
        i += 1;
    }
    proof {
        lemma_until_nul_prefix(units@, units@.len() as int);
        assert(out@ =~= units@.take(units@.len() as int));
    }
    out
}

/// Best-effort lookup of an executable name in a process snapshot: one linear
/// scan that yields the decoded name of the first process whose id matches,
/// or nothing when none does. Used only as a fallback when a session exposes
/// no display name of its own.
pub fn resolve_process_name(processes: &Vec<ProcessEntry>, process_id: u32) -> (r: Option<String>)
    ensures
        r is Some <==> exists|i: int|
            0 <= i < processes@.len() && processes@[i].process_id == process_id,
        r matches Some(name) ==> exists|i: int|
            {
                &&& 0 <= i < processes@.len()
                &&& processes@[i].process_id == process_id
                &&& forall|j: int| 0 <= j < i ==> processes@[j].process_id != process_id
                &&& name@ == utf16_lossy_of(until_nul(processes@[i].exe_name@))
            },
{
    let mut i: usize = 0;
    while i < processes.len()
        invariant
            i <= processes@.len(),
            forall|j: int| 0 <= j < i ==> processes@[j].process_id != process_id,
        decreases processes@.len() - i,
    {
        if processes[i].process_id == process_id {
            let trimmed = truncate_at_nul(&processes[i].exe_name);
            let name = decode_utf16_lossy(&trimmed);
            proof {
                assert(processes@[i as int].process_id == process_id);
            }
            return Some(name);
        }
        i += 1;
    }
    None
}

} // verus!
