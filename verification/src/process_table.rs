//! Point-in-time snapshots of the process table, and the ancestry walk over
//! them.
//!
//! A snapshot is an ordered list of `(pid, parent pid, executable name)`
//! records, exactly as the platform's process enumeration hands them out.
//! Entries are not live: a snapshot must be re-taken for every independent
//! query. Parent lookup takes the first record with a matching pid, mirroring
//! a forward scan of the enumeration.
//!
//! `is_descendant_of` walks the parent chain from a pid, looking for a given
//! ancestor. A corrupted or adversarial table may contain parent cycles, so
//! the walk keeps a visited set and gives up (answering `false`) as soon as a
//! pid repeats; `lemma_cycle_is_not_descendant` states that guarantee for the
//! canonical two-cycle.

use crate::vec_util::contains_u32;
use vstd::prelude::*;

verus! {

broadcast use vstd::seq_lib::group_seq_properties, vstd::set_lib::group_set_properties;

/// One process in a snapshot: its pid, its parent's pid, and its executable
/// name as raw bytes.
pub struct ProcessRecord {
    pub pid: u32,
    pub parent_pid: u32,
    pub name: Vec<u8>,
}

/// A point-in-time snapshot of the process table.
pub struct ProcessTable {
    records: Vec<ProcessRecord>,
}

impl View for ProcessTable {
    type V = Seq<ProcessRecord>;

    closed spec fn view(&self) -> Seq<ProcessRecord> {
        self.records@
    }
}

/// The parent pid recorded for `pid`: the first record whose pid matches,
/// `None` when the pid does not appear in the snapshot.
pub open spec fn lookup_parent(s: Seq<ProcessRecord>, pid: u32) -> Option<u32>
    decreases s.len(),
{
    if s.len() == 0 {
        None
    } else if s[0].pid == pid {
        Some(s[0].parent_pid)
    } else {
        lookup_parent(s.drop_first(), pid)
    }
}

/// The snapshot's pids, in record order.
pub open spec fn pids_of(s: Seq<ProcessRecord>) -> Seq<u32> {
    s.map_values(|r: ProcessRecord| r.pid)
}

/// All pids that appear in the snapshot.
pub open spec fn table_pids(s: Seq<ProcessRecord>) -> Set<u32> {
    pids_of(s).to_set()
}

/// How many pids of the snapshot a walk has not visited yet; the measure
/// that bounds the ancestry walk.
pub open spec fn unvisited_count(s: Seq<ProcessRecord>, visited: Set<u32>) -> nat {
    table_pids(s).difference(visited).len()
}

/// A pid with a recorded parent appears among the snapshot's pids.
pub proof fn lemma_lookup_some_in_pids(s: Seq<ProcessRecord>, pid: u32)
    requires
        lookup_parent(s, pid) is Some,
    ensures
        table_pids(s).contains(pid),
    decreases s.len(),
{
    broadcast use vstd::seq_lib::seq_to_set_is_finite;

    if s.len() == 0 {
    } else if s[0].pid == pid {
        assert(pids_of(s)[0] == pid);
        assert(pids_of(s).contains(pid));
    } else {
        lemma_lookup_some_in_pids(s.drop_first(), pid);
        let rest = s.drop_first();
        assert(pids_of(rest).contains(pid));
        let i = choose|i: int| 0 <= i < rest.len() && #[trigger] pids_of(rest)[i] == pid;
        assert(pids_of(s)[i + 1] == pid);
        assert(pids_of(s).contains(pid));
    }
}

/// The snapshot's pid set is finite.
pub proof fn lemma_table_pids_finite(s: Seq<ProcessRecord>)
    ensures
        table_pids(s).finite(),
{
    broadcast use vstd::seq_lib::seq_to_set_is_finite;

}

/// Visiting one unvisited pid of the snapshot strictly shrinks the measure.
pub proof fn lemma_unvisited_count_shrinks(s: Seq<ProcessRecord>, visited: Set<u32>, pid: u32)
    requires
        table_pids(s).contains(pid),
        !visited.contains(pid),
    ensures
        unvisited_count(s, visited.insert(pid)) < unvisited_count(s, visited),
{
    lemma_table_pids_finite(s);
    let before = table_pids(s).difference(visited);
    let after = table_pids(s).difference(visited.insert(pid));
    assert(after =~= before.remove(pid));
    assert(before.contains(pid));
    vstd::set::axiom_set_remove_len(before, pid);
}

/// Does the parent chain from `pid` meet `ancestor` before it leaves the
/// snapshot, reaches pid zero, or revisits a pid in `visited`?
///
/// This is the meaning of the ancestry walk: following recorded parents,
/// with a visited set as cycle guard.
pub open spec fn reaches(s: Seq<ProcessRecord>, pid: u32, ancestor: u32, visited: Set<u32>) -> bool
    decreases unvisited_count(s, visited),
    when visited.finite()
{
    if visited.contains(pid) || pid == 0 {
        false
    } else {
        match lookup_parent(s, pid) {
            None => false,
            Some(parent) => {
                proof {
                    lemma_lookup_some_in_pids(s, pid);
                    lemma_unvisited_count_shrinks(s, visited, pid);
                }
                parent == ancestor || reaches(s, parent, ancestor, visited.insert(pid))
            },
        }
    }
}

/// Is `pid` a (strict) descendant of `ancestor` according to the snapshot?
pub open spec fn is_descendant(s: Seq<ProcessRecord>, pid: u32, ancestor: u32) -> bool {
    reaches(s, pid, ancestor, Set::empty())
}

impl ProcessTable {
    /// An empty snapshot.
    pub fn new() -> (t: Self)
        ensures
            t@ == Seq::<ProcessRecord>::empty(),
    {
        ProcessTable { records: Vec::new() }
    }

    /// Append one enumerated process record.
    pub fn push(&mut self, pid: u32, parent_pid: u32, name: Vec<u8>)
        ensures
            final(self)@.len() == old(self)@.len() + 1,
            final(self)@ == old(self)@.push(
                ProcessRecord { pid, parent_pid, name },
            ),
    {
        self.records.push(ProcessRecord { pid, parent_pid, name });
    }

    pub fn len(&self) -> (n: usize)
        ensures
            n == self@.len(),
    {
        self.records.len()
    }

    /// The record at position `i` of the snapshot.
    pub fn record_at(&self, i: usize) -> (r: &ProcessRecord)
        requires
            i < self@.len(),
        ensures
            *r == self@[i as int],
    {
        &self.records[i]
    }

    /// The parent pid recorded for `pid`, scanning records in order.
    pub fn parent_of(&self, pid: u32) -> (r: Option<u32>)
        ensures
            r == lookup_parent(self@, pid),
    {
        let s = Ghost(self@);
        let mut i: usize = 0;
        while i < self.records.len()
            invariant
                s@ == self@,
                0 <= i <= s@.len(),
                forall|j: int| 0 <= j < i ==> s@[j].pid != pid,
            decreases s@.len() - i,
        {
            if self.records[i].pid == pid {
                proof {
                    lemma_lookup_first_match(s@, pid, i as int);
                }
                return Some(self.records[i].parent_pid);
            }
            i = i + 1;
        }
        proof {
            lemma_lookup_no_match(s@, pid);
        }
        None
    }
}

/// The first matching record decides the lookup.
proof fn lemma_lookup_first_match(s: Seq<ProcessRecord>, pid: u32, i: int)
    requires
        0 <= i < s.len(),
        s[i].pid == pid,
        forall|j: int| 0 <= j < i ==> s[j].pid != pid,
    ensures
        lookup_parent(s, pid) == Some(s[i].parent_pid),
    decreases i,
{
    if i == 0 {
    } else {
        assert(s[0].pid != pid);
        assert(s.drop_first()[i - 1] == s[i]);
        assert(forall|j: int| 0 <= j < i - 1 ==> s.drop_first()[j] == s[j + 1]);
        lemma_lookup_first_match(s.drop_first(), pid, i - 1);
    }
}

/// Without a matching record the lookup yields nothing.
proof fn lemma_lookup_no_match(s: Seq<ProcessRecord>, pid: u32)
    requires
        forall|j: int| 0 <= j < s.len() ==> s[j].pid != pid,
    ensures
        lookup_parent(s, pid) == None::<u32>,
    decreases s.len(),
{
    if s.len() == 0 {
    } else {
        assert(forall|j: int| 0 <= j < s.drop_first().len() ==> s.drop_first()[j] == s[j + 1]);
        lemma_lookup_no_match(s.drop_first(), pid);
    }
}

/// Walk the parent chain from `pid` in a snapshot of the process table and
/// decide whether `ancestor_pid` appears on it.
///
/// The walk follows each pid's recorded parent; it answers `true` as soon as
/// the parent equals `ancestor_pid`, and `false` when the chain reaches a pid
/// with no record, reaches pid zero, or revisits a pid (the cycle guard). It
/// terminates on every snapshot, cyclic ones included.
pub fn is_descendant_of(table: &ProcessTable, pid: u32, ancestor_pid: u32) -> (r: bool)
    ensures
        r == is_descendant(table@, pid, ancestor_pid),
{
    let s = Ghost(table@);
    let mut visited: Vec<u32> = Vec::new();
    let mut current: u32 = pid;
    proof {
        assert(visited@.to_set() =~= Set::<u32>::empty());
    }
    loop
        invariant
            s@ == table@,
            visited@.to_set().finite(),
            reaches(s@, pid, ancestor_pid, Set::empty()) == reaches(
                s@,
                current,
                ancestor_pid,
                visited@.to_set(),
            ),
        decreases unvisited_count(s@, visited@.to_set()),
    {
        let ghost vset = visited@.to_set();
        if current == 0 || contains_u32(&visited, current) {
            return false;
        }
        match table.parent_of(current) {
            None => {
                return false;
            },
            Some(parent) => {
                if parent == ancestor_pid {
                    return true;
                }
                visited.push(current);
                proof {
                    broadcast use vstd::seq_lib::seq_to_set_is_finite;

                    assert(visited@.to_set() =~= vset.insert(current));
                    lemma_lookup_some_in_pids(s@, current);
                    lemma_unvisited_count_shrinks(s@, vset, current);
                }
                current = parent;
            },
        }
    }
}

/// Cycle safety: when the recorded parent chain runs into a two-cycle
/// (`a`'s parent is `b` and `b`'s parent is `a`) without meeting the
/// ancestor, the walk answers `false` rather than looping.
pub proof fn lemma_cycle_is_not_descendant(s: Seq<ProcessRecord>, a: u32, b: u32, ancestor: u32)
    requires
        lookup_parent(s, a) == Some(b),
        lookup_parent(s, b) == Some(a),
        ancestor != a,
        ancestor != b,
    ensures
        !is_descendant(s, a, ancestor),
{
    let va = Set::<u32>::empty().insert(a);
    let vab = va.insert(b);
    if a == 0 {
    } else if b == 0 {
        assert(!reaches(s, b, ancestor, va));
    } else {
        assert(vab.contains(a));
        assert(!reaches(s, a, ancestor, vab));
        assert(!reaches(s, b, ancestor, va));
    }
}

} // verus!
