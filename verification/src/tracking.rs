//! The set of child-process pids that have already been elevated.
//!
//! The watcher consults this set before elevating: a pid is elevated on its
//! first sighting and recorded here, so later sightings of the same pid do
//! not elevate again (`lemma_elevation_at_most_once`). A periodic garbage
//! collection removes pids whose process has exited, so the set stays
//! bounded over the life of a host that spawns many short-lived children;
//! `sweep` states that exactly the still-live pids survive.

use crate::vec_util::contains_u32;
use vstd::prelude::*;

verus! {

broadcast use vstd::seq_lib::group_seq_properties, vstd::set_lib::group_set_properties;

/// The pids already elevated, each recorded once.
pub struct ElevationTracker {
    recorded: Vec<u32>,
}

impl View for ElevationTracker {
    type V = Set<u32>;

    closed spec fn view(&self) -> Set<u32> {
        self.recorded@.to_set()
    }
}

impl ElevationTracker {
    /// The recorded pids in insertion order.
    pub closed spec fn entries(&self) -> Seq<u32> {
        self.recorded@
    }

    /// The tracking set never contains duplicate entries. Constructors
    /// establish this and every method preserves it.
    pub open spec fn well_formed(&self) -> bool {
        self.entries().no_duplicates()
    }

    pub fn new() -> (t: Self)
        ensures
            t@ == Set::<u32>::empty(),
            t.entries() == Seq::<u32>::empty(),
            t.well_formed(),
    {
        let t = ElevationTracker { recorded: Vec::new() };
        proof {
            assert(t.recorded@.to_set() =~= Set::<u32>::empty());
        }
        t
    }

    /// Is `pid` already tracked?
    pub fn contains(&self, pid: u32) -> (r: bool)
        ensures
            r == self@.contains(pid),
    {
        contains_u32(&self.recorded, pid)
    }

    /// How many pids are tracked.
    pub fn len(&self) -> (n: usize)
        requires
            self.well_formed(),
        ensures
            n == self@.len(),
            n == self.entries().len(),
    {
        proof {
            self.recorded@.unique_seq_to_set();
        }
        self.recorded.len()
    }

    /// The tracked pids as a list, in insertion order — what a
    /// garbage-collection pass probes for liveness.
    pub fn pid_list(&self) -> (v: Vec<u32>)
        ensures
            v@ == self.entries(),
            v@.to_set() == self@,
    {
        let mut v: Vec<u32> = Vec::new();
        let mut i: usize = 0;
        while i < self.recorded.len()
            invariant
                0 <= i <= self.recorded@.len(),
                v@ == self.recorded@.subrange(0, i as int),
            decreases self.recorded@.len() - i,
        {
            v.push(self.recorded[i]);
            proof {
                assert(v@ =~= self.recorded@.subrange(0, i + 1 as int));
            }
            i = i + 1;
        }
        proof {
            assert(v@ =~= self.recorded@);
        }
        v
    }

    /// Record a sighting of `pid`: insert it, and report whether it was
    /// new — exactly the sightings for which elevation is attempted.
    pub fn observe(&mut self, pid: u32) -> (newly: bool)
        requires
            old(self).well_formed(),
        ensures
            newly == !old(self)@.contains(pid),
            final(self)@ == old(self)@.insert(pid),
            final(self).entries() == (if old(self)@.contains(pid) {
                old(self).entries()
            } else {
                old(self).entries().push(pid)
            }),
            final(self).well_formed(),
    {
        if contains_u32(&self.recorded, pid) {
            proof {
                assert(self.recorded@.to_set() =~= old(self).recorded@.to_set().insert(pid));
            }
            false
        } else {
            self.recorded.push(pid);
            proof {
                assert(self.recorded@.to_set() =~= old(self).recorded@.to_set().insert(pid));
            }
            true
        }
    }

    /// Garbage-collect: keep exactly the tracked pids whose process is
    /// still alive, where `live` lists the pids that could still be opened.
    pub fn sweep(&mut self, live: &Vec<u32>)
        requires
            old(self).well_formed(),
        ensures
            final(self)@ == old(self)@.intersect(live@.to_set()),
            final(self)@.len() <= old(self)@.len(),
            final(self).well_formed(),
    {
        let ghost old_entries = self.recorded@;
        let mut kept: Vec<u32> = Vec::new();
        let mut i: usize = 0;
        while i < self.recorded.len()
            invariant
                self.recorded@ == old_entries,
                old_entries.no_duplicates(),
                0 <= i <= old_entries.len(),
                kept@.no_duplicates(),
                forall|p: u32|
                    kept@.contains(p) <==> (old_entries.subrange(0, i as int).contains(p)
                        && live@.contains(p)),
            decreases old_entries.len() - i,
        {
            let ghost prefix = old_entries.subrange(0, i as int);
            let ghost prefix1 = old_entries.subrange(0, i + 1 as int);
            let p = self.recorded[i];
            proof {
                assert(prefix1.drop_last() =~= prefix);
                assert(prefix1.last() == old_entries[i as int]);
                assert(forall|q: u32|
                    prefix1.contains(q) <==> (prefix.contains(q) || q == old_entries[i as int]));
                assert(!prefix.contains(p)) by {
                    if prefix.contains(p) {
                        let j = choose|j: int| 0 <= j < prefix.len() && prefix[j] == p;
                        assert(old_entries[j] == old_entries[i as int]);
                    }
                }
                assert(!kept@.contains(p));
            }
            if contains_u32(live, p) {
                kept.push(p);
            }
            i = i + 1;
        }
        proof {
            assert(old_entries.subrange(0, old_entries.len() as int) =~= old_entries);
        }
        self.recorded = kept;
        proof {
            broadcast use vstd::seq_lib::seq_to_set_is_finite;

            assert(self.recorded@.to_set() =~= old_entries.to_set().intersect(live@.to_set()));
            vstd::set_lib::lemma_len_subset(self.recorded@.to_set(), old_entries.to_set());
        }
    }
}

/// How many times a run of sightings attempts to elevate `pid`, starting
/// from a tracking set `seen`: a sighting attempts elevation exactly when
/// its pid is not yet tracked, and the pid is tracked afterwards — the
/// step `ElevationTracker::observe` takes.
pub open spec fn elevation_attempts(seen: Set<u32>, sightings: Seq<u32>, pid: u32) -> nat
    decreases sightings.len(),
{
    if sightings.len() == 0 {
        0
    } else {
        let first = sightings[0];
        let here: nat = if first == pid && !seen.contains(first) {
            1
        } else {
            0
        };
        here + elevation_attempts(seen.insert(first), sightings.drop_first(), pid)
    }
}

/// No double elevation: over any sequence of sightings, a pid is elevated
/// at most once — and never, if it was already tracked at the start.
pub proof fn lemma_elevation_at_most_once(seen: Set<u32>, sightings: Seq<u32>, pid: u32)
    ensures
        elevation_attempts(seen, sightings, pid) <= 1,
        seen.contains(pid) ==> elevation_attempts(seen, sightings, pid) == 0,
    decreases sightings.len(),
{
    if sightings.len() == 0 {
    } else {
        let first = sightings[0];
        lemma_elevation_at_most_once(seen.insert(first), sightings.drop_first(), pid);
    }
}

} // verus!
