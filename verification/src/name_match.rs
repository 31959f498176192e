//! Recognizing the embedded browser engine's child processes by executable
//! name.
//!
//! A process belongs to the embedded engine when its executable name
//! contains the engine's child-process name, compared case-insensitively
//! over ASCII letters (process names come from the platform as raw bytes;
//! the pattern itself is plain ASCII).

use vstd::prelude::*;

verus! {

/// ASCII-lowercase a single byte; bytes outside `A`..`Z` are unchanged.
pub open spec fn ascii_lower(b: u8) -> u8 {
    if 65 <= b <= 90 {
        (b + 32) as u8
    } else {
        b
    }
}

/// A name, ASCII-lowercased byte for byte.
pub open spec fn lower_bytes(s: Seq<u8>) -> Seq<u8> {
    s.map_values(|b: u8| ascii_lower(b))
}

/// The child-process executable name of the embedded browser engine,
/// already lowercase: `msedgewebview2`.
pub open spec fn engine_pattern() -> Seq<u8> {
    seq![109u8, 115u8, 101u8, 100u8, 103u8, 101u8, 119u8, 101u8, 98u8, 118u8, 105u8, 101u8, 119u8, 50u8]
}

/// Does `pat` occur in `s` starting at position `i`?
pub open spec fn matches_at(s: Seq<u8>, pat: Seq<u8>, i: int) -> bool {
    forall|j: int| 0 <= j < pat.len() ==> s[i + j] == pat[j]
}

/// Does `pat` occur anywhere in `s`?
pub open spec fn contains_seq(s: Seq<u8>, pat: Seq<u8>) -> bool {
    exists|i: int| 0 <= i <= s.len() - pat.len() && matches_at(s, pat, i)
}

/// Is `name` the executable name of one of the engine's child processes?
/// True exactly when the lowercased name contains the engine pattern.
pub open spec fn is_engine_process_name(name: Seq<u8>) -> bool {
    contains_seq(lower_bytes(name), engine_pattern())
}

/// ASCII-lowercase one byte.
pub fn ascii_lower_byte(b: u8) -> (r: u8)
    ensures
        r == ascii_lower(b),
{
    if 65 <= b && b <= 90 {
        b + 32
    } else {
        b
    }
}

/// The engine pattern as a byte vector.
fn engine_pattern_bytes() -> (r: Vec<u8>)
    ensures
        r@ == engine_pattern(),
{
    let r: Vec<u8> = vec![109, 115, 101, 100, 103, 101, 119, 101, 98, 118, 105, 101, 119, 50];
    proof {
        assert(r@ =~= engine_pattern());
    }
    r
}

/// Decide whether a process name, compared case-insensitively, contains the
/// embedded engine's child-process name.
pub fn is_engine_process(name: &Vec<u8>) -> (r: bool)
    ensures
        r == is_engine_process_name(name@),
{
    let pat = engine_pattern_bytes();
    let ghost low = lower_bytes(name@);
    if name.len() < pat.len() {
        proof {
            assert(low.len() == name@.len());
            assert(!contains_seq(low, engine_pattern()));
        }
        return false;
    }
    let n: usize = name.len();
    let m: usize = pat.len();
    let mut i: usize = 0;
    while i <= n - m
        invariant
            pat@ == engine_pattern(),
            low == lower_bytes(name@),
            low.len() == name@.len(),
            n == name@.len(),
            m == pat@.len(),
            m <= n,
            0 <= i <= n - m + 1,
            forall|k: int| 0 <= k < i ==> !matches_at(low, pat@, k),
        decreases n - m + 1 - i,
    {
        let mut j: usize = 0;
        let mut hit = true;
        while j < m
            invariant
                pat@ == engine_pattern(),
                low == lower_bytes(name@),
                low.len() == name@.len(),
                n == name@.len(),
                m == pat@.len(),
                m <= n,
                0 <= i <= n - m,
                0 <= j <= m,
                hit == (forall|t: int| 0 <= t < j ==> low[i + t] == pat@[t]),
            decreases m - j,
        {
            let c = ascii_lower_byte(name[i + j]);
            proof {
                assert(low[i + j as int] == ascii_lower(name@[i + j as int]));
            }
            if c != pat[j] {
                hit = false;
                proof {
                    assert(low[i + j as int] != pat@[j as int]);
                }
                j = m;
            } else {
                j = j + 1;
            }
        }
        if hit {
            proof {
                assert(matches_at(low, pat@, i as int));
            }
            return true;
        }
        i = i + 1;
    }
    proof {
        assert(forall|k: int| 0 <= k <= low.len() - pat@.len() ==> !matches_at(low, pat@, k));
    }
    false
}

} // verus!
