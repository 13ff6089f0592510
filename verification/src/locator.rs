//! The process locator: given the process table, the pid of the game
//! process — but only when exactly one command line ends with the known
//! executable suffix. Zero matches and two or more matches both yield
//! nothing, so the timer never attaches to a stale process.

use vstd::prelude::*;

use crate::text::{ends_with, ends_with_spec};

verus! {

/// One row of the process table.
pub struct ProcessEntry {
    /// The OS process id.
    pub pid: i32,
    /// The process's command line.
    pub command_line: String,
}

/// The suffix of the game executable's command line.
pub open spec fn spec_talos_suffix() -> Seq<char> {
    "/x64/Talos"@
}

/// See [`spec_talos_suffix`].
pub fn talos_suffix() -> (r: &'static str)
    ensures
        r@ == spec_talos_suffix(),
{
    "/x64/Talos"
}

/// The entry's command line ends with the game executable's suffix.
pub open spec fn entry_matches(e: ProcessEntry) -> bool {
    ends_with_spec(e.command_line@, spec_talos_suffix())
}

/// How many of the first `n` entries match.
pub open spec fn match_count(entries: Seq<ProcessEntry>, n: int) -> nat
    decreases n,
{
    if n <= 0 {
        0
    } else {
        match_count(entries, n - 1) + if entry_matches(entries[n - 1]) {
            1nat
        } else {
            0nat
        }
    }
}

/// Finds the pid of the game process: the pid of the unique entry whose
/// command line ends with the known suffix, and nothing when no entry or
/// more than one entry matches.
pub fn locate_talos(entries: &Vec<ProcessEntry>) -> (r: Option<i32>)
    ensures
        match_count(entries@, entries@.len() as int) != 1 ==> r is None,
        match_count(entries@, entries@.len() as int) == 1 ==> (exists|i: int|
            0 <= i < entries@.len() && entry_matches(entries@[i]) && r == Some(entries@[i].pid)),
{
    let suffix = talos_suffix();
    let mut found: Option<i32> = None;
    let mut idx: usize = 0;
    while idx < entries.len()
        invariant
            idx <= entries@.len(),
            suffix@ == spec_talos_suffix(),
            match found {
                None => match_count(entries@, idx as int) == 0,
                Some(pid) => match_count(entries@, idx as int) == 1 && (exists|i: int|
                    0 <= i < idx && entry_matches(entries@[i]) && pid == entries@[i].pid),
            },
        decreases entries@.len() - idx,
    {
        let matched = ends_with(entries[idx].command_line.as_str(), suffix);
        proof {
            assert(match_count(entries@, idx as int + 1) == match_count(entries@, idx as int)
                + if entry_matches(entries@[idx as int]) {
                1nat
            } else {
                0nat
            });
        }
        if matched {
            if found.is_some() {
                proof {
                    lemma_match_count_monotonic(entries@, idx as int + 1, entries@.len() as int);
                }
                return None;
            }
            found = Some(entries[idx].pid);
        }
        idx += 1;
    }
    found
}

/// The match count never shrinks as more entries are scanned.
proof fn lemma_match_count_monotonic(entries: Seq<ProcessEntry>, a: int, b: int)
    requires
        a <= b,
    ensures
        match_count(entries, a) <= match_count(entries, b),
    decreases b - a,
{
    if a < b {
        lemma_match_count_monotonic(entries, a, b - 1);
    }
}

} // verus!
