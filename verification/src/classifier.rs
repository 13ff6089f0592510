//! The event classifier: a pure, deterministic mapping from one log line
//! (without its terminator) to at most one gameplay event. The patterns are
//! hard-wired to the game's known log vocabulary; a line that matches none
//! of them yields no event. The only classification failure is a
//! simulation-start line whose load-time text is not a decimal number.

use vstd::prelude::*;

use crate::text::{contains_pat, contains_sub, find_from, first_match_from, match_at, match_here};

verus! {

/// A gameplay event recognized in one log line.
#[derive(Clone, PartialEq, Eq, Debug)]
pub enum Event {
    /// The game began loading another world; the payload is the world's
    /// resource path, taken verbatim from the line.
    WorldChanged { world: String },
    /// A simulation started on a world after loading for the given time;
    /// the load time is kept as the unparsed decimal text.
    SimulationStarted { world: String, load_seconds: String },
    /// The running simulation stopped.
    SimulationStopped,
    /// The player profile was written out.
    ProfileSaved,
    /// A sigil was picked up.
    ItemPicked,
    /// A tetromino puzzle was solved.
    PuzzleSolved,
    /// The player entered a console command; the payload is the whole line.
    UserCommand { text: String },
    /// The game queued a delayed progress save.
    DelayedSaveRequested,
}

/// The mathematical image of an [`Event`], over character sequences.
pub enum SpecEvent {
    WorldChanged { world: Seq<char> },
    SimulationStarted { world: Seq<char>, load_seconds: Seq<char> },
    SimulationStopped,
    ProfileSaved,
    ItemPicked,
    PuzzleSolved,
    UserCommand { text: Seq<char> },
    DelayedSaveRequested,
}

impl View for Event {
    type V = SpecEvent;

    open spec fn view(&self) -> SpecEvent {
        match self {
            Event::WorldChanged { world } => SpecEvent::WorldChanged { world: world@ },
            Event::SimulationStarted { world, load_seconds } => SpecEvent::SimulationStarted {
                world: world@,
                load_seconds: load_seconds@,
            },
            Event::SimulationStopped => SpecEvent::SimulationStopped,
            Event::ProfileSaved => SpecEvent::ProfileSaved,
            Event::ItemPicked => SpecEvent::ItemPicked,
            Event::PuzzleSolved => SpecEvent::PuzzleSolved,
            Event::UserCommand { text } => SpecEvent::UserCommand { text: text@ },
            Event::DelayedSaveRequested => SpecEvent::DelayedSaveRequested,
        }
    }
}

/// The one way classification itself can fail.
#[derive(Clone, Copy, PartialEq, Eq, Structural, Debug)]
pub enum ClassifyError {
    /// A simulation-start line carried load-time text that is not a
    /// decimal number.
    MalformedLoadSeconds,
}

/// `c` is an ASCII digit.
pub open spec fn is_digit(c: char) -> bool {
    '0' <= c && c <= '9'
}

/// Every character of `t` in `[a, b)` is an ASCII digit.
pub open spec fn all_digits_range(t: Seq<char>, a: int, b: int) -> bool {
    forall|k: int| a <= k < b ==> is_digit(t[k])
}

/// `t` is a decimal number: digits, or digits around a single point.
pub open spec fn is_decimal_text(t: Seq<char>) -> bool {
    t.len() >= 1 && (all_digits_range(t, 0, t.len() as int) || (exists|d: int|
        1 <= d <= t.len() - 2 && t[d] == '.' && all_digits_range(t, 0, d) && all_digits_range(
            t,
            d + 1,
            t.len() as int,
        )))
}

/// The world path of a `Started loading world "<path>"` line: the
/// non-empty text between the quote after the first marker and the next
/// quote.
pub open spec fn loading_world_of(s: Seq<char>) -> Option<Seq<char>> {
    match first_match_from(s, "Started loading world \""@, 0) {
        None => None,
        Some(i) => {
            let start = i + "Started loading world \""@.len();
            match first_match_from(s, "\""@, start) {
                None => None,
                Some(j) => if j > start {
                    Some(s.subrange(start, j))
                } else {
                    None
                },
            }
        },
    }
}

/// The world path and load-time text of a
/// `Started simulation on '<path>' in <seconds> seconds.` line.
pub open spec fn simulation_started_of(s: Seq<char>) -> Option<(Seq<char>, Seq<char>)> {
    match first_match_from(s, "Started simulation on '"@, 0) {
        None => None,
        Some(i) => {
            let start = i + "Started simulation on '"@.len();
            match first_match_from(s, "'"@, start) {
                None => None,
                Some(j) => if j > start && match_at(s, " in "@, j + 1) {
                    let k = j + 1 + " in "@.len();
                    match first_match_from(s, " seconds."@, k) {
                        None => None,
                        Some(l) => Some((s.subrange(start, j), s.subrange(k, l))),
                    }
                } else {
                    None
                },
            }
        },
    }
}

/// A `Puzzle "<name>" solved` line: a non-empty quoted name after the
/// marker, followed directly by ` solved`.
pub open spec fn puzzle_solved_matches(s: Seq<char>) -> bool {
    match first_match_from(s, "Puzzle \""@, 0) {
        None => false,
        Some(i) => {
            let start = i + "Puzzle \""@.len();
            match first_match_from(s, "\""@, start) {
                None => false,
                Some(j) => j > start && match_at(s, " solved"@, j + 1),
            }
        },
    }
}

/// The world path of a `Changing over to <path>` line: the non-empty rest
/// of the line after the marker.
pub open spec fn changing_world_of(s: Seq<char>) -> Option<Seq<char>> {
    match first_match_from(s, "Changing over to "@, 0) {
        None => None,
        Some(i) => {
            let start = i + "Changing over to "@.len();
            if start < s.len() {
                Some(s.subrange(start, s.len() as int))
            } else {
                None
            }
        },
    }
}

/// What the classifier returns for a line: the first pattern that matches
/// wins, a malformed load time on a simulation-start line is an error, and
/// a line matching no pattern yields no event.
pub open spec fn classify_spec(s: Seq<char>) -> Result<Option<SpecEvent>, ClassifyError> {
    match loading_world_of(s) {
        Some(w) => Ok(Some(SpecEvent::WorldChanged { world: w })),
        None => match simulation_started_of(s) {
            Some((w, sec)) => if is_decimal_text(sec) {
                Ok(Some(SpecEvent::SimulationStarted { world: w, load_seconds: sec }))
            } else {
                Err(ClassifyError::MalformedLoadSeconds)
            },
            None => if contains_pat(s, "Stopping simulation (duration: "@) {
                Ok(Some(SpecEvent::SimulationStopped))
            } else if contains_pat(s, "Player profile saved"@) {
                Ok(Some(SpecEvent::ProfileSaved))
            } else if puzzle_solved_matches(s) {
                Ok(Some(SpecEvent::PuzzleSolved))
            } else if contains_pat(s, "Picked:"@) {
                Ok(Some(SpecEvent::ItemPicked))
            } else if contains_pat(s, "USER:"@) {
                Ok(Some(SpecEvent::UserCommand { text: s }))
            } else {
                match changing_world_of(s) {
                    Some(w) => Ok(Some(SpecEvent::WorldChanged { world: w })),
                    None => if contains_pat(s, "Save Talos Progress: delayed request"@) {
                        Ok(Some(SpecEvent::DelayedSaveRequested))
                    } else {
                        Ok(None)
                    },
                }
            },
        },
    }
}

/// A line in which none of the classifier's markers occurs yields no
/// event, whatever else it holds.
pub proof fn lemma_unmatched_line_has_no_event(s: Seq<char>)
    requires
        !contains_pat(s, "Started loading world \""@),
        !contains_pat(s, "Started simulation on '"@),
        !contains_pat(s, "Stopping simulation (duration: "@),
        !contains_pat(s, "Player profile saved"@),
        !contains_pat(s, "Puzzle \""@),
        !contains_pat(s, "Picked:"@),
        !contains_pat(s, "USER:"@),
        !contains_pat(s, "Changing over to "@),
        !contains_pat(s, "Save Talos Progress: delayed request"@),
    ensures
        classify_spec(s) == Ok::<Option<SpecEvent>, ClassifyError>(None),
{
}

/// Scans for the world path of a `Started loading world "<path>"` line.
fn scan_loading_world(s: &str) -> (r: Option<String>)
    ensures
        r matches Some(w) ==> loading_world_of(s@) == Some(w@),
        r is None ==> loading_world_of(s@) is None,
{
    let mark = "Started loading world \"";
    match find_from(s, mark, 0) {
        None => None,
        Some(i) => {
            let start = i + mark.unicode_len();
            match find_from(s, "\"", start) {
                None => None,
                Some(j) => if j > start {
                    Some(s.substring_char(start, j).to_owned())
                } else {
                    None
                },
            }
        },
    }
}

/// Scans for the world path and load-time text of a simulation-start line.
fn scan_simulation_started(s: &str) -> (r: Option<(String, String)>)
    ensures
        r matches Some(p) ==> simulation_started_of(s@) == Some((p.0@, p.1@)),
        r is None ==> simulation_started_of(s@) is None,
{
    let n = s.unicode_len();
    let mark = "Started simulation on '";
    match find_from(s, mark, 0) {
        None => None,
        Some(i) => {
            let start = i + mark.unicode_len();
            match find_from(s, "'", start) {
                None => None,
                Some(j) => {
                    let infix = " in ";
                    let infix_len = infix.unicode_len();
                    let after_quote = j + 1;
                    if j > start && infix_len <= n - after_quote && match_here(
                        s,
                        infix,
                        after_quote,
                    ) {
                        let k = after_quote + infix_len;
                        match find_from(s, " seconds.", k) {
                            None => None,
                            Some(l) => Some(
                                (
                                    s.substring_char(start, j).to_owned(),
                                    s.substring_char(k, l).to_owned(),
                                ),
                            ),
                        }
                    } else {
                        proof {
                            if j + 1 + " in "@.len() > s@.len() {
                                assert(!match_at(s@, " in "@, j + 1));
                            }
                        }
                        None
                    }
                },
            }
        },
    }
}

/// Whether the line is a `Puzzle "<name>" solved` line.
fn scan_puzzle_solved(s: &str) -> (r: bool)
    ensures
        r == puzzle_solved_matches(s@),
{
    let n = s.unicode_len();
    let mark = "Puzzle \"";
    match find_from(s, mark, 0) {
        None => false,
        Some(i) => {
            let start = i + mark.unicode_len();
            match find_from(s, "\"", start) {
                None => false,
                Some(j) => {
                    let tail = " solved";
                    let tail_len = tail.unicode_len();
                    let after_quote = j + 1;
                    if j > start && tail_len <= n - after_quote {
                        match_here(s, tail, after_quote)
                    } else {
                        proof {
                            if j + 1 + " solved"@.len() > s@.len() {
                                assert(!match_at(s@, " solved"@, j + 1));
                            }
                        }
                        false
                    }
                },
            }
        },
    }
}

/// Scans for the world path of a `Changing over to <path>` line.
fn scan_changing_world(s: &str) -> (r: Option<String>)
    ensures
        r matches Some(w) ==> changing_world_of(s@) == Some(w@),
        r is None ==> changing_world_of(s@) is None,
{
    let n = s.unicode_len();
    let mark = "Changing over to ";
    match find_from(s, mark, 0) {
        None => None,
        Some(i) => {
            let start = i + mark.unicode_len();
            if start < n {
                Some(s.substring_char(start, n).to_owned())
            } else {
                None
            }
        },
    }
}

/// Whether `t` is a decimal number: digits, or digits around one point.
pub fn check_decimal(t: &str) -> (r: bool)
    ensures
        r == is_decimal_text(t@),
{
    let n = t.unicode_len();
    if n == 0 {
        return false;
    }
    match find_dot(t) {
        None => {
            let r = all_digits(t, 0, n);
            proof {
                if !r {
                    let bad = choose|k: int| 0 <= k < n && !is_digit(t@[k]);
                    assert forall|d: int|
                        !(1 <= d <= t@.len() - 2 && t@[d] == '.' && all_digits_range(t@, 0, d)
                            && all_digits_range(t@, d + 1, t@.len() as int)) by {
                        if 1 <= d <= t@.len() - 2 && t@[d] == '.' {
                            assert(!is_digit(t@[d]));
                        }
                    }
                }
            }
            r
        },
        Some(d) => {
            if d == 0 || d > n - 2 {
                proof {
                    lemma_decimal_needs_inner_dot(t@, d as int);
                }
                false
            } else {
                let r = all_digits(t, 0, d) && all_digits(t, d + 1, n);
                proof {
                    if !r {
                        lemma_unique_dot(t@, d as int);
                    }
                }
                r
            }
        },
    }
}

/// A dot at the boundary of `t` rules the dotted decimal form out, and the
/// all-digit form too.
proof fn lemma_decimal_needs_inner_dot(t: Seq<char>, d: int)
    requires
        0 <= d < t.len(),
        t[d] == '.',
        forall|k: int| 0 <= k < d ==> t[k] != '.',
        d == 0 || d > t.len() - 2,
    ensures
        !is_decimal_text(t),
{
    assert(!is_digit(t[d]));
    if exists|e: int|
        1 <= e <= t.len() - 2 && t[e] == '.' && all_digits_range(t, 0, e) && all_digits_range(
            t,
            e + 1,
            t.len() as int,
        ) {
        let e = choose|e: int|
            1 <= e <= t.len() - 2 && t[e] == '.' && all_digits_range(t, 0, e) && all_digits_range(
                t,
                e + 1,
                t.len() as int,
            );
        assert(e != d);
        if e < d {
            assert(t[e] != '.');
        } else {
            assert(is_digit(t[d]));
        }
    }
}

/// If the digit checks around the first dot fail, no dot position at all
/// satisfies the dotted decimal form.
proof fn lemma_unique_dot(t: Seq<char>, d: int)
    requires
        1 <= d <= t.len() - 2,
        t[d] == '.',
        forall|k: int| 0 <= k < d ==> t[k] != '.',
        !(all_digits_range(t, 0, d) && all_digits_range(t, d + 1, t.len() as int)),
    ensures
        !is_decimal_text(t),
{
    assert(!is_digit(t[d]));
    if exists|e: int|
        1 <= e <= t.len() - 2 && t[e] == '.' && all_digits_range(t, 0, e) && all_digits_range(
            t,
            e + 1,
            t.len() as int,
        ) {
        let e = choose|e: int|
            1 <= e <= t.len() - 2 && t[e] == '.' && all_digits_range(t, 0, e) && all_digits_range(
                t,
                e + 1,
                t.len() as int,
            );
        if e < d {
            assert(t[e] != '.');
        } else if e > d {
            assert(is_digit(t[d]));
        }
    }
}

/// Index of the first `.` in `t`, if any.
fn find_dot(t: &str) -> (r: Option<usize>)
    ensures
        r matches Some(d) ==> 0 <= d < t@.len() && t@[d as int] == '.' && (forall|k: int|
            0 <= k < d ==> t@[k] != '.'),
        r is None ==> forall|k: int| 0 <= k < t@.len() ==> t@[k] != '.',
{
    let n = t.unicode_len();
    let mut i: usize = 0;
    while i < n
        invariant
            i <= n,
            n == t@.len(),
            forall|k: int| 0 <= k < i ==> t@[k] != '.',
        decreases n - i,
    {
        if t.get_char(i) == '.' {
            return Some(i);
        }
        i += 1;
    }
    None
}

/// Every character of `t` in `[a, b)` is an ASCII digit.
fn all_digits(t: &str, a: usize, b: usize) -> (r: bool)
    requires
        a <= b <= t@.len(),
        t@.len() <= usize::MAX,
    ensures
        r == all_digits_range(t@, a as int, b as int),
{
    let mut i: usize = a;
    while i < b
        invariant
            a <= i <= b <= t@.len(),
            t@.len() <= usize::MAX,
            forall|k: int| a <= k < i ==> is_digit(t@[k]),
        decreases b - i,
    {
        let c = t.get_char(i);
        if !(c >= '0' && c <= '9') {
            return false;
        }
        i += 1;
    }
    true
}

/// Classifies one log line (without its terminator) into at most one
/// event, exactly as `classify_spec` states.
pub fn classify(line: &str) -> (r: Result<Option<Event>, ClassifyError>)
    ensures
        r matches Ok(o) ==> match o {
            Some(e) => classify_spec(line@) == Ok::<Option<SpecEvent>, ClassifyError>(Some(e@)),
            None => classify_spec(line@) == Ok::<Option<SpecEvent>, ClassifyError>(None),
        },
        r matches Err(e) ==> classify_spec(line@) == Err::<Option<SpecEvent>, ClassifyError>(e),
{
    if let Some(world) = scan_loading_world(line) {
        return Ok(Some(Event::WorldChanged { world }));
    }
    if let Some((world, load_seconds)) = scan_simulation_started(line) {
        if check_decimal(load_seconds.as_str()) {
            return Ok(Some(Event::SimulationStarted { world, load_seconds }));
        } else {
            return Err(ClassifyError::MalformedLoadSeconds);
        }
    }
    if contains_sub(line, "Stopping simulation (duration: ") {
        return Ok(Some(Event::SimulationStopped));
    }
    if contains_sub(line, "Player profile saved") {
        return Ok(Some(Event::ProfileSaved));
    }
    if scan_puzzle_solved(line) {
        return Ok(Some(Event::PuzzleSolved));
    }
    if contains_sub(line, "Picked:") {
        return Ok(Some(Event::ItemPicked));
    }
    if contains_sub(line, "USER:") {
        return Ok(Some(Event::UserCommand { text: line.to_owned() }));
    }
    if let Some(world) = scan_changing_world(line) {
        return Ok(Some(Event::WorldChanged { world }));
    }
    if contains_sub(line, "Save Talos Progress: delayed request") {
        return Ok(Some(Event::DelayedSaveRequested));
    }
    Ok(None)
}

} // verus!
