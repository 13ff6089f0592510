//! The tail reader's line assembly: appended chunks of the log file are
//! folded into complete lines, and a trailing partial line stays buffered
//! for the next read. How the appended text is cut into chunks cannot
//! change which lines come out, or their order.

use vstd::prelude::*;

verus! {

/// Index of the first line terminator in `s` at or after `i`, if any.
pub open spec fn first_newline_from(s: Seq<char>, i: int) -> Option<int>
    decreases s.len() - i,
{
    if i < 0 || i >= s.len() {
        None
    } else if s[i] == '\n' {
        Some(i)
    } else {
        first_newline_from(s, i + 1)
    }
}

/// A found index is in range, holds a terminator, and is the first.
pub proof fn lemma_first_newline_some(s: Seq<char>, from: int, i: int)
    requires
        first_newline_from(s, from) == Some(i),
    ensures
        from <= i < s.len(),
        s[i] == '\n',
        forall|j: int| from <= j < i ==> s[j] != '\n',
    decreases s.len() - from,
{
    if !(from < 0 || from >= s.len()) && s[from] != '\n' {
        lemma_first_newline_some(s, from + 1, i);
    }
}

/// When the search fails, no terminator stands at or after `from`.
pub proof fn lemma_first_newline_none(s: Seq<char>, from: int)
    requires
        0 <= from,
        first_newline_from(s, from) is None,
    ensures
        forall|j: int| from <= j < s.len() ==> s[j] != '\n',
    decreases s.len() - from,
{
    if from < s.len() {
        lemma_first_newline_none(s, from + 1);
    }
}

/// The complete lines in `s`, without their terminators and in order, and
/// the trailing text after the last terminator.
pub open spec fn split_lines(s: Seq<char>) -> (Seq<Seq<char>>, Seq<char>)
    decreases s.len(),
    via split_lines_decreases
{
    match first_newline_from(s, 0) {
        None => (Seq::<Seq<char>>::empty(), s),
        Some(i) => {
            let rest = split_lines(s.subrange(i + 1, s.len() as int));
            (seq![s.subrange(0, i)] + rest.0, rest.1)
        },
    }
}

#[via_fn]
proof fn split_lines_decreases(s: Seq<char>) {
    match first_newline_from(s, 0) {
        None => {},
        Some(i) => {
            lemma_first_newline_some(s, 0, i);
        },
    }
}

/// The lines of `s`, each with its terminator restored, followed by the
/// trailing text: the inverse of `split_lines`.
pub open spec fn join_lines(lines: Seq<Seq<char>>, trailing: Seq<char>) -> Seq<char>
    decreases lines.len(),
{
    if lines.len() == 0 {
        trailing
    } else {
        lines[0] + seq!['\n'] + join_lines(lines.drop_first(), trailing)
    }
}

/// Splitting loses nothing: joining the lines and the trailing text gives
/// the input back.
pub proof fn lemma_split_lines_join(s: Seq<char>)
    ensures
        join_lines(split_lines(s).0, split_lines(s).1) == s,
    decreases s.len(),
{
    match first_newline_from(s, 0) {
        None => {},
        Some(i) => {
            lemma_first_newline_some(s, 0, i);
            let tail = s.subrange(i + 1, s.len() as int);
            lemma_split_lines_join(tail);
            let rest = split_lines(tail);
            assert((seq![s.subrange(0, i)] + rest.0).drop_first() =~= rest.0);
            assert(s.subrange(0, i) + seq!['\n'] + join_lines(rest.0, rest.1) =~= s);
        },
    }
}

/// Every line that comes out is complete: neither the lines nor the
/// trailing text hold a terminator.
pub proof fn lemma_split_lines_complete(s: Seq<char>)
    ensures
        forall|k: int, c: int|
            0 <= k < split_lines(s).0.len() && 0 <= c < split_lines(s).0[k].len()
                ==> split_lines(s).0[k][c] != '\n',
        forall|c: int|
            0 <= c < split_lines(s).1.len() ==> split_lines(s).1[c] != '\n',
    decreases s.len(),
{
    match first_newline_from(s, 0) {
        None => {
            lemma_first_newline_none(s, 0);
        },
        Some(i) => {
            lemma_first_newline_some(s, 0, i);
            let tail = s.subrange(i + 1, s.len() as int);
            lemma_split_lines_complete(tail);
            let rest = split_lines(tail);
            assert forall|k: int, c: int|
                0 <= k < split_lines(s).0.len() && 0 <= c < split_lines(s).0[k].len()
                    implies split_lines(s).0[k][c] != '\n' by {
                if k == 0 {
                    assert(split_lines(s).0[0] =~= s.subrange(0, i));
                } else {
                    assert(split_lines(s).0[k] =~= rest.0[k - 1]);
                }
            }
        },
    }
}

/// How the appended text is cut into chunks cannot matter: feeding `s`
/// then `t` delivers the same lines, in the same order, as feeding `s + t`
/// at once.
pub proof fn lemma_chunks_deliver_same_lines(s: Seq<char>, t: Seq<char>)
    ensures
        split_lines(s + t).0 == split_lines(s).0 + split_lines(split_lines(s).1 + t).0,
        split_lines(s + t).1 == split_lines(split_lines(s).1 + t).1,
    decreases s.len(),
{
    match first_newline_from(s, 0) {
        None => {
            assert(split_lines(s).1 + t =~= s + t);
            assert(split_lines(s).0 + split_lines(s + t).0 =~= split_lines(s + t).0);
        },
        Some(i) => {
            lemma_first_newline_some(s, 0, i);
            lemma_first_newline_prefix(s, t, 0, i);
            let s1 = s.subrange(i + 1, s.len() as int);
            assert((s + t).subrange(0, i) =~= s.subrange(0, i));
            assert((s + t).subrange(i + 1, (s + t).len() as int) =~= s1 + t);
            lemma_chunks_deliver_same_lines(s1, t);
            assert(seq![s.subrange(0, i)] + (split_lines(s1).0 + split_lines(
                split_lines(s1).1 + t,
            ).0) =~= (seq![s.subrange(0, i)] + split_lines(s1).0) + split_lines(
                split_lines(s1).1 + t,
            ).0);
        },
    }
}

/// A terminator found in `s` is still the first one after `t` is appended.
proof fn lemma_first_newline_prefix(s: Seq<char>, t: Seq<char>, from: int, i: int)
    requires
        first_newline_from(s, from) == Some(i),
    ensures
        first_newline_from(s + t, from) == Some(i),
    decreases s.len() - from,
{
    if !(from < 0 || from >= s.len()) && s[from] != '\n' {
        lemma_first_newline_prefix(s, t, from + 1, i);
    }
}

/// The tail reader's buffer: the text read from the log since the last
/// complete line.
pub struct LineBuffer {
    pending: String,
}

impl View for LineBuffer {
    type V = Seq<char>;

    closed spec fn view(&self) -> Seq<char> {
        self.pending@
    }
}

impl LineBuffer {
    /// An empty buffer.
    pub fn new() -> (r: LineBuffer)
        ensures
            r@ == Seq::<char>::empty(),
    {
        LineBuffer { pending: String::new() }
    }

    /// Folds one appended chunk into the buffer and hands out the complete
    /// lines now available, in file order and without their terminators;
    /// the trailing partial line stays buffered.
    pub fn push_chunk(&mut self, chunk: &str) -> (lines: Vec<String>)
        ensures
            lines@.map_values(|l: String| l@) == split_lines(old(self)@ + chunk@).0,
            final(self)@ == split_lines(old(self)@ + chunk@).1,
    {
        self.pending.append(chunk);
        let mut lines: Vec<String> = Vec::new();
        loop
            invariant_except_break
                split_lines(old(self)@ + chunk@).0 == lines@.map_values(|l: String| l@)
                    + split_lines(self.pending@).0,
                split_lines(old(self)@ + chunk@).1 == split_lines(self.pending@).1,
            ensures
                lines@.map_values(|l: String| l@) == split_lines(old(self)@ + chunk@).0,
                self.pending@ == split_lines(old(self)@ + chunk@).1,
            decreases self.pending@.len(),
        {
            match find_newline(self.pending.as_str()) {
                None => {
                    proof {
                        assert(lines@.map_values(|l: String| l@) + Seq::<Seq<char>>::empty()
                            =~= lines@.map_values(|l: String| l@));
                    }
                    break ;
                },
                Some(i) => {
                    let n = self.pending.as_str().unicode_len();
                    let line = self.pending.as_str().substring_char(0, i).to_owned();
                    let rest = self.pending.as_str().substring_char(i + 1, n).to_owned();
                    proof {
                        let pend = self.pending@;
                        assert(split_lines(pend).0 =~= seq![pend.subrange(0, i as int)]
                            + split_lines(rest@).0);
                        assert((lines@.map_values(|l: String| l@) + split_lines(pend).0) =~= (
                        lines@.push(line).map_values(|l: String| l@) + split_lines(rest@).0));
                    }
                    lines.push(line);
                    self.pending = rest;
                },
            }
        }
        lines
    }
}

/// Index of the first line terminator in `s`, if any.
fn find_newline(s: &str) -> (r: Option<usize>)
    ensures
        match r {
            Some(i) => first_newline_from(s@, 0) == Some(i as int) && i < s@.len(),
            None => first_newline_from(s@, 0) is None,
        },
{
    let n = s.unicode_len();
    let mut i: usize = 0;
    while i < n
        invariant
            i <= n,
            n == s@.len(),
            first_newline_from(s@, 0) == first_newline_from(s@, i as int),
        decreases n - i,
    {
        if s.get_char(i) == '\n' {
            return Some(i);
        }
        i += 1;
    }
    None
}

} // verus!
