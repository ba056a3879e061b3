//! Parsing of the locate command's captured output.
//!
//! The locate command (`which git` / `where git`) may print several matches,
//! one per line.  Discovery keeps only the first: the whole output is trimmed
//! of surrounding whitespace and cut at the first line break.  Output that is
//! empty after trimming yields no candidate; the probe then simply contributes
//! nothing, and discovery moves on.

use vstd::prelude::*;

verus! {

/// ASCII whitespace, as trimmed from around the locate command's output.
pub open spec fn is_space(b: u8) -> bool {
    b == 32 || b == 9 || b == 10 || b == 13 || b == 11 || b == 12
}

/// Index of the first non-whitespace byte at or after `i`, or `s.len()`.
pub open spec fn trim_start_idx(s: Seq<u8>, i: int) -> int
    decreases s.len() - i,
{
    if i < 0 || i >= s.len() {
        s.len() as int
    } else if is_space(s[i]) {
        trim_start_idx(s, i + 1)
    } else {
        i
    }
}

/// One past the last non-whitespace byte strictly before `i`, or 0.
pub open spec fn trim_end_idx(s: Seq<u8>, i: int) -> int
    decreases i,
{
    if i <= 0 || i > s.len() {
        0
    } else if is_space(s[i - 1]) {
        trim_end_idx(s, i - 1)
    } else {
        i
    }
}

/// `s` with leading and trailing ASCII whitespace removed.
pub open spec fn spec_trimmed(s: Seq<u8>) -> Seq<u8> {
    let lo = trim_start_idx(s, 0);
    let hi = trim_end_idx(s, s.len() as int);
    if lo <= hi {
        s.subrange(lo, hi)
    } else {
        Seq::empty()
    }
}

/// Index of the first line feed at or after `i`, or `s.len()`.
pub open spec fn line_end_idx(s: Seq<u8>, i: int) -> int
    decreases s.len() - i,
{
    if i < 0 || i >= s.len() {
        s.len() as int
    } else if s[i] == 10 {
        i
    } else {
        line_end_idx(s, i + 1)
    }
}

/// The first line of `s`: everything before the first line feed, with a
/// trailing carriage return (from a CRLF line ending) dropped.
pub open spec fn spec_first_line(s: Seq<u8>) -> Seq<u8> {
    let line = s.subrange(0, line_end_idx(s, 0));
    if line.len() > 0 && line.last() == 13 {
        line.drop_last()
    } else {
        line
    }
}

/// The candidate path carried by the locate command's output: its first
/// line after trimming, or nothing when the output holds no text at all.
pub open spec fn spec_parse_locate(out: Seq<u8>) -> Option<Seq<u8>> {
    let t = spec_trimmed(out);
    if t.len() == 0 {
        None
    } else {
        Some(spec_first_line(t))
    }
}

proof fn lemma_trim_start_bounds(s: Seq<u8>, i: int)
    requires
        0 <= i <= s.len(),
    ensures
        i <= trim_start_idx(s, i) <= s.len(),
    decreases s.len() - i,
{
    if i < s.len() && is_space(s[i]) {
        lemma_trim_start_bounds(s, i + 1);
    }
}

proof fn lemma_trim_end_bounds(s: Seq<u8>, i: int)
    requires
        0 <= i <= s.len(),
    ensures
        0 <= trim_end_idx(s, i) <= i,
    decreases i,
{
    if 0 < i && is_space(s[i - 1]) {
        lemma_trim_end_bounds(s, i - 1);
    }
}

/// Copies `v[lo..hi]` into a fresh vector.
fn copy_range(v: &Vec<u8>, lo: usize, hi: usize) -> (r: Vec<u8>)
    requires
        lo <= hi <= v.len(),
    ensures
        r@ == v@.subrange(lo as int, hi as int),
{
    let mut r: Vec<u8> = Vec::new();
    let mut j: usize = lo;
    while j < hi
        invariant
            lo <= j <= hi <= v.len(),
            r@ == v@.subrange(lo as int, j as int),
        decreases hi - j,
    {
        r.push(v[j]);
        j = j + 1;
        assert(r@ =~= v@.subrange(lo as int, j as int));
    }
    r
}

/// Executable twin of `is_space`.
fn is_space_byte(b: u8) -> (r: bool)
    ensures
        r == is_space(b),
{
    b == 32 || b == 9 || b == 10 || b == 13 || b == 11 || b == 12
}

/// Extracts the candidate path from the locate command's raw output: the
/// first line after trimming surrounding whitespace, or `None` when nothing
/// is left, so that discovery can treat an empty answer as a failed probe.
pub fn parse_locate_output(output: &Vec<u8>) -> (r: Option<Vec<u8>>)
    ensures
        match r {
            Some(line) => spec_parse_locate(output@) == Some(line@),
            None => spec_parse_locate(output@) is None,
        },
{
    let ghost s = output@;
    let mut lo: usize = 0;
    while lo < output.len() && is_space_byte(output[lo])
        invariant
            0 <= lo <= s.len(),
            s == output@,
            trim_start_idx(s, 0) == trim_start_idx(s, lo as int),
        decreases s.len() - lo,
    {
        lo = lo + 1;
    }
    assert(trim_start_idx(s, lo as int) == lo);

    let mut hi: usize = output.len();
    while hi > lo && is_space_byte(output[hi - 1])
        invariant
            lo <= hi <= s.len(),
            s == output@,
            trim_end_idx(s, s.len() as int) == trim_end_idx(s, hi as int),
        decreases hi,
    {
        hi = hi - 1;
    }

    if lo >= hi {
        // Only whitespace, or nothing at all: no candidate in this output.
        proof {
            lemma_trim_start_bounds(s, lo as int);
            lemma_trim_end_bounds(s, hi as int);
        }
        assert(spec_trimmed(s).len() == 0);
        return None;
    }
    assert(trim_end_idx(s, hi as int) == hi);

    let trimmed = copy_range(output, lo, hi);
    assert(trimmed@ == spec_trimmed(s));

    let ghost t = trimmed@;
    let mut e: usize = 0;
    while e < trimmed.len() && trimmed[e] != 10
        invariant
            0 <= e <= t.len(),
            t == trimmed@,
            line_end_idx(t, 0) == line_end_idx(t, e as int),
        decreases t.len() - e,
    {
        e = e + 1;
    }
    assert(line_end_idx(t, e as int) == e);

    let mut line = copy_range(&trimmed, 0, e);
    if line.len() > 0 && line[line.len() - 1] == 13 {
        let _last = line.pop();
        assert(line@ =~= t.subrange(0, e as int).drop_last());
    }
    Some(line)
}

} // verus!
