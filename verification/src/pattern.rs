//! Recovery of the produced file path from the tool's human-readable
//! completion messages.
//!
//! The tool announces the file it wrote in one of three message forms, each
//! a fixed prefix followed by a path ending in `.mp3`.  A form matches at a
//! position when the prefix occurs there and the rest of that line ends a
//! path in `.mp3` at least one character long.  Recovery takes the leftmost
//! match of the highest-priority form and captures greedily: the path runs
//! to the last `.mp3` on that line.

use vstd::prelude::*;
use vstd::string::StrSliceExecFns;
use vstd::string::StringExecFns;
use crate::text::{line_end, lemma_line_end, line_end_exec};

verus! {

/// The prefix `p` occurs in `s` at position `i`.
pub open spec fn prefix_at(s: Seq<char>, p: Seq<char>, i: int) -> bool {
    &&& 0 <= i
    &&& i + p.len() <= s.len()
    &&& forall|j: int| 0 <= j < p.len() ==> s[i + j] == p[j]
}

/// The four characters of `s` ending at `e` are `.mp3`.
pub open spec fn mp3_at(s: Seq<char>, e: int) -> bool {
    &&& 4 <= e <= s.len()
    &&& s[e - 4] == '.'
    &&& s[e - 3] == 'm'
    &&& s[e - 2] == 'p'
    &&& s[e - 1] == '3'
}

/// A capture starting at `start` may end at `e`: the captured text ends in
/// `.mp3`, has at least one character before it, and stays on one line.
pub open spec fn valid_end(s: Seq<char>, start: int, e: int) -> bool {
    &&& start + 5 <= e <= line_end(s, start)
    &&& mp3_at(s, e)
}

/// A completion message with prefix `p` matches at position `i` of `s`.
pub open spec fn match_at(s: Seq<char>, p: Seq<char>, i: int) -> bool {
    &&& prefix_at(s, p, i)
    &&& exists|e: int| #[trigger] valid_end(s, i + p.len(), e)
}

/// Some completion message with prefix `p` occurs in `s`.
pub open spec fn pattern_matches(s: Seq<char>, p: Seq<char>) -> bool {
    exists|i: int| match_at(s, p, i)
}

/// The greatest candidate end position in `start + 5 ..= hi` whose last four
/// characters are `.mp3`, or `-1` if there is none.
pub open spec fn last_valid_end(s: Seq<char>, start: int, hi: int) -> int
    decreases hi - start,
{
    if hi < start + 5 {
        -1
    } else if mp3_at(s, hi) {
        hi
    } else {
        last_valid_end(s, start, hi - 1)
    }
}

pub proof fn lemma_last_valid_end(s: Seq<char>, start: int, hi: int)
    ensures
        ({
            let r = last_valid_end(s, start, hi);
            &&& (r == -1 <==> forall|e: int| start + 5 <= e <= hi ==> !mp3_at(s, e))
            &&& r != -1 ==> start + 5 <= r <= hi && mp3_at(s, r) && forall|e: int|
                r < e <= hi ==> !mp3_at(s, e)
        }),
    decreases hi - start,
{
    if hi < start + 5 {
    } else if mp3_at(s, hi) {
    } else {
        lemma_last_valid_end(s, start, hi - 1);
    }
}

/// The position of the leftmost match of `p` in `s` at or after `from`,
/// or `-1` if there is none.
pub open spec fn first_match_from(s: Seq<char>, p: Seq<char>, from: int) -> int
    decreases s.len() - from,
{
    if from < 0 || from >= s.len() || from + p.len() > s.len() {
        -1
    } else if match_at(s, p, from) {
        from
    } else {
        first_match_from(s, p, from + 1)
    }
}

pub proof fn lemma_first_match_from(s: Seq<char>, p: Seq<char>, from: int)
    requires
        0 <= from,
        p.len() >= 1,
    ensures
        ({
            let r = first_match_from(s, p, from);
            &&& (r == -1 ==> forall|i: int| from <= i ==> !match_at(s, p, i))
            &&& r != -1 ==> from <= r && match_at(s, p, r) && forall|i: int|
                from <= i < r ==> !match_at(s, p, i)
        }),
    decreases s.len() - from,
{
    if from >= s.len() || from + p.len() > s.len() {
        assert forall|i: int| from <= i implies !match_at(s, p, i) by {
            assert(i + p.len() > s.len());
        }
    } else if match_at(s, p, from) {
    } else {
        lemma_first_match_from(s, p, from + 1);
    }
}

/// What a single completion form recovers from `s`: the greedy capture of
/// its leftmost match, or nothing when the form does not occur.
pub open spec fn pattern_capture(s: Seq<char>, p: Seq<char>) -> Option<Seq<char>> {
    let i = first_match_from(s, p, 0);
    if i == -1 {
        None
    } else {
        let start = i + p.len();
        Some(s.subrange(start, last_valid_end(s, start, line_end(s, start))))
    }
}

pub proof fn lemma_capture_iff_matches(s: Seq<char>, p: Seq<char>)
    requires
        p.len() >= 1,
    ensures
        pattern_capture(s, p) is Some <==> pattern_matches(s, p),
{
    lemma_first_match_from(s, p, 0);
    let r = first_match_from(s, p, 0);
    if r == -1 {
        assert forall|i: int| !match_at(s, p, i) by {
            if i < 0 {
                assert(!prefix_at(s, p, i));
            }
        }
    }
}

pub open spec fn extract_audio_prefix() -> Seq<char> {
    "[ExtractAudio] Destination: "@
}

pub open spec fn merger_prefix() -> Seq<char> {
    "[Merger] Merging formats into "@
}

pub open spec fn info_prefix() -> Seq<char> {
    "[info] "@
}

/// The recovered file path for a captured output: the three completion
/// forms are tried in priority order and the first that occurs anywhere in
/// the output decides; none occurring recovers nothing.
pub open spec fn extract_filename_spec(s: Seq<char>) -> Option<Seq<char>> {
    if pattern_capture(s, extract_audio_prefix()) is Some {
        pattern_capture(s, extract_audio_prefix())
    } else if pattern_capture(s, merger_prefix()) is Some {
        pattern_capture(s, merger_prefix())
    } else if pattern_capture(s, info_prefix()) is Some {
        pattern_capture(s, info_prefix())
    } else {
        None
    }
}

proof fn lemma_line_end_at_least(s: Seq<char>, i: int, e: int)
    requires
        0 <= i <= e <= s.len(),
        forall|k: int| i <= k < e ==> s[k] != '\n',
    ensures
        line_end(s, i) >= e,
    decreases e - i,
{
    lemma_line_end(s, i);
    if i < e {
        lemma_line_end_at_least(s, i + 1, e);
    }
}

/// Law: an output that contains a completion line — the form's prefix at
/// position `i`, followed directly by a one-line path `x` ending in `.mp3`
/// with at least one character before the extension — has a match of that
/// form at `i`.
pub proof fn lemma_contains_line_matches(s: Seq<char>, p: Seq<char>, i: int, x: Seq<char>)
    requires
        0 <= i,
        i + p.len() + x.len() <= s.len(),
        forall|j: int| 0 <= j < p.len() ==> s[i + j] == p[j],
        forall|j: int| 0 <= j < x.len() ==> s[i + p.len() + j] == x[j],
        x.len() >= 5,
        x.subrange(x.len() - 4, x.len() as int) == ".mp3"@,
        forall|j: int| 0 <= j < x.len() ==> x[j] != '\n',
    ensures
        match_at(s, p, i),
{
    reveal_strlit(".mp3");
    let start = i + p.len();
    let e = start + x.len();
    assert forall|k: int| start <= k < e implies s[k] != '\n' by {
        let j = k - start;
        assert(s[start + j] == x[j]);
        assert(x[j] != '\n');
    }
    lemma_line_end_at_least(s, start, e);
    lemma_line_end(s, start);
    assert(s[e - 4] == x[x.len() - 4] && x[x.len() - 4] == ".mp3"@[0]);
    assert(s[e - 3] == x[x.len() - 3] && x[x.len() - 3] == ".mp3"@[1]);
    assert(s[e - 2] == x[x.len() - 2] && x[x.len() - 2] == ".mp3"@[2]);
    assert(s[e - 1] == x[x.len() - 1] && x[x.len() - 1] == ".mp3"@[3]);
    assert(mp3_at(s, e));
    assert(valid_end(s, start, e));
}

/// Law: an output in which the extract-audio completion form matches
/// anywhere recovers exactly the greedy capture of the leftmost such match,
/// whatever the other forms would capture.
pub proof fn lemma_extract_audio_wins(s: Seq<char>, i: int)
    requires
        match_at(s, extract_audio_prefix(), i),
    ensures
        ({
            let f = first_match_from(s, extract_audio_prefix(), 0);
            &&& 0 <= f <= i
            &&& extract_filename_spec(s) == pattern_capture(s, extract_audio_prefix())
            &&& pattern_capture(s, extract_audio_prefix()) is Some
        }),
{
    reveal_strlit("[ExtractAudio] Destination: ");
    lemma_first_match_from(s, extract_audio_prefix(), 0);
}

/// Law: the completion forms are tried in a fixed priority order — an
/// extract-audio match beats a merger or info match, and a merger match
/// beats an info match.
pub proof fn lemma_pattern_priority(s: Seq<char>)
    ensures
        pattern_matches(s, extract_audio_prefix()) ==> extract_filename_spec(s) == pattern_capture(
            s,
            extract_audio_prefix(),
        ),
        !pattern_matches(s, extract_audio_prefix()) && pattern_matches(s, merger_prefix())
            ==> extract_filename_spec(s) == pattern_capture(s, merger_prefix()),
        !pattern_matches(s, extract_audio_prefix()) && !pattern_matches(s, merger_prefix())
            && pattern_matches(s, info_prefix()) ==> extract_filename_spec(s) == pattern_capture(
            s,
            info_prefix(),
        ),
{
    reveal_strlit("[ExtractAudio] Destination: ");
    reveal_strlit("[Merger] Merging formats into ");
    reveal_strlit("[info] ");
    lemma_capture_iff_matches(s, extract_audio_prefix());
    lemma_capture_iff_matches(s, merger_prefix());
    lemma_capture_iff_matches(s, info_prefix());
}

/// Law: when no completion form occurs anywhere in the output, no file
/// path is recovered.
pub proof fn lemma_no_match_no_name(s: Seq<char>)
    requires
        !pattern_matches(s, extract_audio_prefix()),
        !pattern_matches(s, merger_prefix()),
        !pattern_matches(s, info_prefix()),
    ensures
        extract_filename_spec(s) is None,
{
    lemma_pattern_priority(s);
    reveal_strlit("[ExtractAudio] Destination: ");
    reveal_strlit("[Merger] Merging formats into ");
    reveal_strlit("[info] ");
    lemma_capture_iff_matches(s, extract_audio_prefix());
    lemma_capture_iff_matches(s, merger_prefix());
    lemma_capture_iff_matches(s, info_prefix());
}

proof fn lemma_capture_shape(s: Seq<char>, p: Seq<char>)
    requires
        p.len() >= 1,
        pattern_capture(s, p) is Some,
    ensures
        ({
            let f = pattern_capture(s, p)->Some_0;
            &&& f.len() >= 5
            &&& f.subrange(f.len() - 4, f.len() as int) == ".mp3"@
            &&& forall|j: int| 0 <= j < f.len() ==> f[j] != '\n'
        }),
{
    lemma_first_match_from(s, p, 0);
    let i = first_match_from(s, p, 0);
    let start = i + p.len();
    lemma_line_end(s, start);
    let le = line_end(s, start);
    lemma_last_valid_end(s, start, le);
    let e = last_valid_end(s, start, le);
    assert(e != -1) by {
        let w = choose|w: int| valid_end(s, start, w);
        assert(mp3_at(s, w));
    }
    let f = pattern_capture(s, p)->Some_0;
    assert(f =~= s.subrange(start, e));
    reveal_strlit(".mp3");
    assert(f.subrange(f.len() - 4, f.len() as int) =~= ".mp3"@);
}

/// Law: any recovered file path ends in `.mp3`, has at least one character
/// before the extension, and lies within a single line of the output.
pub proof fn lemma_recovered_name_shape(s: Seq<char>)
    requires
        extract_filename_spec(s) is Some,
    ensures
        ({
            let f = extract_filename_spec(s)->Some_0;
            &&& f.len() >= 5
            &&& f.subrange(f.len() - 4, f.len() as int) == ".mp3"@
            &&& forall|j: int| 0 <= j < f.len() ==> f[j] != '\n'
        }),
{
    reveal_strlit("[ExtractAudio] Destination: ");
    reveal_strlit("[Merger] Merging formats into ");
    reveal_strlit("[info] ");
    if pattern_capture(s, extract_audio_prefix()) is Some {
        lemma_capture_shape(s, extract_audio_prefix());
    } else if pattern_capture(s, merger_prefix()) is Some {
        lemma_capture_shape(s, merger_prefix());
    } else {
        lemma_capture_shape(s, info_prefix());
    }
}

fn prefix_at_exec(s: &str, n: usize, p: &str, m: usize, i: usize) -> (r: bool)
    requires
        n == s@.len(),
        m == p@.len(),
        i + m <= n,
    ensures
        r == prefix_at(s@, p@, i as int),
{
    let mut j: usize = 0;
    while j < m
        invariant
            j <= m,
            i + m <= n,
            n == s@.len(),
            m == p@.len(),
            forall|k: int| 0 <= k < j ==> s@[i + k] == p@[k],
        decreases m - j,
    {
        if s.get_char(i + j) != p.get_char(j) {
            assert(s@[i + j as int] != p@[j as int]);
            return false;
        }
        j = j + 1;
    }
    true
}

fn mp3_at_exec(s: &str, n: usize, e: usize) -> (r: bool)
    requires
        n == s@.len(),
        e <= n,
    ensures
        r == mp3_at(s@, e as int),
{
    if e < 4 {
        return false;
    }
    s.get_char(e - 4) == '.' && s.get_char(e - 3) == 'm' && s.get_char(e - 2) == 'p' && s.get_char(
        e - 1,
    ) == '3'
}

fn last_valid_end_exec(s: &str, n: usize, start: usize, hi: usize) -> (r: Option<usize>)
    requires
        n == s@.len(),
        start <= hi <= n,
    ensures
        ({
            let l = last_valid_end(s@, start as int, hi as int);
            match r {
                Some(e) => l == e as int && start <= e <= hi,
                None => l == -1,
            }
        }),
{
    let mut e = hi;
    loop
        invariant
            start <= e <= hi <= n,
            n == s@.len(),
            last_valid_end(s@, start as int, hi as int) == last_valid_end(
                s@,
                start as int,
                e as int,
            ),
        decreases e,
    {
        if e - start < 5 {
            return None;
        }
        if mp3_at_exec(s, n, e) {
            return Some(e);
        }
        proof {
            assert(last_valid_end(s@, start as int, e as int) == last_valid_end(
                s@,
                start as int,
                e - 1,
            ));
        }
        e = e - 1;
    }
}

/// Scans `s` for the completion form with prefix `p` and returns the bounds
/// of the greedy capture of its leftmost match.
fn find_pattern(s: &str, n: usize, p: &str, m: usize) -> (r: Option<(usize, usize)>)
    requires
        n == s@.len(),
        m == p@.len(),
        m >= 1,
    ensures
        ({
            let c = pattern_capture(s@, p@);
            match r {
                Some(b) => b.0 <= b.1 <= n && c == Some(s@.subrange(b.0 as int, b.1 as int)),
                None => c is None,
            }
        }),
{
    if m > n {
        proof {
            assert(first_match_from(s@, p@, 0) == -1);
        }
        return None;
    }
    let mut i: usize = 0;
    while i <= n - m
        invariant
            i <= n - m + 1,
            m <= n,
            n == s@.len(),
            m == p@.len(),
            m >= 1,
            first_match_from(s@, p@, 0) == first_match_from(s@, p@, i as int),
        decreases n - i,
    {
        if prefix_at_exec(s, n, p, m, i) {
            let start = i + m;
            let le = line_end_exec(s, n, start);
            proof {
                lemma_line_end(s@, start as int);
            }
            match last_valid_end_exec(s, n, start, le) {
                Some(e) => {
                    proof {
                        lemma_last_valid_end(s@, start as int, le as int);
                        assert(valid_end(s@, start as int, e as int));
                        assert(match_at(s@, p@, i as int));
                        assert(first_match_from(s@, p@, i as int) == i);
                    }
                    return Some((start, e));
                },
                None => {
                    proof {
                        lemma_last_valid_end(s@, start as int, le as int);
                        assert forall|e: int| !valid_end(s@, start as int, e) by {
                            if valid_end(s@, start as int, e) {
                                assert(mp3_at(s@, e));
                            }
                        }
                        assert(!match_at(s@, p@, i as int));
                        assert(first_match_from(s@, p@, i as int) == first_match_from(
                            s@,
                            p@,
                            i + 1,
                        ));
                    }
                },
            }
        } else {
            proof {
                assert(!match_at(s@, p@, i as int));
                assert(first_match_from(s@, p@, i as int) == first_match_from(s@, p@, i + 1));
            }
        }
        i = i + 1;
    }
    proof {
        assert(first_match_from(s@, p@, i as int) == -1);
    }
    None
}

/// Recovers the produced file path from the tool's captured output by
/// trying the three completion forms in priority order; the leftmost match
/// of the first form that occurs decides, captured greedily to the last
/// `.mp3` on its line.
pub fn extract_downloaded_filename(output: &str) -> (r: Option<String>)
    ensures
        match r {
            Some(f) => extract_filename_spec(output@) == Some(f@),
            None => extract_filename_spec(output@) is None,
        },
{
    let n = output.unicode_len();
    let p1 = "[ExtractAudio] Destination: ";
    let p2 = "[Merger] Merging formats into ";
    let p3 = "[info] ";
    proof {
        reveal_strlit("[ExtractAudio] Destination: ");
        reveal_strlit("[Merger] Merging formats into ");
        reveal_strlit("[info] ");
    }
    let m1 = p1.unicode_len();
    let m2 = p2.unicode_len();
    let m3 = p3.unicode_len();
    if let Some(b) = find_pattern(output, n, p1, m1) {
        let f = output.substring_char(b.0, b.1);
        return Some(String::from_str(f));
    }
    if let Some(b) = find_pattern(output, n, p2, m2) {
        let f = output.substring_char(b.0, b.1);
        return Some(String::from_str(f));
    }
    if let Some(b) = find_pattern(output, n, p3, m3) {
        let f = output.substring_char(b.0, b.1);
        return Some(String::from_str(f));
    }
    None
}

} // verus!
