//! Line-oriented helpers over character sequences: finding the end of the
//! current line and taking the first line of a captured output.

use vstd::prelude::*;
use vstd::string::StrSliceExecFns;

verus! {

/// Index of the first `'\n'` at or after `i`, or `s.len()` if none follows.
pub open spec fn line_end(s: Seq<char>, i: int) -> int
    decreases s.len() - i,
{
    if i < 0 || i >= s.len() {
        s.len() as int
    } else if s[i] == '\n' {
        i
    } else {
        line_end(s, i + 1)
    }
}

pub proof fn lemma_line_end(s: Seq<char>, i: int)
    requires
        0 <= i <= s.len(),
    ensures
        i <= line_end(s, i) <= s.len(),
        forall|k: int| i <= k < line_end(s, i) ==> s[k] != '\n',
        line_end(s, i) < s.len() ==> s[line_end(s, i)] == '\n',
    decreases s.len() - i,
{
    if i < s.len() && s[i] != '\n' {
        lemma_line_end(s, i + 1);
    }
}

/// The first line of a captured output: everything before the first `'\n'`,
/// with one trailing `'\r'` stripped, as a text-lines split would yield it.
pub open spec fn first_line_of(s: Seq<char>) -> Seq<char> {
    let e = line_end(s, 0);
    if e > 0 && s[e - 1] == '\r' {
        s.subrange(0, e - 1)
    } else {
        s.subrange(0, e)
    }
}

pub(crate) fn line_end_exec(s: &str, n: usize, from: usize) -> (r: usize)
    requires
        n == s@.len(),
        from <= n,
    ensures
        r as int == line_end(s@, from as int),
{
    let mut i = from;
    while i < n && s.get_char(i) != '\n'
        invariant
            from <= i <= n,
            n == s@.len(),
            line_end(s@, from as int) == line_end(s@, i as int),
        decreases n - i,
    {
        proof {
            assert(line_end(s@, i as int) == line_end(s@, i + 1));
        }
        i = i + 1;
    }
    proof {
        assert(line_end(s@, i as int) == i);
    }
    i
}

pub(crate) fn first_line(s: &str, n: usize) -> (r: &str)
    requires
        n == s@.len(),
    ensures
        r@ == first_line_of(s@),
{
    let e = line_end_exec(s, n, 0);
    proof {
        lemma_line_end(s@, 0);
    }
    if e > 0 && s.get_char(e - 1) == '\r' {
        s.substring_char(0, e - 1)
    } else {
        s.substring_char(0, e)
    }
}

} // verus!
