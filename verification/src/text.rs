//! Trimming of the identity line received from the terminal agent.
//!
//! The agent sends one ASCII line, terminated in whatever end-of-line style
//! its platform uses; the stored identity is that line with its trailing
//! whitespace — so with any line terminator — removed, and nothing else
//! altered.

use vstd::prelude::*;

verus! {

/// The whitespace characters the trimmer removes from the tail: the ASCII
/// whitespace set, which covers every conventional line-terminator style.
pub open spec fn is_space(c: char) -> bool {
    c == ' ' || c == '\t' || c == '\n' || c == '\r' || c == '\x0b' || c == '\x0c'
}

/// `s` with its trailing whitespace removed; the rest of `s`, leading
/// whitespace included, stays as it is.
pub open spec fn trim_back(s: Seq<char>) -> Seq<char>
    decreases s.len(),
{
    if s.len() > 0 && is_space(s.last()) {
        trim_back(s.drop_last())
    } else {
        s
    }
}

/// Whether `c` is one of the whitespace characters the trimmer removes.
pub fn is_space_char(c: char) -> (r: bool)
    ensures
        r == is_space(c),
{
    c == ' ' || c == '\t' || c == '\n' || c == '\r' || c == '\x0b' || c == '\x0c'
}

proof fn lemma_trim_back_take_all(s: Seq<char>, k: int)
    requires
        0 <= k <= s.len(),
        forall|i: int| k <= i < s.len() ==> is_space(s[i]),
        k > 0 ==> !is_space(s[k - 1]),
    ensures
        trim_back(s) == s.take(k),
    decreases s.len() - k,
{
    if k == s.len() {
        assert(s.take(k) =~= s);
    } else {
        assert(is_space(s.last()));
        let t = s.drop_last();
        lemma_trim_back_take_all(t, k);
        assert(t.take(k) =~= s.take(k));
    }
}

/// `s` with its trailing whitespace removed, as the handshake stores the
/// identity line: the line terminator goes, everything before it stays.
pub fn trim_trailing(s: &str) -> (r: String)
    ensures
        r@ == trim_back(s@),
{
    let n = s.unicode_len();
    let mut end: usize = n;
    while end > 0 && is_space_char(s.get_char(end - 1))
        invariant
            0 <= end <= n,
            n == s@.len(),
            forall|i: int| end <= i < n ==> is_space(s@[i]),
        decreases end,
    {
        end = end - 1;
    }
    let piece = s.substring_char(0, end);
    proof {
        lemma_trim_back_take_all(s@, end as int);
        assert(s@.take(end as int) =~= s@.subrange(0, end as int));
    }
    piece.to_owned()
}

/// Law: a tail-trimmed sequence never ends in whitespace.
pub proof fn lemma_trim_back_no_trailing_space(s: Seq<char>)
    ensures
        trim_back(s).len() > 0 ==> !is_space(trim_back(s).last()),
    decreases s.len(),
{
    if s.len() > 0 && is_space(s.last()) {
        lemma_trim_back_no_trailing_space(s.drop_last());
    }
}

/// Law: whatever line-terminator style the agent used, the trimmed identity
/// line never ends in a newline or a carriage return.
pub proof fn lemma_trimmed_no_trailing_newline(s: Seq<char>)
    ensures
        trim_back(s).len() > 0 ==> trim_back(s).last() != '\n' && trim_back(s).last() != '\r',
{
    lemma_trim_back_no_trailing_space(s);
}

} // verus!
