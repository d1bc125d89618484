//! Small helpers on text: equality of string slices and access to their
//! characters.

use vstd::prelude::*;
use vstd::string::*;
use vstd::utf8::*;

verus! {

/// Whether two string slices hold the same characters.
pub fn same_text(a: &str, b: &str) -> (r: bool)
    ensures
        r == (a@ == b@),
{
    broadcast use encode_utf8_decode_utf8;

    let x = a.as_bytes();
    let y = b.as_bytes();
    if x.len() != y.len() {
        return false;
    }
    let mut i: usize = 0;
    while i < x.len()
        invariant
            x@ == a.spec_bytes(),
            y@ == b.spec_bytes(),
            x.len() == y.len(),
            i <= x.len(),
            forall|j: int| 0 <= j < i ==> x@[j] == y@[j],
        decreases x.len() - i,
    {
        if x[i] != y[i] {
            return false;
        }
        i += 1;
    }
    proof {
        assert(x@ =~= y@);
        assert(decode_utf8(encode_utf8(a@)) == a@);
        assert(decode_utf8(encode_utf8(b@)) == b@);
    }
    true
}

/// The characters of a string slice, in order.
pub fn chars_of(s: &str) -> (r: Vec<char>)
    ensures
        r@ == s@,
{
    let mut out: Vec<char> = Vec::new();
    for c in it: s.chars()
        invariant
            out@ == it.seq().take(it.index() as int),
            it.seq() == s@,
    {
        out.push(c);
    }
    out
}

/// Whether a character is white space in the sense of `char::is_whitespace`:
/// whether it has the Unicode property White_Space.
pub uninterp spec fn white_space(c: char) -> bool;

/// Whether a character is white space.
///
/// Calls `char::is_whitespace`, and names what it returns: the answer
/// depends on the character alone.
#[verifier::external_body]
pub(crate) fn is_white_space(c: char) -> (r: bool)
    ensures
        r == white_space(c),
{
    c.is_whitespace()
}

/// A text without the white space at its start.
pub open spec fn trim_start(t: Seq<char>) -> Seq<char>
    decreases t.len(),
{
    if t.len() > 0 && white_space(t[0]) {
        trim_start(t.drop_first())
    } else {
        t
    }
}

/// A text without the white space at its end.
pub open spec fn trim_end(t: Seq<char>) -> Seq<char>
    decreases t.len(),
{
    if t.len() > 0 && white_space(t.last()) {
        trim_end(t.drop_last())
    } else {
        t
    }
}

/// A text without the white space at its start and at its end.
pub open spec fn trimmed(t: Seq<char>) -> Seq<char> {
    trim_end(trim_start(t))
}

proof fn lemma_trim_start(t: Seq<char>, lo: int)
    requires
        0 <= lo <= t.len(),
        forall|j: int| 0 <= j < lo ==> white_space(t[j]),
        lo < t.len() ==> !white_space(t[lo]),
    ensures
        trim_start(t) == t.subrange(lo, t.len() as int),
    decreases lo,
{
    if lo == 0 {
        assert(t.subrange(0, t.len() as int) =~= t);
    } else {
        let rest = t.drop_first();
        assert forall|j: int| 0 <= j < lo - 1 implies white_space(rest[j]) by {
            assert(rest[j] == t[j + 1]);
        }
        lemma_trim_start(rest, lo - 1);
        assert(rest.subrange(lo - 1, rest.len() as int) =~= t.subrange(lo, t.len() as int));
    }
}

proof fn lemma_trim_end(t: Seq<char>, hi: int)
    requires
        0 <= hi <= t.len(),
        forall|j: int| hi <= j < t.len() ==> white_space(t[j]),
        hi > 0 ==> !white_space(t[hi - 1]),
    ensures
        trim_end(t) == t.subrange(0, hi),
    decreases t.len() - hi,
{
    if hi == t.len() {
        assert(t.subrange(0, hi) =~= t);
    } else {
        let rest = t.drop_last();
        lemma_trim_end(rest, hi);
        assert(rest.subrange(0, hi) =~= t.subrange(0, hi));
    }
}

/// Where the text of `chars` starts and ends once the white space around it
/// is left out.
pub fn trim_bounds(chars: &Vec<char>) -> (r: (usize, usize))
    ensures
        r.0 <= r.1 <= chars@.len(),
        chars@.subrange(r.0 as int, r.1 as int) == trimmed(chars@),
{
    let n = chars.len();
    let mut lo: usize = 0;
    while lo < n && is_white_space(chars[lo])
        invariant
            n == chars@.len(),
            lo <= n,
            forall|j: int| 0 <= j < lo ==> white_space(chars@[j]),
        decreases n - lo,
    {
        lo += 1;
    }
    let mut hi: usize = n;
    while hi > lo && is_white_space(chars[hi - 1])
        invariant
            n == chars@.len(),
            lo <= hi <= n,
            forall|j: int| hi <= j < n ==> white_space(chars@[j]),
        decreases hi,
    {
        hi -= 1;
    }
    proof {
        let t = chars@;
        let tail = t.subrange(lo as int, n as int);
        lemma_trim_start(t, lo as int);
        assert forall|j: int| hi - lo <= j < tail.len() implies white_space(tail[j]) by {
            assert(tail[j] == t[j + lo]);
        }
        lemma_trim_end(tail, hi - lo);
        assert(tail.subrange(0, hi - lo) =~= t.subrange(lo as int, hi as int));
    }
    (lo, hi)
}

} // verus!
