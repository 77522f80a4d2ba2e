//! Interpretation of interactive input: trimming surrounding whitespace and
//! turning a menu choice into an index.

use vstd::prelude::*;

verus! {

/// Whether `b` is ASCII whitespace: space, tab, line feed, vertical tab,
/// form feed or carriage return.
pub open spec fn is_ascii_space(b: u8) -> bool {
    b == 32 || b == 9 || b == 10 || b == 11 || b == 12 || b == 13
}

/// How many whitespace bytes `s` starts with.
pub open spec fn leading_spaces(s: Seq<u8>) -> nat
    decreases s.len(),
{
    if s.len() == 0 {
        0
    } else if is_ascii_space(s[0]) {
        1 + leading_spaces(s.drop_first())
    } else {
        0
    }
}

/// How many whitespace bytes `s` ends with.
pub open spec fn trailing_spaces(s: Seq<u8>) -> nat
    decreases s.len(),
{
    if s.len() == 0 {
        0
    } else if is_ascii_space(s.last()) {
        1 + trailing_spaces(s.drop_last())
    } else {
        0
    }
}

/// `s` without its leading and trailing whitespace.
pub open spec fn spec_trim(s: Seq<u8>) -> Seq<u8> {
    if leading_spaces(s) == s.len() {
        Seq::empty()
    } else {
        s.subrange(leading_spaces(s) as int, s.len() - trailing_spaces(s) as int)
    }
}

/// The leading-space count is where the characterisation says: whitespace
/// everywhere before it, and either the end or a non-whitespace byte at it.
proof fn lemma_leading_spaces_is(s: Seq<u8>, m: int)
    requires
        0 <= m <= s.len(),
        forall|k: int| 0 <= k < m ==> is_ascii_space(s[k]),
        m < s.len() ==> !is_ascii_space(s[m]),
    ensures
        leading_spaces(s) == m,
    decreases s.len(),
{
    if s.len() == 0 {
    } else if !is_ascii_space(s[0]) {
        assert(m == 0);
    } else {
        assert(m >= 1);
        let t = s.drop_first();
        assert(forall|k: int| 0 <= k < m - 1 ==> t[k] == s[k + 1] && is_ascii_space(s[k + 1]));
        lemma_leading_spaces_is(t, m - 1);
    }
}

/// The trailing-space count is where the characterisation says: whitespace
/// everywhere after it, counted from the end.
proof fn lemma_trailing_spaces_is(s: Seq<u8>, m: int)
    requires
        0 <= m <= s.len(),
        forall|k: int| s.len() - m <= k < s.len() ==> is_ascii_space(s[k]),
        m < s.len() ==> !is_ascii_space(s[s.len() - 1 - m]),
    ensures
        trailing_spaces(s) == m,
    decreases s.len(),
{
    if s.len() == 0 {
    } else if !is_ascii_space(s.last()) {
        assert(m == 0);
    } else {
        assert(m >= 1);
        let t = s.drop_last();
        assert(forall|k: int| t.len() - (m - 1) <= k < t.len() ==> t[k] == s[k] && is_ascii_space(
            s[k],
        ));
        lemma_trailing_spaces_is(t, m - 1);
    }
}

/// Whether `b` is ASCII whitespace (see [`is_ascii_space`]).
fn is_space_byte(b: u8) -> (r: bool)
    ensures
        r == is_ascii_space(b),
{
    b == 32 || b == 9 || b == 10 || b == 11 || b == 12 || b == 13
}

/// `s` without its leading and trailing ASCII whitespace, as raw input is
/// cleaned before it is interpreted.
pub fn trim_ascii_spaces(s: &Vec<u8>) -> (r: Vec<u8>)
    ensures
        r@ == spec_trim(s@),
{
    let mut a: usize = 0;
    while a < s.len() && is_space_byte(s[a])
        invariant
            a <= s@.len(),
            forall|k: int| 0 <= k < a ==> is_ascii_space(s@[k]),
        decreases s@.len() - a,
    {
        a += 1;
    }
    proof {
        lemma_leading_spaces_is(s@, a as int);
    }
    let mut b: usize = s.len();
    while b > a && is_space_byte(s[b - 1])
        invariant
            a <= b <= s@.len(),
            forall|k: int| b <= k < s@.len() ==> is_ascii_space(s@[k]),
        decreases b,
    {
        b -= 1;
    }
    proof {
        if a < s@.len() {
            assert(b > a) by {
                if b == a {
                    assert(is_ascii_space(s@[a as int]));
                }
            }
            lemma_trailing_spaces_is(s@, s@.len() - b);
        }
    }
    let mut out: Vec<u8> = Vec::new();
    let mut i: usize = a;
    while i < b
        invariant
            a <= i <= b <= s@.len(),
            out@ == s@.subrange(a as int, i as int),
        decreases b - i,
    {
        out.push(s[i]);
        proof {
            assert(out@ =~= s@.subrange(a as int, i + 1));
        }
        i += 1;
    }
    proof {
        if a == s@.len() {
            assert(out@ =~= Seq::<u8>::empty());
        }
    }
    out
}

/// Picks a domain from a menu of `count` entries numbered from 1: a choice
/// in range selects that entry, anything else falls back to the first.
pub fn select_domain_index(count: usize, choice: usize) -> (idx: usize)
    requires
        1 <= count,
    ensures
        1 <= choice <= count ==> idx == choice - 1,
        !(1 <= choice <= count) ==> idx == 0,
        idx < count,
{
    if 1 <= choice && choice <= count {
        choice - 1
    } else {
        0
    }
}

} // verus!
