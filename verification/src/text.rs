//! Byte-string helpers shared by the address and name syntax checks:
//! ASCII digits, decimal values, and splitting on a dot.

use vstd::prelude::*;

verus! {

/// The byte separating labels and octets: an ASCII dot.
pub const DOT: u8 = 46;

/// Whether `b` is an ASCII decimal digit.
pub open spec fn is_ascii_digit(b: u8) -> bool {
    48 <= b <= 57
}

/// Whether every byte of `s` is an ASCII decimal digit.
pub open spec fn all_digits(s: Seq<u8>) -> bool {
    forall|i: int| 0 <= i < s.len() ==> is_ascii_digit(s[i])
}

/// The number that `s` writes in decimal, read left to right.
pub open spec fn digits_value(s: Seq<u8>) -> int
    decreases s.len(),
{
    if s.len() == 0 {
        0
    } else {
        digits_value(s.drop_last()) * 10 + s.last() - 48
    }
}

/// The index of the first dot of `s`, or `s.len()` if it has none.
pub open spec fn first_dot(s: Seq<u8>) -> nat
    decreases s.len(),
{
    if s.len() == 0 {
        0
    } else if s[0] == DOT {
        0
    } else {
        1 + first_dot(s.drop_first())
    }
}

/// The dot index is where the characterisation says: no dot before it, and
/// either a dot there or the end of the sequence.
pub proof fn lemma_first_dot_is(s: Seq<u8>, m: int)
    requires
        0 <= m <= s.len(),
        forall|k: int| 0 <= k < m ==> s[k] != DOT,
        m < s.len() ==> s[m] == DOT,
    ensures
        first_dot(s) == m,
    decreases s.len(),
{
    if s.len() == 0 {
    } else if s[0] == DOT {
        assert(m == 0);
    } else {
        assert(m >= 1);
        let t = s.drop_first();
        assert(forall|k: int| 0 <= k < m - 1 ==> t[k] == s[k + 1] && s[k + 1] != DOT);
        lemma_first_dot_is(t, m - 1);
    }
}

/// The first dot never lies past the end.
pub proof fn lemma_first_dot_le_len(s: Seq<u8>)
    ensures
        first_dot(s) <= s.len(),
    decreases s.len(),
{
    if s.len() == 0 {
    } else if s[0] == DOT {
    } else {
        lemma_first_dot_le_len(s.drop_first());
    }
}

/// Finds the first dot of `s` at or after `from`; returns `s.len()` if there
/// is none.
pub fn scan_dot(s: &Vec<u8>, from: usize) -> (d: usize)
    requires
        from <= s@.len(),
    ensures
        from <= d <= s@.len(),
        d - from == first_dot(s@.skip(from as int)),
        d < s@.len() ==> s@[d as int] == DOT,
        forall|k: int| from <= k < d ==> s@[k] != DOT,
{
    let mut i: usize = from;
    while i < s.len()
        invariant
            from <= i <= s@.len(),
            forall|k: int| from <= k < i ==> s@[k] != DOT,
        decreases s@.len() - i,
    {
        if s[i] == DOT {
            proof {
                let t = s@.skip(from as int);
                assert(forall|k: int| 0 <= k < i - from ==> t[k] == s@[k + from]);
                lemma_first_dot_is(t, i - from);
            }
            return i;
        }
        i += 1;
    }
    proof {
        let t = s@.skip(from as int);
        assert(forall|k: int| 0 <= k < i - from ==> t[k] == s@[k + from]);
        lemma_first_dot_is(t, i - from);
    }
    i
}

} // verus!
