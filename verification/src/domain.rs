//! Syntactic validity of DNS names, and joining a subdomain onto a zone.
//!
//! A name is valid when it is at most 253 bytes and is a dot-separated run
//! of labels, each 1 to 63 bytes of letters, digits and hyphens, neither
//! starting nor ending with a hyphen. A check request with an invalid name
//! is rejected eagerly, before any polling starts.

use vstd::prelude::*;

use crate::text::DOT;
use crate::text::first_dot;
use crate::text::is_ascii_digit;
use crate::text::lemma_first_dot_le_len;
use crate::text::scan_dot;

verus! {

/// The hyphen byte.
pub const HYPHEN: u8 = 45;

/// Whether `b` is an ASCII letter.
pub open spec fn is_ascii_letter(b: u8) -> bool {
    (65 <= b <= 90) || (97 <= b <= 122)
}

/// Whether `b` may stand inside a label: a letter, a digit or a hyphen.
pub open spec fn is_label_byte(b: u8) -> bool {
    is_ascii_letter(b) || is_ascii_digit(b) || b == HYPHEN
}

/// Whether `s` is one valid label: 1 to 63 label bytes, with a hyphen
/// neither first nor last.
pub open spec fn valid_label(s: Seq<u8>) -> bool {
    &&& 1 <= s.len() <= 63
    &&& (forall|i: int| 0 <= i < s.len() ==> is_label_byte(s[i]))
    &&& s[0] != HYPHEN
    &&& s[s.len() - 1] != HYPHEN
}

/// Whether `s` is a dot-separated run of valid labels.
pub open spec fn valid_labels(s: Seq<u8>) -> bool
    decreases s.len(),
{
    let d = first_dot(s) as int;
    if 0 <= d < s.len() {
        valid_label(s.take(d)) && valid_labels(s.skip(d + 1))
    } else {
        valid_label(s)
    }
}

/// Whether `s` is a syntactically valid DNS name.
pub open spec fn valid_domain(s: Seq<u8>) -> bool {
    s.len() <= 253 && valid_labels(s)
}

/// Whether `s[start..end]` is one valid label.
fn check_label(s: &Vec<u8>, start: usize, end: usize) -> (ok: bool)
    requires
        start <= end <= s@.len(),
    ensures
        ok == valid_label(s@.subrange(start as int, end as int)),
{
    let ghost part = s@.subrange(start as int, end as int);
    let n = end - start;
    if n < 1 || n > 63 {
        return false;
    }
    if s[start] == HYPHEN {
        assert(part[0] == HYPHEN);
        return false;
    }
    if s[end - 1] == HYPHEN {
        assert(part[part.len() - 1] == HYPHEN);
        return false;
    }
    let mut i: usize = start;
    while i < end
        invariant
            start <= i <= end <= s@.len(),
            part == s@.subrange(start as int, end as int),
            forall|k: int| 0 <= k < i - start ==> is_label_byte(part[k]),
        decreases end - i,
    {
        let b = s[i];
        let letter = (65 <= b && b <= 90) || (97 <= b && b <= 122);
        let digit = 48 <= b && b <= 57;
        if !(letter || digit || b == HYPHEN) {
            assert(!is_label_byte(part[i - start]));
            return false;
        }
        assert(is_label_byte(part[i - start]));
        i += 1;
    }
    assert(part[0] == s@[start as int]);
    assert(part[part.len() - 1] == s@[end - 1]);
    true
}

/// Whether `s[start..]` is a dot-separated run of valid labels.
fn check_labels_from(s: &Vec<u8>, start: usize) -> (ok: bool)
    requires
        start <= s@.len(),
    ensures
        ok == valid_labels(s@.skip(start as int)),
    decreases s@.len() - start,
{
    let ghost rest = s@.skip(start as int);
    let d = scan_dot(s, start);
    let label_ok = check_label(s, start, d);
    proof {
        assert(rest.take(d - start) =~= s@.subrange(start as int, d as int));
    }
    if d == s.len() {
        proof {
            assert(rest.take(d - start) =~= rest);
            assert(first_dot(rest) as int >= rest.len());
        }
        label_ok
    } else {
        if !label_ok {
            return false;
        }
        proof {
            assert(rest.skip(d - start + 1) =~= s@.skip(d + 1));
            lemma_first_dot_le_len(rest);
        }
        check_labels_from(s, d + 1)
    }
}

/// Whether `name` is a syntactically valid DNS name (see [`valid_domain`]).
pub fn is_valid_domain(name: &Vec<u8>) -> (ok: bool)
    ensures
        ok == valid_domain(name@),
{
    if name.len() > 253 {
        return false;
    }
    let ok = check_labels_from(name, 0);
    proof {
        assert(name@.skip(0) =~= name@);
    }
    ok
}

/// The fully-qualified name `sub.zone`, as the record-creation flow builds
/// it before waiting for propagation.
pub fn join_domain(sub: &Vec<u8>, zone: &Vec<u8>) -> (full: Vec<u8>)
    ensures
        full@ == sub@ + seq![DOT] + zone@,
{
    let mut out: Vec<u8> = Vec::new();
    let mut i: usize = 0;
    while i < sub.len()
        invariant
            i <= sub@.len(),
            out@ == sub@.take(i as int),
        decreases sub@.len() - i,
    {
        out.push(sub[i]);
        proof {
            assert(out@ =~= sub@.take(i + 1));
        }
        i += 1;
    }
    out.push(DOT);
    proof {
        assert(out@ =~= sub@.take(sub@.len() as int) + seq![DOT] + zone@.take(0));
    }
    let mut j: usize = 0;
    while j < zone.len()
        invariant
            j <= zone@.len(),
            out@ == sub@.take(sub@.len() as int) + seq![DOT] + zone@.take(j as int),
        decreases zone@.len() - j,
    {
        out.push(zone[j]);
        proof {
            assert(out@ =~= sub@.take(sub@.len() as int) + seq![DOT] + zone@.take(j + 1));
        }
        j += 1;
    }
    proof {
        assert(out@ =~= sub@ + seq![DOT] + zone@);
    }
    out
}

} // verus!
