//! The library's model of an IPv4 address: four plain octets, and the
//! parser for the dotted-quad notation.

use vstd::prelude::*;

use crate::text::DOT;
use crate::text::all_digits;
use crate::text::digits_value;
use crate::text::first_dot;
use crate::text::is_ascii_digit;
use crate::text::scan_dot;

verus! {

/// An IPv4 address as four octets, most significant first.
#[derive(Clone, Copy, Debug, PartialEq, Eq, Structural, Hash)]
pub struct Ipv4 {
    pub o0: u8,
    pub o1: u8,
    pub o2: u8,
    pub o3: u8,
}

impl Ipv4 {
    /// Builds the address `o0.o1.o2.o3`.
    pub fn new(o0: u8, o1: u8, o2: u8, o3: u8) -> (r: Ipv4)
        ensures
            r == (Ipv4 { o0, o1, o2, o3 }),
    {
        Ipv4 { o0, o1, o2, o3 }
    }
}

/// Whether `s` writes one octet: one to three digits, value at most 255,
/// and no leading zero.
pub open spec fn valid_octet_text(s: Seq<u8>) -> bool {
    &&& 1 <= s.len() <= 3
    &&& all_digits(s)
    &&& digits_value(s) <= 255
    &&& (s.len() > 1 ==> s[0] != 48)
}

/// What parsing `s` as dotted-quad notation yields: the address whose four
/// octets `s` writes separated by dots, or nothing when `s` is not of that
/// shape (wrong number of parts, a part that is empty, non-numeric, above
/// 255, or zero-padded).
pub open spec fn spec_parse_ipv4(s: Seq<u8>) -> Option<Ipv4> {
    let d0 = first_dot(s) as int;
    if d0 >= s.len() {
        None
    } else {
        let p0 = s.take(d0);
        let r1 = s.skip(d0 + 1);
        let d1 = first_dot(r1) as int;
        if d1 >= r1.len() {
            None
        } else {
            let p1 = r1.take(d1);
            let r2 = r1.skip(d1 + 1);
            let d2 = first_dot(r2) as int;
            if d2 >= r2.len() {
                None
            } else {
                let p2 = r2.take(d2);
                let p3 = r2.skip(d2 + 1);
                if valid_octet_text(p0) && valid_octet_text(p1) && valid_octet_text(p2)
                    && valid_octet_text(p3) {
                    Some(Ipv4 {
                        o0: digits_value(p0) as u8,
                        o1: digits_value(p1) as u8,
                        o2: digits_value(p2) as u8,
                        o3: digits_value(p3) as u8,
                    })
                } else {
                    None
                }
            }
        }
    }
}

/// Reads the octet written by `s[start..end]`, if any.
fn parse_octet(s: &Vec<u8>, start: usize, end: usize) -> (r: Option<u8>)
    requires
        start <= end <= s@.len(),
    ensures
        r == (if valid_octet_text(s@.subrange(start as int, end as int)) {
            Some(digits_value(s@.subrange(start as int, end as int)) as u8)
        } else {
            None::<u8>
        }),
{
    let ghost part = s@.subrange(start as int, end as int);
    let n = end - start;
    if n < 1 || n > 3 {
        return None;
    }
    if n > 1 && s[start] == 48 {
        assert(part[0] == 48);
        return None;
    }
    let mut value: u32 = 0;
    let mut i: usize = start;
    while i < end
        invariant
            start <= i <= end <= s@.len(),
            end - start <= 3,
            part == s@.subrange(start as int, end as int),
            forall|k: int| 0 <= k < i - start ==> is_ascii_digit(part[k]),
            value == digits_value(part.take(i - start)),
            i - start == 0 ==> value == 0,
            i - start == 1 ==> value <= 9,
            i - start == 2 ==> value <= 99,
            i - start == 3 ==> value <= 999,
        decreases end - i,
    {
        let b = s[i];
        if b < 48 || b > 57 {
            assert(!is_ascii_digit(part[i - start]));
            return None;
        }
        proof {
            let w = i + 1 - start;
            assert(part.take(w).drop_last() =~= part.take(w - 1));
            assert(part.take(w).last() == part[w - 1]);
            assert(part[i - start] == s@[i as int]);
            assert(digits_value(part.take(w)) == digits_value(part.take(w - 1)) * 10 + b - 48);
        }
        value = value * 10 + ((b - 48) as u32);
        i += 1;
    }
    proof {
        assert(part.take(end - start) =~= part);
        assert(all_digits(part));
    }
    if value > 255 {
        return None;
    }
    assert(valid_octet_text(part));
    Some(value as u8)
}

/// Parses dotted-quad notation. Returns the written address exactly when
/// `s` consists of four valid octets separated by single dots; rejects
/// anything else (see [`spec_parse_ipv4`]).
pub fn parse_ipv4(s: &Vec<u8>) -> (r: Option<Ipv4>)
    ensures
        r == spec_parse_ipv4(s@),
{
    let d0 = scan_dot(s, 0);
    proof {
        assert(s@.skip(0) =~= s@);
    }
    if d0 == s.len() {
        return None;
    }
    let d1 = scan_dot(s, d0 + 1);
    if d1 == s.len() {
        proof {
            let r1 = s@.skip(d0 + 1);
            assert(first_dot(r1) == d1 - (d0 + 1));
            assert(first_dot(r1) >= r1.len());
        }
        return None;
    }
    let d2 = scan_dot(s, d1 + 1);
    if d2 == s.len() {
        proof {
            let r1 = s@.skip(d0 + 1);
            let r2 = r1.skip(d1 - d0);
            assert(r2 =~= s@.skip(d1 + 1));
            assert(first_dot(r1) == d1 - (d0 + 1));
            assert(first_dot(r2) == d2 - (d1 + 1));
            assert(first_dot(r2) >= r2.len());
        }
        return None;
    }
    proof {
        let r1 = s@.skip(d0 + 1);
        let r2 = r1.skip(d1 - d0);
        assert(r2 =~= s@.skip(d1 + 1));
        assert(first_dot(r1) == d1 - (d0 + 1));
        assert(first_dot(r2) == d2 - (d1 + 1));
        assert(s@.take(d0 as int) =~= s@.subrange(0, d0 as int));
        assert(r1.take(d1 - (d0 + 1)) =~= s@.subrange(d0 + 1, d1 as int));
        assert(r2.take(d2 - (d1 + 1)) =~= s@.subrange(d1 + 1, d2 as int));
        assert(r2.skip(d2 - d1) =~= s@.subrange(d2 + 1, s@.len() as int));
    }
    let o0 = parse_octet(s, 0, d0);
    let o1 = parse_octet(s, d0 + 1, d1);
    let o2 = parse_octet(s, d1 + 1, d2);
    let o3 = parse_octet(s, d2 + 1, s.len());
    match (o0, o1, o2, o3) {
        (Some(a), Some(b), Some(c), Some(d)) => Some(Ipv4 { o0: a, o1: b, o2: c, o3: d }),
        _ => None,
    }
}

} // verus!
