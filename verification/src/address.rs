//! Parsing the textual form of an IPv4 address.
//!
//! The configuration accepts an address as a bracketed list of octets,
//! e.g. `[10, 0, 0, 1]`: the text is stripped of brackets and whitespace
//! at both ends, split on commas, and each piece — after shedding its own
//! surrounding whitespace — must be a plain decimal number below 256.
//! Exactly four such pieces make an address.

use vstd::prelude::*;

use crate::Ipv4Octets;

verus! {

/// ASCII whitespace: space, tab, line feed, carriage return.
pub open spec fn is_ascii_ws(b: u8) -> bool {
    b == 32 || b == 9 || b == 10 || b == 13
}

/// Bytes stripped from the ends of the whole address text: brackets and
/// whitespace.
pub open spec fn is_outer_sep(b: u8) -> bool {
    b == 91 || b == 93 || is_ascii_ws(b)
}

/// The outer strip as a predicate value, shared by the specification and
/// the proofs so the two speak of one function.
pub open spec fn outer_pred() -> spec_fn(u8) -> bool {
    |b: u8| is_outer_sep(b)
}

/// The per-piece strip as a predicate value.
pub open spec fn ws_pred() -> spec_fn(u8) -> bool {
    |b: u8| is_ascii_ws(b)
}

/// `s` with its leading `sep` bytes removed.
pub open spec fn trim_front(s: Seq<u8>, sep: spec_fn(u8) -> bool) -> Seq<u8>
    decreases s.len(),
{
    if s.len() > 0 && sep(s[0]) {
        trim_front(s.subrange(1, s.len() as int), sep)
    } else {
        s
    }
}

/// `s` with its trailing `sep` bytes removed.
pub open spec fn trim_back(s: Seq<u8>, sep: spec_fn(u8) -> bool) -> Seq<u8>
    decreases s.len(),
{
    if s.len() > 0 && sep(s.last()) {
        trim_back(s.drop_last(), sep)
    } else {
        s
    }
}

/// `s` with `sep` bytes removed from both ends.
pub open spec fn trimmed(s: Seq<u8>, sep: spec_fn(u8) -> bool) -> Seq<u8> {
    trim_back(trim_front(s, sep), sep)
}

/// The comma-separated pieces of `s`, commas removed: one piece more
/// than there are commas, each possibly empty.
pub open spec fn split_commas(s: Seq<u8>) -> Seq<Seq<u8>>
    decreases s.len(),
{
    if s.len() == 0 {
        seq![Seq::<u8>::empty()]
    } else {
        let rest = split_commas(s.drop_last());
        if s.last() == 44 {
            rest.push(Seq::<u8>::empty())
        } else {
            rest.update(rest.len() - 1, rest.last().push(s.last()))
        }
    }
}

pub open spec fn is_digit(b: u8) -> bool {
    48 <= b <= 57
}

/// The number a string of decimal digits denotes, most significant first.
pub open spec fn digits_value(s: Seq<u8>) -> int
    decreases s.len(),
{
    if s.len() == 0 {
        0
    } else {
        digits_value(s.drop_last()) * 10 + (s.last() - 48)
    }
}

/// The octet one comma-separated piece denotes, if any: stripped of
/// whitespace it must be non-empty, all digits, and denote a value below
/// 256.
pub open spec fn part_octet(p: Seq<u8>) -> Option<u8> {
    let t = trimmed(p, ws_pred());
    if t.len() > 0 && (forall|i: int| 0 <= i < t.len() ==> is_digit(t[i])) && digits_value(t)
        <= 255 {
        Some(digits_value(t) as u8)
    } else {
        None
    }
}

/// Why an address text was rejected: a piece that is not a plain decimal
/// octet, or a piece count other than four.
#[derive(Debug, Clone, Copy, PartialEq, Eq, Structural)]
pub enum AddressError {
    InvalidOctet,
    WrongPartCount,
}


/// Exec mirror of [`is_ascii_ws`].
fn is_ws_byte(b: u8) -> (r: bool)
    ensures
        r == is_ascii_ws(b),
{
    b == 32 || b == 9 || b == 10 || b == 13
}

/// Exec mirror of [`is_outer_sep`].
fn is_outer_sep_byte(b: u8) -> (r: bool)
    ensures
        r == is_outer_sep(b),
{
    b == 91 || b == 93 || b == 32 || b == 9 || b == 10 || b == 13
}

/// When the first `lo` bytes are separators and the byte at `lo` (if any)
/// is not, trimming the front removes exactly those `lo` bytes.
proof fn lemma_trim_front_subrange(s: Seq<u8>, sep: spec_fn(u8) -> bool, lo: int)
    requires
        0 <= lo <= s.len(),
        forall|j: int| 0 <= j < lo ==> sep(#[trigger] s[j]),
        lo < s.len() ==> !sep(s[lo]),
    ensures
        trim_front(s, sep) =~= s.subrange(lo, s.len() as int),
    decreases lo,
{
    if lo == 0 {
        assert(s.subrange(0, s.len() as int) =~= s);
    } else {
        assert(sep(s[0]));
        let t = s.subrange(1, s.len() as int);
        assert(forall|j: int| 0 <= j < lo - 1 ==> sep(#[trigger] t[j]));
        lemma_trim_front_subrange(t, sep, lo - 1);
        assert(t.subrange(lo - 1, t.len() as int) =~= s.subrange(lo, s.len() as int));
    }
}

/// When the bytes from `hi` on are separators and the byte before `hi`
/// (if any) is not, trimming the back removes exactly them.
proof fn lemma_trim_back_subrange(s: Seq<u8>, sep: spec_fn(u8) -> bool, hi: int)
    requires
        0 <= hi <= s.len(),
        forall|j: int| hi <= j < s.len() ==> sep(#[trigger] s[j]),
        hi > 0 ==> !sep(s[hi - 1]),
    ensures
        trim_back(s, sep) =~= s.subrange(0, hi),
    decreases s.len() - hi,
{
    if hi == s.len() {
        assert(s.subrange(0, s.len() as int) =~= s);
    } else {
        assert(sep(s.last()));
        let t = s.drop_last();
        lemma_trim_back_subrange(t, sep, hi);
    }
}

/// Parse one comma-separated piece: whitespace-strip it, then read it as
/// a decimal number below 256.
fn parse_octet(p: &Vec<u8>) -> (r: Option<u8>)
    ensures
        r == part_octet(p@),
{
    let n = p.len();
    let mut lo: usize = 0;
    while lo < n && is_ws_byte(p[lo])
        invariant
            n == p@.len(),
            0 <= lo <= n,
            forall|j: int| 0 <= j < lo ==> is_ascii_ws(#[trigger] p@[j]),
        decreases n - lo,
    {
        lo = lo + 1;
    }
    let mut hi: usize = n;
    while hi > lo && is_ws_byte(p[hi - 1])
        invariant
            n == p@.len(),
            0 <= lo <= hi <= n,
            forall|j: int| 0 <= j < lo ==> is_ascii_ws(#[trigger] p@[j]),
            forall|j: int| hi <= j < n ==> is_ascii_ws(#[trigger] p@[j]),
        decreases hi,
    {
        hi = hi - 1;
    }
    let ghost t = trimmed(p@, ws_pred());
    proof {
        let front = p@.subrange(lo as int, n as int);
        lemma_trim_front_subrange(p@, ws_pred(), lo as int);
        assert(forall|j: int|
            hi - lo <= j < front.len() ==> is_ascii_ws(#[trigger] front[j]));
        lemma_trim_back_subrange(front, ws_pred(), hi - lo);
        assert(t =~= p@.subrange(lo as int, hi as int));
    }
    let mut all_digits = true;
    let mut acc: u32 = 0;
    let mut i: usize = lo;
    while i < hi
        invariant
            n == p@.len(),
            0 <= lo <= i <= hi <= n,
            t =~= p@.subrange(lo as int, hi as int),
            all_digits == (forall|k: int| 0 <= k < i - lo ==> is_digit(#[trigger] t[k])),
            all_digits ==> ((acc <= 255 && acc == digits_value(t.take(i - lo))) || (acc == 256
                && digits_value(t.take(i - lo)) > 255)),
        decreases hi - i,
    {
        let ghost j = i - lo;
        proof {
            assert(t.take(j + 1).drop_last() =~= t.take(j as int));
            assert(t.take(j + 1).last() == t[j as int]);
            assert(t[j as int] == p@[i as int]);
        }
        let b = p[i];
        if b >= 48 && b <= 57 {
            if all_digits && acc <= 255 {
                let v: u32 = acc * 10 + (b - 48) as u32;
                acc = if v > 255 {
                    256
                } else {
                    v
                };
            }
        } else {
            all_digits = false;
        }
        i = i + 1;
    }
    proof {
        assert(t.take(hi - lo) =~= t);
    }
    if all_digits && hi > lo && acc <= 255 {
        Some(acc as u8)
    } else {
        None
    }
}

/// Parse the textual form of an IPv4 address.
///
/// The whole text is stripped of brackets and whitespace at both ends and
/// split on commas. Exactly four pieces, each a plain decimal number
/// below 256, make the address; a piece that does not read as such a
/// number is rejected as an invalid octet, and — all pieces being numbers
/// — any count other than four is rejected as the wrong part count.
pub fn parse_address(s: &[u8]) -> (r: Result<Ipv4Octets, AddressError>)
    ensures
        ({
            let parts = split_commas(trimmed(s@, outer_pred()));
            match r {
                Ok(o) => {
                    &&& parts.len() == 4
                    &&& part_octet(parts[0]) == Some(o.o0)
                    &&& part_octet(parts[1]) == Some(o.o1)
                    &&& part_octet(parts[2]) == Some(o.o2)
                    &&& part_octet(parts[3]) == Some(o.o3)
                },
                Err(AddressError::InvalidOctet) => exists|i: int|
                    0 <= i < parts.len() && part_octet(#[trigger] parts[i]) is None,
                Err(AddressError::WrongPartCount) => parts.len() != 4 && forall|i: int|
                    0 <= i < parts.len() ==> part_octet(#[trigger] parts[i]) is Some,
            }
        }),
{
    let n = s.len();
    let mut lo: usize = 0;
    while lo < n && is_outer_sep_byte(s[lo])
        invariant
            n == s@.len(),
            0 <= lo <= n,
            forall|j: int| 0 <= j < lo ==> is_outer_sep(#[trigger] s@[j]),
        decreases n - lo,
    {
        lo = lo + 1;
    }
    let mut hi: usize = n;
    while hi > lo && is_outer_sep_byte(s[hi - 1])
        invariant
            n == s@.len(),
            0 <= lo <= hi <= n,
            forall|j: int| 0 <= j < lo ==> is_outer_sep(#[trigger] s@[j]),
            forall|j: int| hi <= j < n ==> is_outer_sep(#[trigger] s@[j]),
        decreases hi,
    {
        hi = hi - 1;
    }
    let ghost core = trimmed(s@, outer_pred());
    proof {
        let front = s@.subrange(lo as int, n as int);
        lemma_trim_front_subrange(s@, outer_pred(), lo as int);
        assert(forall|j: int|
            hi - lo <= j < front.len() ==> is_outer_sep(#[trigger] front[j]));
        lemma_trim_back_subrange(front, outer_pred(), hi - lo);
        assert(core =~= s@.subrange(lo as int, hi as int));
    }
    // Split the core on commas.
    let mut parts: Vec<Vec<u8>> = Vec::new();
    let mut cur: Vec<u8> = Vec::new();
    let mut i: usize = lo;
    while i < hi
        invariant
            n == s@.len(),
            0 <= lo <= i <= hi <= n,
            core == trimmed(s@, outer_pred()),
            core =~= s@.subrange(lo as int, hi as int),
            parts@.map_values(|v: Vec<u8>| v@).push(cur@) =~= split_commas(
                core.take(i - lo),
            ),
        decreases hi - i,
    {
        let ghost j = i - lo;
        proof {
            assert(core.take(j + 1).drop_last() =~= core.take(j as int));
            assert(core.take(j + 1).last() == core[j as int]);
            assert(core[j as int] == s@[i as int]);
        }
        let ghost old_parts = parts@.map_values(|v: Vec<u8>| v@);
        let ghost old_cur = cur@;
        let b = s[i];
        if b == 44 {
            parts.push(cur);
            cur = Vec::new();
            proof {
                assert(parts@.map_values(|v: Vec<u8>| v@) =~= old_parts.push(old_cur));
                assert(parts@.map_values(|v: Vec<u8>| v@).push(cur@) =~= split_commas(
                    core.take(j + 1),
                ));
            }
        } else {
            cur.push(b);
            proof {
                let rest = split_commas(core.take(j as int));
                assert(rest == old_parts.push(old_cur));
                assert(rest.update(rest.len() - 1, rest.last().push(core[j as int]))
                    =~= old_parts.push(old_cur.push(core[j as int])));
                assert(parts@.map_values(|v: Vec<u8>| v@).push(cur@) =~= split_commas(
                    core.take(j + 1),
                ));
            }
        }
        i = i + 1;
    }
    parts.push(cur);
    let ghost partsv = split_commas(core);
    proof {
        assert(core.take(hi - lo) =~= core);
        assert(parts@.map_values(|v: Vec<u8>| v@) =~= partsv);
    }
    // Read each piece as an octet; the first bad piece rejects the text.
    let mut octets: Vec<u8> = Vec::new();
    let mut k: usize = 0;
    while k < parts.len()
        invariant
            partsv == split_commas(trimmed(s@, outer_pred())),
            parts@.map_values(|v: Vec<u8>| v@) =~= partsv,
            0 <= k <= parts@.len(),
            octets@.len() == k,
            forall|m: int|
                0 <= m < k ==> part_octet(#[trigger] partsv[m]) == Some(octets@[m]),
        decreases parts@.len() - k,
    {
        proof {
            assert(parts@.map_values(|v: Vec<u8>| v@)[k as int] == parts@[k as int]@);
        }
        match parse_octet(&parts[k]) {
            Some(v) => {
                octets.push(v);
            },
            None => {
                proof {
                    assert(part_octet(split_commas(trimmed(s@, outer_pred()))[k as int])
                        is None);
                    assert(exists|i: int|
                        0 <= i < split_commas(trimmed(s@, outer_pred())).len() && part_octet(
                            #[trigger] split_commas(trimmed(s@, outer_pred()))[i],
                        ) is None);
                }
                return Err(AddressError::InvalidOctet);
            },
        }
        k = k + 1;
    }
    if octets.len() != 4 {
        proof {
            assert(partsv.len() == octets@.len());
            assert(forall|i: int|
                0 <= i < partsv.len() ==> part_octet(#[trigger] partsv[i]) is Some);
        }
        return Err(AddressError::WrongPartCount);
    }
    Ok(Ipv4Octets { o0: octets[0], o1: octets[1], o2: octets[2], o3: octets[3] })
}

} // verus!
