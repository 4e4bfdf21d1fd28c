//! Small verified string utilities: equality, case-insensitive equality
//! against ASCII patterns, prefix tests and character classes.

use vstd::prelude::*;

verus! {

/// Exact equality of two string slices.
pub fn str_eq(a: &str, b: &str) -> (r: bool)
    ensures
        r == (a@ == b@),
{
    let alen: usize = a.unicode_len();
    let blen: usize = b.unicode_len();
    if alen != blen {
        proof {
            assert(a@ != b@);
        }
        return false;
    }
    let mut i: usize = 0;
    while i < alen
        invariant
            i <= alen,
            alen == a@.len(),
            alen == b@.len(),
            forall|j: int| 0 <= j < i ==> a@[j] == b@[j],
        decreases alen - i,
    {
        if a.get_char(i) != b.get_char(i) {
            return false;
        }
        i = i + 1;
    }
    proof {
        assert(a@ =~= b@);
    }
    true
}

/// One character matches another up to ASCII case.
pub open spec fn char_eq_ci(a: char, b: char) -> bool {
    a == b
    || ('A' <= a && a <= 'Z' && b as u32 == a as u32 + 32)
    || ('A' <= b && b <= 'Z' && a as u32 == b as u32 + 32)
}

/// Two character sequences match up to ASCII case.
pub open spec fn seq_eq_ci(a: Seq<char>, b: Seq<char>) -> bool {
    a.len() == b.len() && (forall|j: int| 0 <= j < a.len() ==> char_eq_ci(a[j], b[j]))
}

/// ASCII-case-insensitive equality of two string slices.
pub fn str_eq_ci(a: &str, b: &str) -> (r: bool)
    ensures
        r == seq_eq_ci(a@, b@),
{
    let alen: usize = a.unicode_len();
    let blen: usize = b.unicode_len();
    if alen != blen {
        return false;
    }
    let mut i: usize = 0;
    while i < alen
        invariant
            i <= alen,
            alen == a@.len(),
            alen == b@.len(),
            forall|j: int| 0 <= j < i ==> char_eq_ci(a@[j], b@[j]),
        decreases alen - i,
    {
        let ca: char = a.get_char(i);
        let cb: char = b.get_char(i);
        let ok: bool = ca == cb
            || ('A' <= ca && ca <= 'Z' && cb as u32 == ca as u32 + 32)
            || ('A' <= cb && cb <= 'Z' && ca as u32 == cb as u32 + 32);
        if !ok {
            return false;
        }
        i = i + 1;
    }
    true
}

/// The first sequence starts with the second.
pub open spec fn seq_starts_with(s: Seq<char>, p: Seq<char>) -> bool {
    p.len() <= s.len() && s.subrange(0, p.len() as int) == p
}

/// Prefix test on string slices.
pub fn str_starts_with(s: &str, p: &str) -> (r: bool)
    ensures
        r == seq_starts_with(s@, p@),
{
    let slen: usize = s.unicode_len();
    let plen: usize = p.unicode_len();
    if plen > slen {
        return false;
    }
    let mut i: usize = 0;
    while i < plen
        invariant
            i <= plen,
            plen <= slen,
            slen == s@.len(),
            plen == p@.len(),
            forall|j: int| 0 <= j < i ==> s@[j] == p@[j],
        decreases plen - i,
    {
        if s.get_char(i) != p.get_char(i) {
            proof {
                assert(s@.subrange(0, p@.len() as int)[i as int] != p@[i as int]);
            }
            return false;
        }
        i = i + 1;
    }
    proof {
        assert(s@.subrange(0, p@.len() as int) =~= p@);
    }
    true
}

/// An ASCII alphanumeric character.
pub open spec fn is_ascii_alnum(c: char) -> bool {
    ('0' <= c && c <= '9') || ('a' <= c && c <= 'z') || ('A' <= c && c <= 'Z')
}

/// Every character of the slice is ASCII alphanumeric.
pub fn str_is_ascii_alnum(s: &str) -> (r: bool)
    ensures
        r == (forall|j: int| 0 <= j < s@.len() ==> is_ascii_alnum(s@[j])),
{
    let slen: usize = s.unicode_len();
    let mut i: usize = 0;
    while i < slen
        invariant
            i <= slen,
            slen == s@.len(),
            forall|j: int| 0 <= j < i ==> is_ascii_alnum(s@[j]),
        decreases slen - i,
    {
        let c: char = s.get_char(i);
        let ok: bool = ('0' <= c && c <= '9') || ('a' <= c && c <= 'z')
            || ('A' <= c && c <= 'Z');
        if !ok {
            return false;
        }
        i = i + 1;
    }
    true
}

} // verus!
