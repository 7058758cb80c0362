//! Small operations on byte strings.
use vstd::prelude::*;

verus! {

/// The ASCII lower-case form of one byte: `A`..`Z` move to `a`..`z`, every
/// other byte stays.
pub open spec fn ascii_lower(b: u8) -> u8 {
    if 65 <= b <= 90 {
        (b + 32) as u8
    } else {
        b
    }
}

/// The ASCII lower-case form of one character: `A`..`Z` move to `a`..`z`, every
/// other character stays.
pub open spec fn ascii_lower_char(c: char) -> char {
    if 'A' <= c <= 'Z' {
        (c as u8 + 32) as char
    } else {
        c
    }
}

/// Whether two byte strings hold the same bytes.
pub fn bytes_equal(a: &[u8], b: &[u8]) -> (same: bool)
    ensures
        same == (a@ == b@),
{
    if a.len() != b.len() {
        return false;
    }
    let mut i: usize = 0;
    while i < a.len()
        invariant
            a.len() == b.len(),
            i <= a.len(),
            forall|j: int| 0 <= j < i ==> a@[j] == b@[j],
        decreases a.len() - i,
    {
        if a[i] != b[i] {
            assert(a@[i as int] != b@[i as int]);
            return false;
        }
        i += 1;
    }
    assert(a@ =~= b@);
    true
}

/// A copy of `s` in which every ASCII capital is replaced by its lower-case
/// letter. Bytes outside of ASCII are left alone.
pub fn to_ascii_lowercase(s: &[u8]) -> (lower: Vec<u8>)
    ensures
        lower@ == s@.map_values(|b: u8| ascii_lower(b)),
{
    let mut lower: Vec<u8> = Vec::new();
    let mut i: usize = 0;
    while i < s.len()
        invariant
            i <= s.len(),
            lower@.len() == i,
            forall|j: int| 0 <= j < i ==> lower@[j] == ascii_lower(s@[j]),
        decreases s.len() - i,
    {
        let b: u8 = s[i];
        if 65 <= b && b <= 90 {
            lower.push(b + 32);
        } else {
            lower.push(b);
        }
        i += 1;
    }
    assert(lower@ =~= s@.map_values(|b: u8| ascii_lower(b)));
    lower
}

/// The bytes of `s` from `from` up to, not including, `to`.
pub fn copy_range(s: &[u8], from: usize, to: usize) -> (part: Vec<u8>)
    requires
        from <= to <= s@.len(),
    ensures
        part@ == s@.subrange(from as int, to as int),
{
    let mut part: Vec<u8> = Vec::new();
    let mut i: usize = from;
    while i < to
        invariant
            from <= i <= to <= s@.len(),
            part@ == s@.subrange(from as int, i as int),
        decreases to - i,
    {
        part.push(s[i]);
        i += 1;
        assert(part@ =~= s@.subrange(from as int, i as int));
    }
    part
}

/// Adds the bytes of `tail` at the end of `out`.
pub fn push_all(out: &mut Vec<u8>, tail: &[u8])
    ensures
        final(out)@ == old(out)@ + tail@,
{
    let mut i: usize = 0;
    let ghost start = out@;
    while i < tail.len()
        invariant
            i <= tail@.len(),
            out@ == start + tail@.subrange(0, i as int),
        decreases tail.len() - i,
    {
        out.push(tail[i]);
        i += 1;
        assert(out@ =~= start + tail@.subrange(0, i as int));
    }
    assert(tail@.subrange(0, tail@.len() as int) =~= tail@);
}

/// Lower case leaves no capitals, changes nothing but capitals, and keeps letters
/// that differ apart.
pub proof fn lower_case_changes_capitals_only(a: u8, b: u8)
    ensures
        !(65 <= ascii_lower(a) <= 90),
        65 <= a <= 90 <==> ascii_lower(a) != a,
        65 <= a <= 90 ==> ascii_lower(a) == a + 32,
        ascii_lower(ascii_lower(a)) == ascii_lower(a),
        ascii_lower(a) == ascii_lower(b) ==> a == b || a == b + 32 || b == a + 32,
{
}

} // verus!
