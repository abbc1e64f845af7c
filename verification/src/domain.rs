//! Byte-level helpers for DNS domain names.
//!
//! Domain names are handled as byte strings in fully-qualified form (with a
//! trailing dot). Blocklist matching is case-sensitive and only ever matches
//! at a label boundary; reserved-zone matching folds ASCII case first.

use vstd::prelude::*;

verus! {

/// Lowercase an ASCII byte: 'A'..='Z' maps to 'a'..='z'; all else unchanged.
pub open spec fn lower_byte(b: u8) -> u8 {
    if 0x41 <= b && b <= 0x5a {
        (b + 0x20) as u8
    } else {
        b
    }
}

/// ASCII lowercasing of a whole byte string.
pub open spec fn lower(s: Seq<u8>) -> Seq<u8> {
    Seq::new(s.len(), |i: int| lower_byte(s[i]))
}

/// One blocklist entry `e` blocks `name` when the two are equal, or when
/// `name` ends with `"." + e` (a suffix match that can only fire at a label
/// boundary, so `ad.com.` blocks `sub.ad.com.` but not `bad.com.`).
pub open spec fn entry_blocks(name: Seq<u8>, e: Seq<u8>) -> bool {
    ||| name == e
    ||| (name.len() > e.len() && name.subrange(name.len() - e.len(), name.len() as int) == e
        && name[name.len() - e.len() - 1] == ('.' as u8))
}

/// A name falls inside a zone when it equals the zone or sits beneath it,
/// compared without regard to ASCII case.
pub open spec fn in_zone(name: Seq<u8>, zone: Seq<u8>) -> bool {
    entry_blocks(lower(name), lower(zone))
}

/// A name is the apex of a zone when the two are equal up to ASCII case.
pub open spec fn is_apex_of(name: Seq<u8>, zone: Seq<u8>) -> bool {
    lower(name) == lower(zone)
}

/// Executable ASCII lowercase of one byte.
pub fn ascii_lower_byte(b: u8) -> (r: u8)
    ensures
        r == lower_byte(b),
{
    if 0x41 <= b && b <= 0x5a {
        b + 0x20
    } else {
        b
    }
}

/// Executable ASCII lowercase of a whole byte string.
pub fn lower_vec(s: &[u8]) -> (r: Vec<u8>)
    ensures
        r@ == lower(s@),
{
    let mut out: Vec<u8> = Vec::new();
    let mut i: usize = 0;
    while i < s.len()
        invariant
            i <= s@.len(),
            out@ =~= lower(s@).subrange(0, i as int),
        decreases s@.len() - i,
    {
        out.push(ascii_lower_byte(s[i]));
        assert(out@ =~= lower(s@).subrange(0, i + 1));
        i += 1;
    }
    assert(out@ =~= lower(s@));
    out
}

/// Append the bytes of `s` to `out`.
pub fn append_bytes(out: &mut Vec<u8>, s: &[u8])
    ensures
        final(out)@ == old(out)@ + s@,
{
    let mut i: usize = 0;
    while i < s.len()
        invariant
            i <= s@.len(),
            out@ =~= old(out)@ + s@.subrange(0, i as int),
        decreases s@.len() - i,
    {
        out.push(s[i]);
        assert(out@ =~= old(out)@ + s@.subrange(0, i + 1));
        i += 1;
    }
    assert(out@ =~= old(out)@ + s@);
}

/// Byte-string equality.
pub fn bytes_eq(a: &[u8], b: &[u8]) -> (r: bool)
    ensures
        r == (a@ == b@),
{
    if a.len() != b.len() {
        assert(a@ != b@);
        return false;
    }
    let mut i: usize = 0;
    while i < a.len()
        invariant
            i <= a.len(),
            a@.len() == b@.len(),
            forall|j: int| 0 <= j < i ==> a@[j] == b@[j],
        decreases a.len() - i,
    {
        if a[i] != b[i] {
            return false;
        }
        i += 1;
    }
    assert(a@ =~= b@);
    true
}

/// Byte-string equality up to ASCII case.
pub fn bytes_eq_fold(a: &[u8], b: &[u8]) -> (r: bool)
    ensures
        r == (lower(a@) == lower(b@)),
{
    if a.len() != b.len() {
        assert(lower(a@).len() != lower(b@).len());
        return false;
    }
    let mut i: usize = 0;
    while i < a.len()
        invariant
            i <= a.len(),
            a@.len() == b@.len(),
            forall|j: int| 0 <= j < i ==> lower_byte(a@[j]) == lower_byte(b@[j]),
        decreases a.len() - i,
    {
        if ascii_lower_byte(a[i]) != ascii_lower_byte(b[i]) {
            assert(lower(a@)[i as int] != lower(b@)[i as int]);
            return false;
        }
        i += 1;
    }
    assert(lower(a@) =~= lower(b@));
    true
}

/// Does `name` end with the bytes of `e`? (Plain suffix, no boundary check.)
fn ends_with(name: &[u8], e: &[u8]) -> (r: bool)
    requires
        name@.len() >= e@.len(),
    ensures
        r == (name@.subrange(name@.len() - e@.len(), name@.len() as int) == e@),
{
    let n: usize = name.len();
    let off: usize = n - e.len();
    let mut i: usize = 0;
    while i < e.len()
        invariant
            i <= e.len(),
            e@.len() <= name@.len(),
            n == name@.len(),
            off == name@.len() - e@.len(),
            forall|j: int| 0 <= j < i ==> name@[off + j] == e@[j],
        decreases e.len() - i,
    {
        if name[off + i] != e[i] {
            assert(name@.subrange(name@.len() - e@.len(), name@.len() as int)[i as int] != e@[i as int]);
            return false;
        }
        i += 1;
    }
    assert(name@.subrange(name@.len() - e@.len(), name@.len() as int) =~= e@);
    true
}

/// Does the blocklist entry `e` block `name`?
pub fn entry_blocks_name(name: &[u8], e: &[u8]) -> (r: bool)
    ensures
        r == entry_blocks(name@, e@),
{
    if name.len() == e.len() {
        let r = bytes_eq(name, e);
        assert(r == entry_blocks(name@, e@));
        r
    } else if name.len() > e.len() {
        if name[name.len() - e.len() - 1] == ('.' as u8) {
            ends_with(name, e)
        } else {
            false
        }
    } else {
        assert(!entry_blocks(name@, e@));
        false
    }
}

} // verus!
