//! Byte-level encoding helpers: decimal formatting and JSON string escaping,
//! building blocks of the persisted audit-record format.

use vstd::prelude::*;
use crate::domain::append_bytes;

verus! {

/// The decimal digits of `n`, most significant first, no leading zeros
/// (a single `0` for zero).
pub open spec fn dec_digits(n: nat) -> Seq<u8>
    decreases n,
{
    if n < 10 {
        seq![(48 + n) as u8]
    } else {
        dec_digits(n / 10) + seq![(48 + n % 10) as u8]
    }
}

/// Format an integer in decimal.
pub fn format_u64(n: u64) -> (r: Vec<u8>)
    ensures
        r@ == dec_digits(n as nat),
    decreases n,
{
    if n < 10 {
        let d: u8 = 48 + (n as u8);
        let v: Vec<u8> = vec![d];
        assert(v@ =~= dec_digits(n as nat));
        v
    } else {
        let mut v = format_u64(n / 10);
        let d: u8 = 48 + ((n % 10) as u8);
        v.push(d);
        assert(v@ =~= dec_digits(n as nat));
        v
    }
}

/// The lowercase hex digit of a value below 16.
pub open spec fn hex_digit(n: u8) -> u8 {
    if n < 10 {
        (48 + n) as u8
    } else {
        (87 + n) as u8
    }
}

/// How one byte appears inside a JSON string: quote and backslash are
/// escaped, control bytes become `\u00XX`, everything else passes through.
pub open spec fn esc_byte(b: u8) -> Seq<u8> {
    if b == ('"' as u8) {
        seq!['\\' as u8, '"' as u8]
    } else if b == ('\\' as u8) {
        seq!['\\' as u8, '\\' as u8]
    } else if b < 32 {
        seq!['\\' as u8, 'u' as u8, '0' as u8, '0' as u8, hex_digit(b / 16), hex_digit(b % 16)]
    } else {
        seq![b]
    }
}

/// A whole byte string escaped for the inside of a JSON string.
pub open spec fn json_escaped(s: Seq<u8>) -> Seq<u8>
    decreases s.len(),
{
    if s.len() == 0 {
        Seq::empty()
    } else {
        esc_byte(s[0]) + json_escaped(s.drop_first())
    }
}

/// A JSON string: quoted and escaped.
pub open spec fn json_str(s: Seq<u8>) -> Seq<u8> {
    seq!['"' as u8] + json_escaped(s) + seq!['"' as u8]
}

proof fn lemma_json_escaped_snoc(s: Seq<u8>, x: u8)
    ensures
        json_escaped(s.push(x)) == json_escaped(s) + esc_byte(x),
    decreases s.len(),
{
    if s.len() == 0 {
        assert(s.push(x)[0] == x);
        let rest = s.push(x).drop_first();
        assert(rest =~= Seq::<u8>::empty());
        assert(json_escaped(rest) == Seq::<u8>::empty());
        assert(json_escaped(s) == Seq::<u8>::empty());
        assert(json_escaped(s.push(x)) == esc_byte(s.push(x)[0]) + json_escaped(rest));
        assert(json_escaped(s.push(x)) =~= json_escaped(s) + esc_byte(x));
    } else {
        assert(s.push(x)[0] == s[0]);
        assert(s.push(x).drop_first() =~= s.drop_first().push(x));
        lemma_json_escaped_snoc(s.drop_first(), x);
        assert(json_escaped(s.push(x)) == esc_byte(s[0]) + json_escaped(s.drop_first().push(x)));
        assert(json_escaped(s.push(x)) =~= json_escaped(s) + esc_byte(x));
    }
}

/// Append one byte in its escaped form.
fn push_escaped_byte(out: &mut Vec<u8>, b: u8)
    ensures
        final(out)@ == old(out)@ + esc_byte(b),
{
    if b == ('"' as u8) {
        out.push('\\' as u8);
        out.push('"' as u8);
        assert(out@ =~= old(out)@ + esc_byte(b));
    } else if b == ('\\' as u8) {
        out.push('\\' as u8);
        out.push('\\' as u8);
        assert(out@ =~= old(out)@ + esc_byte(b));
    } else if b < 32 {
        out.push('\\' as u8);
        out.push('u' as u8);
        out.push('0' as u8);
        out.push('0' as u8);
        let hi: u8 = b / 16;
        let lo: u8 = b % 16;
        out.push(if hi < 10 { 48 + hi } else { 87 + hi });
        out.push(if lo < 10 { 48 + lo } else { 87 + lo });
        assert(out@ =~= old(out)@ + esc_byte(b));
    } else {
        out.push(b);
        assert(out@ =~= old(out)@ + esc_byte(b));
    }
}

/// Append a quoted, escaped JSON string.
pub fn push_json_str(out: &mut Vec<u8>, s: &[u8])
    ensures
        final(out)@ == old(out)@ + json_str(s@),
{
    out.push('"' as u8);
    let ghost opened = out@;
    let mut i: usize = 0;
    while i < s.len()
        invariant
            i <= s@.len(),
            out@ == opened + json_escaped(s@.subrange(0, i as int)),
        decreases s@.len() - i,
    {
        push_escaped_byte(out, s[i]);
        proof {
            lemma_json_escaped_snoc(s@.subrange(0, i as int), s@[i as int]);
            assert(s@.subrange(0, i as int).push(s@[i as int]) =~= s@.subrange(0, i + 1));
        }
        i += 1;
    }
    out.push('"' as u8);
    proof {
        assert(s@.subrange(0, s@.len() as int) =~= s@);
        assert(out@ =~= old(out)@ + json_str(s@));
    }
}

/// Append an integer in decimal.
pub fn push_u64(out: &mut Vec<u8>, n: u64)
    ensures
        final(out)@ == old(out)@ + dec_digits(n as nat),
{
    let d = format_u64(n);
    append_bytes(out, d.as_slice());
}

} // verus!
