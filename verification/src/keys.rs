//! Storage keys for flushed batches.
//!
//! One write happens per flush; its key is composed of the optional prefix,
//! the record kind, the UTC date, and a fresh unique identifier, so no two
//! flushes ever collide and no read-modify-write is needed.

use vstd::prelude::*;
use crate::domain::append_bytes;
use crate::stamp::{date_str_of, fresh_event_id, utc_date_string};

verus! {

/// The `.json` suffix of every storage key.
pub open spec fn json_suffix() -> Seq<u8> {
    seq!['.' as u8, 'j' as u8, 's' as u8, 'o' as u8, 'n' as u8]
}

/// The key written for one flush: `[prefix/]kind/date/id.json`.
pub open spec fn object_key_spec(
    prefix: Option<Seq<u8>>,
    kind: Seq<u8>,
    date: Seq<u8>,
    id: Seq<u8>,
) -> Seq<u8> {
    let tail = kind + seq!['/' as u8] + date + seq!['/' as u8] + id + json_suffix();
    match prefix {
        Option::Some(p) => p + seq!['/' as u8] + tail,
        Option::None => tail,
    }
}

/// Assemble the key from explicit parts.
pub fn object_key(prefix: Option<&Vec<u8>>, kind: &[u8], date: &[u8], id: &[u8]) -> (r: Vec<u8>)
    ensures
        r@ == object_key_spec(
            match prefix {
                Option::Some(p) => Option::Some(p@),
                Option::None => Option::None,
            },
            kind@,
            date@,
            id@,
        ),
{
    let mut out: Vec<u8> = Vec::new();
    if let Option::Some(p) = prefix {
        append_bytes(&mut out, p.as_slice());
        out.push('/' as u8);
    }
    append_bytes(&mut out, kind);
    out.push('/' as u8);
    append_bytes(&mut out, date);
    out.push('/' as u8);
    append_bytes(&mut out, id);
    out.push('.' as u8);
    out.push('j' as u8);
    out.push('s' as u8);
    out.push('o' as u8);
    out.push('n' as u8);
    proof {
        let pv = match prefix {
            Option::Some(p) => Option::Some(p@),
            Option::None => Option::<Seq<u8>>::None,
        };
        assert(out@ =~= object_key_spec(pv, kind@, date@, id@));
    }
    out
}

/// Mint the key for one flush at the given time: the optional prefix, the
/// record kind, the UTC date of the timestamp, and a fresh 36-byte unique
/// identifier.
pub fn storage_key(prefix: Option<&Vec<u8>>, kind: &[u8], now_ms: i64) -> (r: Vec<u8>)
    ensures
        exists|id: Seq<u8>|
            id.len() == 36 && r@ == object_key_spec(
                match prefix {
                    Option::Some(p) => Option::Some(p@),
                    Option::None => Option::None,
                },
                kind@,
                date_str_of(now_ms),
                id,
            ),
{
    let id = fresh_event_id();
    let date = utc_date_string(now_ms);
    let r = object_key(prefix, kind, date.as_slice(), id.as_slice());
    proof {
        let pv = match prefix {
            Option::Some(p) => Option::Some(p@),
            Option::None => Option::<Seq<u8>>::None,
        };
        assert(id@.len() == 36 && r@ == object_key_spec(pv, kind@, date_str_of(now_ms), id@));
    }
    r
}

/// Mint the path of one flush in the HTTP-volume backend: derived the same
/// way as the object-storage key, without a prefix.
pub fn volume_path(kind: &[u8], now_ms: i64) -> (r: Vec<u8>)
    ensures
        exists|id: Seq<u8>|
            id.len() == 36 && r@ == object_key_spec(
                Option::None,
                kind@,
                date_str_of(now_ms),
                id,
            ),
{
    storage_key(Option::None, kind, now_ms)
}

} // verus!
