//! The reserved-zone table: DNS zones that are served locally and never
//! forwarded publicly (loopback, private ranges, link-local, documentation).
//!
//! A name is matched by the longest zone it falls under, without regard to
//! ASCII case, and only at a label boundary.

use vstd::prelude::*;
use vstd::string::StrSliceExecFns;
use crate::domain::{bytes_eq_fold, entry_blocks_name, in_zone, is_apex_of, lower, lower_vec};

verus! {

/// Does some zone of the table contain `name`?
pub open spec fn zone_hit(zones: Seq<Seq<u8>>, name: Seq<u8>) -> bool {
    exists|i: int| 0 <= i < zones.len() && in_zone(name, zones[i])
}

/// Is `name` the apex of some zone of the table?
pub open spec fn apex_hit(zones: Seq<Seq<u8>>, name: Seq<u8>) -> bool {
    exists|i: int| 0 <= i < zones.len() && is_apex_of(name, zones[i])
}

/// The thirty zones of the served registry, in table order: `10.in-addr.arpa.`
/// and the sixteen `16.172` through `31.172` reverse zones, `168.192`, the
/// `0`, loopback, link-local, test-net and broadcast reverse zones, and the
/// IPv6 unspecified, loopback, documentation, unique-local and link-local
/// reverse zones.
pub open spec fn rfc6303_zone_list() -> Seq<Seq<u8>> {
    seq![
        seq!['1' as u8, '0' as u8, '.' as u8, 'i' as u8, 'n' as u8, '-' as u8, 'a' as u8, 'd' as u8, 'd' as u8, 'r' as u8, '.' as u8, 'a' as u8, 'r' as u8, 'p' as u8, 'a' as u8, '.' as u8],
        seq!['1' as u8, '6' as u8, '.' as u8, '1' as u8, '7' as u8, '2' as u8, '.' as u8, 'i' as u8, 'n' as u8, '-' as u8, 'a' as u8, 'd' as u8, 'd' as u8, 'r' as u8, '.' as u8, 'a' as u8, 'r' as u8, 'p' as u8, 'a' as u8, '.' as u8],
        seq!['1' as u8, '7' as u8, '.' as u8, '1' as u8, '7' as u8, '2' as u8, '.' as u8, 'i' as u8, 'n' as u8, '-' as u8, 'a' as u8, 'd' as u8, 'd' as u8, 'r' as u8, '.' as u8, 'a' as u8, 'r' as u8, 'p' as u8, 'a' as u8, '.' as u8],
        seq!['1' as u8, '8' as u8, '.' as u8, '1' as u8, '7' as u8, '2' as u8, '.' as u8, 'i' as u8, 'n' as u8, '-' as u8, 'a' as u8, 'd' as u8, 'd' as u8, 'r' as u8, '.' as u8, 'a' as u8, 'r' as u8, 'p' as u8, 'a' as u8, '.' as u8],
        seq!['1' as u8, '9' as u8, '.' as u8, '1' as u8, '7' as u8, '2' as u8, '.' as u8, 'i' as u8, 'n' as u8, '-' as u8, 'a' as u8, 'd' as u8, 'd' as u8, 'r' as u8, '.' as u8, 'a' as u8, 'r' as u8, 'p' as u8, 'a' as u8, '.' as u8],
        seq!['2' as u8, '0' as u8, '.' as u8, '1' as u8, '7' as u8, '2' as u8, '.' as u8, 'i' as u8, 'n' as u8, '-' as u8, 'a' as u8, 'd' as u8, 'd' as u8, 'r' as u8, '.' as u8, 'a' as u8, 'r' as u8, 'p' as u8, 'a' as u8, '.' as u8],
        seq!['2' as u8, '1' as u8, '.' as u8, '1' as u8, '7' as u8, '2' as u8, '.' as u8, 'i' as u8, 'n' as u8, '-' as u8, 'a' as u8, 'd' as u8, 'd' as u8, 'r' as u8, '.' as u8, 'a' as u8, 'r' as u8, 'p' as u8, 'a' as u8, '.' as u8],
        seq!['2' as u8, '2' as u8, '.' as u8, '1' as u8, '7' as u8, '2' as u8, '.' as u8, 'i' as u8, 'n' as u8, '-' as u8, 'a' as u8, 'd' as u8, 'd' as u8, 'r' as u8, '.' as u8, 'a' as u8, 'r' as u8, 'p' as u8, 'a' as u8, '.' as u8],
        seq!['2' as u8, '3' as u8, '.' as u8, '1' as u8, '7' as u8, '2' as u8, '.' as u8, 'i' as u8, 'n' as u8, '-' as u8, 'a' as u8, 'd' as u8, 'd' as u8, 'r' as u8, '.' as u8, 'a' as u8, 'r' as u8, 'p' as u8, 'a' as u8, '.' as u8],
        seq!['2' as u8, '4' as u8, '.' as u8, '1' as u8, '7' as u8, '2' as u8, '.' as u8, 'i' as u8, 'n' as u8, '-' as u8, 'a' as u8, 'd' as u8, 'd' as u8, 'r' as u8, '.' as u8, 'a' as u8, 'r' as u8, 'p' as u8, 'a' as u8, '.' as u8],
        seq!['2' as u8, '5' as u8, '.' as u8, '1' as u8, '7' as u8, '2' as u8, '.' as u8, 'i' as u8, 'n' as u8, '-' as u8, 'a' as u8, 'd' as u8, 'd' as u8, 'r' as u8, '.' as u8, 'a' as u8, 'r' as u8, 'p' as u8, 'a' as u8, '.' as u8],
        seq!['2' as u8, '6' as u8, '.' as u8, '1' as u8, '7' as u8, '2' as u8, '.' as u8, 'i' as u8, 'n' as u8, '-' as u8, 'a' as u8, 'd' as u8, 'd' as u8, 'r' as u8, '.' as u8, 'a' as u8, 'r' as u8, 'p' as u8, 'a' as u8, '.' as u8],
        seq!['2' as u8, '7' as u8, '.' as u8, '1' as u8, '7' as u8, '2' as u8, '.' as u8, 'i' as u8, 'n' as u8, '-' as u8, 'a' as u8, 'd' as u8, 'd' as u8, 'r' as u8, '.' as u8, 'a' as u8, 'r' as u8, 'p' as u8, 'a' as u8, '.' as u8],
        seq!['2' as u8, '8' as u8, '.' as u8, '1' as u8, '7' as u8, '2' as u8, '.' as u8, 'i' as u8, 'n' as u8, '-' as u8, 'a' as u8, 'd' as u8, 'd' as u8, 'r' as u8, '.' as u8, 'a' as u8, 'r' as u8, 'p' as u8, 'a' as u8, '.' as u8],
        seq!['2' as u8, '9' as u8, '.' as u8, '1' as u8, '7' as u8, '2' as u8, '.' as u8, 'i' as u8, 'n' as u8, '-' as u8, 'a' as u8, 'd' as u8, 'd' as u8, 'r' as u8, '.' as u8, 'a' as u8, 'r' as u8, 'p' as u8, 'a' as u8, '.' as u8],
        seq!['3' as u8, '0' as u8, '.' as u8, '1' as u8, '7' as u8, '2' as u8, '.' as u8, 'i' as u8, 'n' as u8, '-' as u8, 'a' as u8, 'd' as u8, 'd' as u8, 'r' as u8, '.' as u8, 'a' as u8, 'r' as u8, 'p' as u8, 'a' as u8, '.' as u8],
        seq!['3' as u8, '1' as u8, '.' as u8, '1' as u8, '7' as u8, '2' as u8, '.' as u8, 'i' as u8, 'n' as u8, '-' as u8, 'a' as u8, 'd' as u8, 'd' as u8, 'r' as u8, '.' as u8, 'a' as u8, 'r' as u8, 'p' as u8, 'a' as u8, '.' as u8],
        seq!['1' as u8, '6' as u8, '8' as u8, '.' as u8, '1' as u8, '9' as u8, '2' as u8, '.' as u8, 'i' as u8, 'n' as u8, '-' as u8, 'a' as u8, 'd' as u8, 'd' as u8, 'r' as u8, '.' as u8, 'a' as u8, 'r' as u8, 'p' as u8, 'a' as u8, '.' as u8],
        seq!['0' as u8, '.' as u8, 'i' as u8, 'n' as u8, '-' as u8, 'a' as u8, 'd' as u8, 'd' as u8, 'r' as u8, '.' as u8, 'a' as u8, 'r' as u8, 'p' as u8, 'a' as u8, '.' as u8],
        seq!['1' as u8, '2' as u8, '7' as u8, '.' as u8, 'i' as u8, 'n' as u8, '-' as u8, 'a' as u8, 'd' as u8, 'd' as u8, 'r' as u8, '.' as u8, 'a' as u8, 'r' as u8, 'p' as u8, 'a' as u8, '.' as u8],
        seq!['2' as u8, '5' as u8, '4' as u8, '.' as u8, '1' as u8, '6' as u8, '9' as u8, '.' as u8, 'i' as u8, 'n' as u8, '-' as u8, 'a' as u8, 'd' as u8, 'd' as u8, 'r' as u8, '.' as u8, 'a' as u8, 'r' as u8, 'p' as u8, 'a' as u8, '.' as u8],
        seq!['2' as u8, '.' as u8, '0' as u8, '.' as u8, '1' as u8, '9' as u8, '2' as u8, '.' as u8, 'i' as u8, 'n' as u8, '-' as u8, 'a' as u8, 'd' as u8, 'd' as u8, 'r' as u8, '.' as u8, 'a' as u8, 'r' as u8, 'p' as u8, 'a' as u8, '.' as u8],
        seq!['1' as u8, '0' as u8, '0' as u8, '.' as u8, '5' as u8, '1' as u8, '.' as u8, '1' as u8, '9' as u8, '8' as u8, '.' as u8, 'i' as u8, 'n' as u8, '-' as u8, 'a' as u8, 'd' as u8, 'd' as u8, 'r' as u8, '.' as u8, 'a' as u8, 'r' as u8, 'p' as u8, 'a' as u8, '.' as u8],
        seq!['1' as u8, '1' as u8, '3' as u8, '.' as u8, '0' as u8, '.' as u8, '2' as u8, '0' as u8, '3' as u8, '.' as u8, 'i' as u8, 'n' as u8, '-' as u8, 'a' as u8, 'd' as u8, 'd' as u8, 'r' as u8, '.' as u8, 'a' as u8, 'r' as u8, 'p' as u8, 'a' as u8, '.' as u8],
        seq!['2' as u8, '5' as u8, '5' as u8, '.' as u8, '2' as u8, '5' as u8, '5' as u8, '.' as u8, '2' as u8, '5' as u8, '5' as u8, '.' as u8, '2' as u8, '5' as u8, '5' as u8, '.' as u8, 'i' as u8, 'n' as u8, '-' as u8, 'a' as u8, 'd' as u8, 'd' as u8, 'r' as u8, '.' as u8, 'a' as u8, 'r' as u8, 'p' as u8, 'a' as u8, '.' as u8],
        seq!['0' as u8, '.' as u8, '0' as u8, '.' as u8, '0' as u8, '.' as u8, '0' as u8, '.' as u8, '0' as u8, '.' as u8, '0' as u8, '.' as u8, '0' as u8, '.' as u8, '0' as u8, '.' as u8, '0' as u8, '.' as u8, '0' as u8, '.' as u8, '0' as u8, '.' as u8, '0' as u8, '.' as u8, '0' as u8, '.' as u8, '0' as u8, '.' as u8, '0' as u8, '.' as u8, '0' as u8, '.' as u8, '0' as u8, '.' as u8, '0' as u8, '.' as u8, '0' as u8, '.' as u8, '0' as u8, '.' as u8, '0' as u8, '.' as u8, '0' as u8, '.' as u8, '0' as u8, '.' as u8, '0' as u8, '.' as u8, '0' as u8, '.' as u8, '0' as u8, '.' as u8, '0' as u8, '.' as u8, '0' as u8, '.' as u8, '0' as u8, '.' as u8, '0' as u8, '.' as u8, '0' as u8, '.' as u8, '0' as u8, '.' as u8, 'i' as u8, 'p' as u8, '6' as u8, '.' as u8, 'a' as u8, 'r' as u8, 'p' as u8, 'a' as u8, '.' as u8],
        seq!['1' as u8, '.' as u8, '0' as u8, '.' as u8, '0' as u8, '.' as u8, '0' as u8, '.' as u8, '0' as u8, '.' as u8, '0' as u8, '.' as u8, '0' as u8, '.' as u8, '0' as u8, '.' as u8, '0' as u8, '.' as u8, '0' as u8, '.' as u8, '0' as u8, '.' as u8, '0' as u8, '.' as u8, '0' as u8, '.' as u8, '0' as u8, '.' as u8, '0' as u8, '.' as u8, '0' as u8, '.' as u8, '0' as u8, '.' as u8, '0' as u8, '.' as u8, '0' as u8, '.' as u8, '0' as u8, '.' as u8, '0' as u8, '.' as u8, '0' as u8, '.' as u8, '0' as u8, '.' as u8, '0' as u8, '.' as u8, '0' as u8, '.' as u8, '0' as u8, '.' as u8, '0' as u8, '.' as u8, '0' as u8, '.' as u8, '0' as u8, '.' as u8, '0' as u8, '.' as u8, '0' as u8, '.' as u8, '0' as u8, '.' as u8, 'i' as u8, 'p' as u8, '6' as u8, '.' as u8, 'a' as u8, 'r' as u8, 'p' as u8, 'a' as u8, '.' as u8],
        seq!['8' as u8, '.' as u8, 'b' as u8, '.' as u8, 'd' as u8, '.' as u8, '0' as u8, '.' as u8, '1' as u8, '.' as u8, '0' as u8, '.' as u8, '0' as u8, '.' as u8, '2' as u8, '.' as u8, 'i' as u8, 'p' as u8, '6' as u8, '.' as u8, 'a' as u8, 'r' as u8, 'p' as u8, 'a' as u8, '.' as u8],
        seq!['d' as u8, '.' as u8, 'f' as u8, '.' as u8, 'i' as u8, 'p' as u8, '6' as u8, '.' as u8, 'a' as u8, 'r' as u8, 'p' as u8, 'a' as u8, '.' as u8],
        seq!['8' as u8, '.' as u8, 'e' as u8, '.' as u8, 'f' as u8, '.' as u8, 'i' as u8, 'p' as u8, '6' as u8, '.' as u8, 'a' as u8, 'r' as u8, 'p' as u8, 'a' as u8, '.' as u8],
    ]
}

/// The fixed list of locally-served zones.
pub struct ReservedZoneTable {
    zones: Vec<Vec<u8>>,
}

impl View for ReservedZoneTable {
    type V = Seq<Seq<u8>>;

    closed spec fn view(&self) -> Seq<Seq<u8>> {
        self.zones.deep_view()
    }
}

impl ReservedZoneTable {
    /// Build a table from explicit zone names in trailing-dot form.
    pub fn new(zones: Vec<Vec<u8>>) -> (r: ReservedZoneTable)
        ensures
            r@ == zones.deep_view(),
    {
        ReservedZoneTable { zones }
    }

    /// How many zones the table holds.
    pub fn len(&self) -> (r: usize)
        ensures
            r == self@.len(),
    {
        self.zones.len()
    }

    /// The zone at a slot, for inspection.
    pub fn zone_at(&self, i: usize) -> (r: &Vec<u8>)
        requires
            i < self@.len(),
        ensures
            r@ == self@[i as int],
    {
        assert(self@[i as int] == self.zones@[i as int].deep_view());
        &self.zones[i]
    }

    /// The IANA registry of locally-served zones from RFC 6303, exactly the
    /// thirty names of `rfc6303_zone_list`, in order.
    #[verifier::rlimit(60)]
    pub fn rfc6303() -> (r: ReservedZoneTable)
        ensures
            r@ == rfc6303_zone_list(),
            r@.len() == 30,
    {
        let mut zones: Vec<Vec<u8>> = Vec::new();
        let z0: Vec<u8> = vec!['1' as u8, '0' as u8, '.' as u8, 'i' as u8, 'n' as u8, '-' as u8, 'a' as u8, 'd' as u8, 'd' as u8, 'r' as u8, '.' as u8, 'a' as u8, 'r' as u8, 'p' as u8, 'a' as u8, '.' as u8];
        zones.push(z0);
        proof {
            assert(zones.deep_view() =~~= rfc6303_zone_list().subrange(0, 1));
        }
        let z1: Vec<u8> = vec!['1' as u8, '6' as u8, '.' as u8, '1' as u8, '7' as u8, '2' as u8, '.' as u8, 'i' as u8, 'n' as u8, '-' as u8, 'a' as u8, 'd' as u8, 'd' as u8, 'r' as u8, '.' as u8, 'a' as u8, 'r' as u8, 'p' as u8, 'a' as u8, '.' as u8];
        zones.push(z1);
        proof {
            assert(zones.deep_view() =~~= rfc6303_zone_list().subrange(0, 2));
        }
        let z2: Vec<u8> = vec!['1' as u8, '7' as u8, '.' as u8, '1' as u8, '7' as u8, '2' as u8, '.' as u8, 'i' as u8, 'n' as u8, '-' as u8, 'a' as u8, 'd' as u8, 'd' as u8, 'r' as u8, '.' as u8, 'a' as u8, 'r' as u8, 'p' as u8, 'a' as u8, '.' as u8];
        zones.push(z2);
        proof {
            assert(zones.deep_view() =~~= rfc6303_zone_list().subrange(0, 3));
        }
        let z3: Vec<u8> = vec!['1' as u8, '8' as u8, '.' as u8, '1' as u8, '7' as u8, '2' as u8, '.' as u8, 'i' as u8, 'n' as u8, '-' as u8, 'a' as u8, 'd' as u8, 'd' as u8, 'r' as u8, '.' as u8, 'a' as u8, 'r' as u8, 'p' as u8, 'a' as u8, '.' as u8];
        zones.push(z3);
        proof {
            assert(zones.deep_view() =~~= rfc6303_zone_list().subrange(0, 4));
        }
        let z4: Vec<u8> = vec!['1' as u8, '9' as u8, '.' as u8, '1' as u8, '7' as u8, '2' as u8, '.' as u8, 'i' as u8, 'n' as u8, '-' as u8, 'a' as u8, 'd' as u8, 'd' as u8, 'r' as u8, '.' as u8, 'a' as u8, 'r' as u8, 'p' as u8, 'a' as u8, '.' as u8];
        zones.push(z4);
        proof {
            assert(zones.deep_view() =~~= rfc6303_zone_list().subrange(0, 5));
        }
        let z5: Vec<u8> = vec!['2' as u8, '0' as u8, '.' as u8, '1' as u8, '7' as u8, '2' as u8, '.' as u8, 'i' as u8, 'n' as u8, '-' as u8, 'a' as u8, 'd' as u8, 'd' as u8, 'r' as u8, '.' as u8, 'a' as u8, 'r' as u8, 'p' as u8, 'a' as u8, '.' as u8];
        zones.push(z5);
        proof {
            assert(zones.deep_view() =~~= rfc6303_zone_list().subrange(0, 6));
        }
        let z6: Vec<u8> = vec!['2' as u8, '1' as u8, '.' as u8, '1' as u8, '7' as u8, '2' as u8, '.' as u8, 'i' as u8, 'n' as u8, '-' as u8, 'a' as u8, 'd' as u8, 'd' as u8, 'r' as u8, '.' as u8, 'a' as u8, 'r' as u8, 'p' as u8, 'a' as u8, '.' as u8];
        zones.push(z6);
        proof {
            assert(zones.deep_view() =~~= rfc6303_zone_list().subrange(0, 7));
        }
        let z7: Vec<u8> = vec!['2' as u8, '2' as u8, '.' as u8, '1' as u8, '7' as u8, '2' as u8, '.' as u8, 'i' as u8, 'n' as u8, '-' as u8, 'a' as u8, 'd' as u8, 'd' as u8, 'r' as u8, '.' as u8, 'a' as u8, 'r' as u8, 'p' as u8, 'a' as u8, '.' as u8];
        zones.push(z7);
        proof {
            assert(zones.deep_view() =~~= rfc6303_zone_list().subrange(0, 8));
        }
        let z8: Vec<u8> = vec!['2' as u8, '3' as u8, '.' as u8, '1' as u8, '7' as u8, '2' as u8, '.' as u8, 'i' as u8, 'n' as u8, '-' as u8, 'a' as u8, 'd' as u8, 'd' as u8, 'r' as u8, '.' as u8, 'a' as u8, 'r' as u8, 'p' as u8, 'a' as u8, '.' as u8];
        zones.push(z8);
        proof {
            assert(zones.deep_view() =~~= rfc6303_zone_list().subrange(0, 9));
        }
        let z9: Vec<u8> = vec!['2' as u8, '4' as u8, '.' as u8, '1' as u8, '7' as u8, '2' as u8, '.' as u8, 'i' as u8, 'n' as u8, '-' as u8, 'a' as u8, 'd' as u8, 'd' as u8, 'r' as u8, '.' as u8, 'a' as u8, 'r' as u8, 'p' as u8, 'a' as u8, '.' as u8];
        zones.push(z9);
        proof {
            assert(zones.deep_view() =~~= rfc6303_zone_list().subrange(0, 10));
        }
        let z10: Vec<u8> = vec!['2' as u8, '5' as u8, '.' as u8, '1' as u8, '7' as u8, '2' as u8, '.' as u8, 'i' as u8, 'n' as u8, '-' as u8, 'a' as u8, 'd' as u8, 'd' as u8, 'r' as u8, '.' as u8, 'a' as u8, 'r' as u8, 'p' as u8, 'a' as u8, '.' as u8];
        zones.push(z10);
        proof {
            assert(zones.deep_view() =~~= rfc6303_zone_list().subrange(0, 11));
        }
        let z11: Vec<u8> = vec!['2' as u8, '6' as u8, '.' as u8, '1' as u8, '7' as u8, '2' as u8, '.' as u8, 'i' as u8, 'n' as u8, '-' as u8, 'a' as u8, 'd' as u8, 'd' as u8, 'r' as u8, '.' as u8, 'a' as u8, 'r' as u8, 'p' as u8, 'a' as u8, '.' as u8];
        zones.push(z11);
        proof {
            assert(zones.deep_view() =~~= rfc6303_zone_list().subrange(0, 12));
        }
        let z12: Vec<u8> = vec!['2' as u8, '7' as u8, '.' as u8, '1' as u8, '7' as u8, '2' as u8, '.' as u8, 'i' as u8, 'n' as u8, '-' as u8, 'a' as u8, 'd' as u8, 'd' as u8, 'r' as u8, '.' as u8, 'a' as u8, 'r' as u8, 'p' as u8, 'a' as u8, '.' as u8];
        zones.push(z12);
        proof {
            assert(zones.deep_view() =~~= rfc6303_zone_list().subrange(0, 13));
        }
        let z13: Vec<u8> = vec!['2' as u8, '8' as u8, '.' as u8, '1' as u8, '7' as u8, '2' as u8, '.' as u8, 'i' as u8, 'n' as u8, '-' as u8, 'a' as u8, 'd' as u8, 'd' as u8, 'r' as u8, '.' as u8, 'a' as u8, 'r' as u8, 'p' as u8, 'a' as u8, '.' as u8];
        zones.push(z13);
        proof {
            assert(zones.deep_view() =~~= rfc6303_zone_list().subrange(0, 14));
        }
        let z14: Vec<u8> = vec!['2' as u8, '9' as u8, '.' as u8, '1' as u8, '7' as u8, '2' as u8, '.' as u8, 'i' as u8, 'n' as u8, '-' as u8, 'a' as u8, 'd' as u8, 'd' as u8, 'r' as u8, '.' as u8, 'a' as u8, 'r' as u8, 'p' as u8, 'a' as u8, '.' as u8];
        zones.push(z14);
        proof {
            assert(zones.deep_view() =~~= rfc6303_zone_list().subrange(0, 15));
        }
        let z15: Vec<u8> = vec!['3' as u8, '0' as u8, '.' as u8, '1' as u8, '7' as u8, '2' as u8, '.' as u8, 'i' as u8, 'n' as u8, '-' as u8, 'a' as u8, 'd' as u8, 'd' as u8, 'r' as u8, '.' as u8, 'a' as u8, 'r' as u8, 'p' as u8, 'a' as u8, '.' as u8];
        zones.push(z15);
        proof {
            assert(zones.deep_view() =~~= rfc6303_zone_list().subrange(0, 16));
        }
        let z16: Vec<u8> = vec!['3' as u8, '1' as u8, '.' as u8, '1' as u8, '7' as u8, '2' as u8, '.' as u8, 'i' as u8, 'n' as u8, '-' as u8, 'a' as u8, 'd' as u8, 'd' as u8, 'r' as u8, '.' as u8, 'a' as u8, 'r' as u8, 'p' as u8, 'a' as u8, '.' as u8];
        zones.push(z16);
        proof {
            assert(zones.deep_view() =~~= rfc6303_zone_list().subrange(0, 17));
        }
        let z17: Vec<u8> = vec!['1' as u8, '6' as u8, '8' as u8, '.' as u8, '1' as u8, '9' as u8, '2' as u8, '.' as u8, 'i' as u8, 'n' as u8, '-' as u8, 'a' as u8, 'd' as u8, 'd' as u8, 'r' as u8, '.' as u8, 'a' as u8, 'r' as u8, 'p' as u8, 'a' as u8, '.' as u8];
        zones.push(z17);
        proof {
            assert(zones.deep_view() =~~= rfc6303_zone_list().subrange(0, 18));
        }
        let z18: Vec<u8> = vec!['0' as u8, '.' as u8, 'i' as u8, 'n' as u8, '-' as u8, 'a' as u8, 'd' as u8, 'd' as u8, 'r' as u8, '.' as u8, 'a' as u8, 'r' as u8, 'p' as u8, 'a' as u8, '.' as u8];
        zones.push(z18);
        proof {
            assert(zones.deep_view() =~~= rfc6303_zone_list().subrange(0, 19));
        }
        let z19: Vec<u8> = vec!['1' as u8, '2' as u8, '7' as u8, '.' as u8, 'i' as u8, 'n' as u8, '-' as u8, 'a' as u8, 'd' as u8, 'd' as u8, 'r' as u8, '.' as u8, 'a' as u8, 'r' as u8, 'p' as u8, 'a' as u8, '.' as u8];
        zones.push(z19);
        proof {
            assert(zones.deep_view() =~~= rfc6303_zone_list().subrange(0, 20));
        }
        let z20: Vec<u8> = vec!['2' as u8, '5' as u8, '4' as u8, '.' as u8, '1' as u8, '6' as u8, '9' as u8, '.' as u8, 'i' as u8, 'n' as u8, '-' as u8, 'a' as u8, 'd' as u8, 'd' as u8, 'r' as u8, '.' as u8, 'a' as u8, 'r' as u8, 'p' as u8, 'a' as u8, '.' as u8];
        zones.push(z20);
        proof {
            assert(zones.deep_view() =~~= rfc6303_zone_list().subrange(0, 21));
        }
        let z21: Vec<u8> = vec!['2' as u8, '.' as u8, '0' as u8, '.' as u8, '1' as u8, '9' as u8, '2' as u8, '.' as u8, 'i' as u8, 'n' as u8, '-' as u8, 'a' as u8, 'd' as u8, 'd' as u8, 'r' as u8, '.' as u8, 'a' as u8, 'r' as u8, 'p' as u8, 'a' as u8, '.' as u8];
        zones.push(z21);
        proof {
            assert(zones.deep_view() =~~= rfc6303_zone_list().subrange(0, 22));
        }
        let z22: Vec<u8> = vec!['1' as u8, '0' as u8, '0' as u8, '.' as u8, '5' as u8, '1' as u8, '.' as u8, '1' as u8, '9' as u8, '8' as u8, '.' as u8, 'i' as u8, 'n' as u8, '-' as u8, 'a' as u8, 'd' as u8, 'd' as u8, 'r' as u8, '.' as u8, 'a' as u8, 'r' as u8, 'p' as u8, 'a' as u8, '.' as u8];
        zones.push(z22);
        proof {
            assert(zones.deep_view() =~~= rfc6303_zone_list().subrange(0, 23));
        }
        let z23: Vec<u8> = vec!['1' as u8, '1' as u8, '3' as u8, '.' as u8, '0' as u8, '.' as u8, '2' as u8, '0' as u8, '3' as u8, '.' as u8, 'i' as u8, 'n' as u8, '-' as u8, 'a' as u8, 'd' as u8, 'd' as u8, 'r' as u8, '.' as u8, 'a' as u8, 'r' as u8, 'p' as u8, 'a' as u8, '.' as u8];
        zones.push(z23);
        proof {
            assert(zones.deep_view() =~~= rfc6303_zone_list().subrange(0, 24));
        }
        let z24: Vec<u8> = vec!['2' as u8, '5' as u8, '5' as u8, '.' as u8, '2' as u8, '5' as u8, '5' as u8, '.' as u8, '2' as u8, '5' as u8, '5' as u8, '.' as u8, '2' as u8, '5' as u8, '5' as u8, '.' as u8, 'i' as u8, 'n' as u8, '-' as u8, 'a' as u8, 'd' as u8, 'd' as u8, 'r' as u8, '.' as u8, 'a' as u8, 'r' as u8, 'p' as u8, 'a' as u8, '.' as u8];
        zones.push(z24);
        proof {
            assert(zones.deep_view() =~~= rfc6303_zone_list().subrange(0, 25));
        }
        let z25: Vec<u8> = vec!['0' as u8, '.' as u8, '0' as u8, '.' as u8, '0' as u8, '.' as u8, '0' as u8, '.' as u8, '0' as u8, '.' as u8, '0' as u8, '.' as u8, '0' as u8, '.' as u8, '0' as u8, '.' as u8, '0' as u8, '.' as u8, '0' as u8, '.' as u8, '0' as u8, '.' as u8, '0' as u8, '.' as u8, '0' as u8, '.' as u8, '0' as u8, '.' as u8, '0' as u8, '.' as u8, '0' as u8, '.' as u8, '0' as u8, '.' as u8, '0' as u8, '.' as u8, '0' as u8, '.' as u8, '0' as u8, '.' as u8, '0' as u8, '.' as u8, '0' as u8, '.' as u8, '0' as u8, '.' as u8, '0' as u8, '.' as u8, '0' as u8, '.' as u8, '0' as u8, '.' as u8, '0' as u8, '.' as u8, '0' as u8, '.' as u8, '0' as u8, '.' as u8, '0' as u8, '.' as u8, '0' as u8, '.' as u8, '0' as u8, '.' as u8, 'i' as u8, 'p' as u8, '6' as u8, '.' as u8, 'a' as u8, 'r' as u8, 'p' as u8, 'a' as u8, '.' as u8];
        zones.push(z25);
        proof {
            assert(zones.deep_view() =~~= rfc6303_zone_list().subrange(0, 26));
        }
        let z26: Vec<u8> = vec!['1' as u8, '.' as u8, '0' as u8, '.' as u8, '0' as u8, '.' as u8, '0' as u8, '.' as u8, '0' as u8, '.' as u8, '0' as u8, '.' as u8, '0' as u8, '.' as u8, '0' as u8, '.' as u8, '0' as u8, '.' as u8, '0' as u8, '.' as u8, '0' as u8, '.' as u8, '0' as u8, '.' as u8, '0' as u8, '.' as u8, '0' as u8, '.' as u8, '0' as u8, '.' as u8, '0' as u8, '.' as u8, '0' as u8, '.' as u8, '0' as u8, '.' as u8, '0' as u8, '.' as u8, '0' as u8, '.' as u8, '0' as u8, '.' as u8, '0' as u8, '.' as u8, '0' as u8, '.' as u8, '0' as u8, '.' as u8, '0' as u8, '.' as u8, '0' as u8, '.' as u8, '0' as u8, '.' as u8, '0' as u8, '.' as u8, '0' as u8, '.' as u8, '0' as u8, '.' as u8, '0' as u8, '.' as u8, '0' as u8, '.' as u8, 'i' as u8, 'p' as u8, '6' as u8, '.' as u8, 'a' as u8, 'r' as u8, 'p' as u8, 'a' as u8, '.' as u8];
        zones.push(z26);
        proof {
            assert(zones.deep_view() =~~= rfc6303_zone_list().subrange(0, 27));
        }
        let z27: Vec<u8> = vec!['8' as u8, '.' as u8, 'b' as u8, '.' as u8, 'd' as u8, '.' as u8, '0' as u8, '.' as u8, '1' as u8, '.' as u8, '0' as u8, '.' as u8, '0' as u8, '.' as u8, '2' as u8, '.' as u8, 'i' as u8, 'p' as u8, '6' as u8, '.' as u8, 'a' as u8, 'r' as u8, 'p' as u8, 'a' as u8, '.' as u8];
        zones.push(z27);
        proof {
            assert(zones.deep_view() =~~= rfc6303_zone_list().subrange(0, 28));
        }
        let z28: Vec<u8> = vec!['d' as u8, '.' as u8, 'f' as u8, '.' as u8, 'i' as u8, 'p' as u8, '6' as u8, '.' as u8, 'a' as u8, 'r' as u8, 'p' as u8, 'a' as u8, '.' as u8];
        zones.push(z28);
        proof {
            assert(zones.deep_view() =~~= rfc6303_zone_list().subrange(0, 29));
        }
        let z29: Vec<u8> = vec!['8' as u8, '.' as u8, 'e' as u8, '.' as u8, 'f' as u8, '.' as u8, 'i' as u8, 'p' as u8, '6' as u8, '.' as u8, 'a' as u8, 'r' as u8, 'p' as u8, 'a' as u8, '.' as u8];
        zones.push(z29);
        proof {
            assert(zones.deep_view() =~~= rfc6303_zone_list().subrange(0, 30));
        }
        proof {
            assert(rfc6303_zone_list().subrange(0, 30) =~= rfc6303_zone_list());
        }
        ReservedZoneTable { zones }
    }

    /// The longest zone containing `name`, if any: `None` means no zone of
    /// the table contains the name; `Some(i)` points at a containing zone at
    /// least as long as every other containing zone.
    pub fn lookup(&self, name: &[u8]) -> (r: Option<usize>)
        ensures
            match r {
                Option::None => !zone_hit(self@, name@),
                Option::Some(i) => {
                    &&& i < self@.len()
                    &&& in_zone(name@, self@[i as int])
                    &&& forall|j: int|
                        0 <= j < self@.len() && in_zone(name@, self@[j]) ==> self@[j].len()
                            <= self@[i as int].len()
                },
            },
    {
        let folded = lower_vec(name);
        let mut best: Option<usize> = Option::None;
        let mut i: usize = 0;
        while i < self.zones.len()
            invariant
                i <= self.zones.len(),
                self@.len() == self.zones@.len(),
                folded@ == lower(name@),
                forall|j: int| 0 <= j < self@.len() ==> self@[j] == self.zones@[j].deep_view(),
                match best {
                    Option::None => forall|j: int| 0 <= j < i ==> !in_zone(name@, self@[j]),
                    Option::Some(b) => {
                        &&& b < i
                        &&& in_zone(name@, self@[b as int])
                        &&& forall|j: int|
                            0 <= j < i && in_zone(name@, self@[j]) ==> self@[j].len()
                                <= self@[b as int].len()
                    },
                },
            decreases self.zones.len() - i,
        {
            let zone_folded = lower_vec(self.zones[i].as_slice());
            assert(zone_folded@ == lower(self@[i as int]));
            let hit = entry_blocks_name(folded.as_slice(), zone_folded.as_slice());
            assert(hit == in_zone(name@, self@[i as int]));
            if hit {
                let better = match best {
                    Option::None => true,
                    Option::Some(b) => {
                        assert(self@[b as int] == self.zones@[b as int].deep_view());
                        self.zones[i].len() > self.zones[b].len()
                    },
                };
                if better {
                    best = Option::Some(i);
                }
            }
            i += 1;
        }
        best
    }

    /// Is `name` exactly the apex of the zone at slot `i`?
    pub fn is_apex(&self, name: &[u8], i: usize) -> (r: bool)
        requires
            i < self@.len(),
        ensures
            r == is_apex_of(name@, self@[i as int]),
    {
        assert(self@[i as int] == self.zones@[i as int].deep_view());
        assert(self.zones@[i as int].deep_view() =~= self.zones@[i as int]@);
        bytes_eq_fold(name, self.zones[i].as_slice())
    }
}

/// A name contained in any one zone of a table is matched by the table.
pub proof fn lemma_member_zone_hit(zones: Seq<Seq<u8>>, name: Seq<u8>, i: int)
    requires
        0 <= i < zones.len(),
        in_zone(name, zones[i]),
    ensures
        zone_hit(zones, name),
{
}

/// A name equal to some zone of a table up to ASCII case is an apex hit of
/// the table, and in particular is matched by it.
pub proof fn lemma_member_apex_hit(zones: Seq<Seq<u8>>, name: Seq<u8>, i: int)
    requires
        0 <= i < zones.len(),
        is_apex_of(name, zones[i]),
    ensures
        apex_hit(zones, name),
        zone_hit(zones, name),
{
    assert(in_zone(name, zones[i]));
}

/// A zone longer than a name cannot contain it, so a table all of whose
/// zones are longer than the name misses it entirely.
pub proof fn lemma_longer_zones_miss(zones: Seq<Seq<u8>>, name: Seq<u8>)
    requires
        forall|i: int| 0 <= i < zones.len() ==> (#[trigger] zones[i]).len() > name.len(),
    ensures
        !zone_hit(zones, name),
{
    assert forall|i: int| 0 <= i < zones.len() implies !in_zone(name, zones[i]) by {
        assert(lower(name).len() == name.len());
        assert(lower(zones[i]).len() == zones[i].len());
    }
}

/// Law: names shorter than every zone of the served registry — such as
/// `example.com.`, twelve bytes — fall under no reserved zone: the
/// registry's shortest zone is thirteen bytes long.
pub proof fn lemma_rfc6303_misses_short_names(name: Seq<u8>)
    requires
        name.len() < 13,
    ensures
        !zone_hit(rfc6303_zone_list(), name),
{
    assert forall|i: int|
        0 <= i < rfc6303_zone_list().len() implies (#[trigger] rfc6303_zone_list()[i]).len()
        > name.len() by {
        assert(rfc6303_zone_list()[i].len() >= 13);
    }
    lemma_longer_zones_miss(rfc6303_zone_list(), name);
}

/// Law: reserved-zone matching is case-insensitive. Whether a name falls
/// inside a zone, or is its apex, depends only on the ASCII-lowercased
/// spellings of the two names: any case variants match alike.
pub proof fn lemma_zone_match_case_insensitive(a: Seq<u8>, b: Seq<u8>, y: Seq<u8>, z: Seq<u8>)
    requires
        lower(a) == lower(b),
        lower(y) == lower(z),
    ensures
        in_zone(a, y) == in_zone(b, z),
        is_apex_of(a, y) == is_apex_of(b, z),
{
}

/// Apex queries sit inside their zone: the zone that a name equals (up to
/// ASCII case) also contains it.
pub proof fn lemma_apex_is_hit(zones: Seq<Seq<u8>>, name: Seq<u8>)
    requires
        apex_hit(zones, name),
    ensures
        zone_hit(zones, name),
{
    let i = choose|i: int| 0 <= i < zones.len() && is_apex_of(name, zones[i]);
    assert(in_zone(name, zones[i]));
}

/// A containing zone is never longer than the name itself, and a containing
/// zone as long as the name is its apex. Hence, whenever a name is the apex
/// of some zone, every longest containing zone is one it is the apex of.
pub proof fn lemma_longest_hit_is_apex(zones: Seq<Seq<u8>>, name: Seq<u8>, i: int)
    requires
        0 <= i < zones.len(),
        in_zone(name, zones[i]),
        forall|j: int| 0 <= j < zones.len() && in_zone(name, zones[j]) ==> zones[j].len() <= zones[i].len(),
        apex_hit(zones, name),
    ensures
        is_apex_of(name, zones[i]),
{
    let a = choose|a: int| 0 <= a < zones.len() && is_apex_of(name, zones[a]);
    assert(lower(name).len() == lower(zones[a]).len());
    assert(zones[a].len() == name.len());
    assert(in_zone(name, zones[a]));
    assert(zones[a].len() <= zones[i].len());
    // A containing zone is at most as long as the name.
    assert(lower(zones[i]).len() == zones[i].len());
    assert(zones[i].len() <= name.len());
    assert(zones[i].len() == name.len());
    // Equal length rules out the strict-suffix case of containment.
    assert(lower(name) == lower(zones[i]));
}

} // verus!
