//! The plain data model of a DNS exchange as the proxy sees it.
//!
//! The wire codec lives outside: the proxy consumes a parsed request (name,
//! class, type, opcode, message kind, EDNS parameters, source address) and
//! produces a response header, resource-record sections, and an optional
//! EDNS record. Upstream records pass through as opaque payloads.

use vstd::prelude::*;
use crate::domain::append_bytes;

verus! {

/// DNS wire value of the SOA record type.
pub const TYPE_SOA: u16 = 6;

/// DNS wire value of the NS record type.
pub const TYPE_NS: u16 = 2;

/// DNS wire value of the QUERY opcode.
pub const OPCODE_QUERY: u8 = 0;

/// Lowest EDNS payload size ever advertised back.
pub const EDNS_PAYLOAD_FLOOR: u16 = 512;

/// Fixed ceiling on the EDNS payload size advertised back.
pub const EDNS_PAYLOAD_CEILING: u16 = 4096;

/// The message kind bit: a query or a response.
#[derive(Clone, Copy, PartialEq, Eq, Structural, Debug)]
pub enum MessageKind {
    Query,
    Response,
}

/// A DNS response code, with unrecognized wire values carried through.
#[derive(Clone, Copy, PartialEq, Eq, Structural, Debug)]
pub enum ResponseCode {
    NoError,
    FormErr,
    ServFail,
    NXDomain,
    NotImp,
    Refused,
    BadVers,
    Other(u16),
}

/// EDNS parameters of a request or a response.
#[derive(Clone, Copy, PartialEq, Eq, Structural, Debug)]
pub struct EdnsInfo {
    pub version: u8,
    pub max_payload: u16,
    pub dnssec_ok: bool,
}

/// One parsed inbound query, scoped to a single request.
pub struct QueryInfo {
    pub kind: MessageKind,
    pub op_code: u8,
    pub name: Vec<u8>,
    pub query_class: u16,
    pub query_type: u16,
    pub edns: Option<EdnsInfo>,
    pub src_ip: Vec<u8>,
    pub src_port: u16,
}

/// A synthesized start-of-authority record.
pub struct SoaRecord {
    pub zone: Vec<u8>,
    pub mname: Vec<u8>,
    pub rname: Vec<u8>,
    pub serial: u32,
    pub refresh: u32,
    pub retry: u32,
    pub expire: u32,
    pub minimum: u32,
}

/// A synthesized name-server record.
pub struct NsRecord {
    pub zone: Vec<u8>,
    pub nsdname: Vec<u8>,
}

/// A record in an outgoing section: synthesized here, or an upstream record
/// passed through verbatim as an opaque payload.
pub enum Record<R> {
    Soa(SoaRecord),
    Ns(NsRecord),
    Passthrough(R),
}

/// What the upstream resolver answered, already parsed by the adapter.
pub struct UpstreamResponse<R> {
    pub response_code: ResponseCode,
    pub recursion_available: bool,
    pub answers: Vec<R>,
    pub name_servers: Vec<R>,
    pub additionals: Vec<R>,
}

/// The outgoing response: header flags, sections, and the EDNS record.
pub struct ResponseModel<R> {
    pub response_code: ResponseCode,
    pub authoritative: bool,
    pub recursion_available: bool,
    pub answers: Vec<Record<R>>,
    pub name_servers: Vec<Record<R>>,
    pub additionals: Vec<Record<R>>,
    pub edns: Option<EdnsInfo>,
}

/// The payload size answered for an advertised size: at least the floor,
/// capped at the fixed ceiling.
pub open spec fn clamp_payload(p: u16) -> u16 {
    if p < EDNS_PAYLOAD_FLOOR {
        EDNS_PAYLOAD_FLOOR
    } else if p > EDNS_PAYLOAD_CEILING {
        EDNS_PAYLOAD_CEILING
    } else {
        p
    }
}

/// The EDNS record answered to a request that carried one: version 0,
/// DNSSEC-OK set, payload size clamped.
pub open spec fn negotiated_edns(req: EdnsInfo) -> EdnsInfo {
    EdnsInfo { version: 0, max_payload: clamp_payload(req.max_payload), dnssec_ok: true }
}

/// The EDNS record of the outgoing response: present exactly when the
/// request carried EDNS.
pub open spec fn response_edns(edns: Option<EdnsInfo>) -> Option<EdnsInfo> {
    match edns {
        Option::Some(e) => Option::Some(negotiated_edns(e)),
        Option::None => Option::None,
    }
}

/// Build the response EDNS record for a request.
pub fn negotiate_edns(req: &EdnsInfo) -> (r: EdnsInfo)
    ensures
        r == negotiated_edns(*req),
{
    let p: u16 = if req.max_payload < EDNS_PAYLOAD_FLOOR {
        EDNS_PAYLOAD_FLOOR
    } else if req.max_payload > EDNS_PAYLOAD_CEILING {
        EDNS_PAYLOAD_CEILING
    } else {
        req.max_payload
    };
    EdnsInfo { version: 0, max_payload: p, dnssec_ok: true }
}

/// The authority name of synthesized records: `ns.` + service zone.
pub open spec fn authority_name(service: Seq<u8>) -> Seq<u8> {
    seq!['n' as u8, 's' as u8, '.' as u8] + service
}

/// The contact name of synthesized records: `hostmaster.` + service zone.
pub open spec fn contact_name(service: Seq<u8>) -> Seq<u8> {
    seq![
        'h' as u8,
        'o' as u8,
        's' as u8,
        't' as u8,
        'm' as u8,
        'a' as u8,
        's' as u8,
        't' as u8,
        'e' as u8,
        'r' as u8,
        '.' as u8,
    ] + service
}

/// The synthesized SOA for `zone`: fixed authority and contact names and
/// fixed timers (serial 1, refresh 3600 s, retry 1800 s, expire 604800 s,
/// minimum/negative-cache TTL 3600 s).
pub open spec fn soa_fields_ok(s: SoaRecord, zone: Seq<u8>, service: Seq<u8>) -> bool {
    &&& s.zone@ == zone
    &&& s.mname@ == authority_name(service)
    &&& s.rname@ == contact_name(service)
    &&& s.serial == 1u32
    &&& s.refresh == 3600u32
    &&& s.retry == 1800u32
    &&& s.expire == 604800u32
    &&& s.minimum == 3600u32
}

/// The synthesized NS for `zone`, pointing at the same authority name.
pub open spec fn ns_fields_ok(n: NsRecord, zone: Seq<u8>, service: Seq<u8>) -> bool {
    &&& n.zone@ == zone
    &&& n.nsdname@ == authority_name(service)
}

/// Synthesize the zone-specific SOA record.
pub fn synth_soa(zone: &[u8], service: &[u8]) -> (r: SoaRecord)
    ensures
        soa_fields_ok(r, zone@, service@),
{
    let mut mname: Vec<u8> = vec!['n' as u8, 's' as u8, '.' as u8];
    append_bytes(&mut mname, service);
    let mut rname: Vec<u8> = vec![
        'h' as u8,
        'o' as u8,
        's' as u8,
        't' as u8,
        'm' as u8,
        'a' as u8,
        's' as u8,
        't' as u8,
        'e' as u8,
        'r' as u8,
        '.' as u8,
    ];
    append_bytes(&mut rname, service);
    let mut zone_owned: Vec<u8> = Vec::new();
    append_bytes(&mut zone_owned, zone);
    assert(zone_owned@ =~= zone@);
    SoaRecord {
        zone: zone_owned,
        mname,
        rname,
        serial: 1,
        refresh: 3600,
        retry: 1800,
        expire: 604800,
        minimum: 3600,
    }
}

/// Synthesize the zone-specific NS record.
pub fn synth_ns(zone: &[u8], service: &[u8]) -> (r: NsRecord)
    ensures
        ns_fields_ok(r, zone@, service@),
{
    let mut nsdname: Vec<u8> = vec!['n' as u8, 's' as u8, '.' as u8];
    append_bytes(&mut nsdname, service);
    let mut zone_owned: Vec<u8> = Vec::new();
    append_bytes(&mut zone_owned, zone);
    assert(zone_owned@ =~= zone@);
    NsRecord { zone: zone_owned, nsdname }
}

} // verus!
