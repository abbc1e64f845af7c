//! Audit records and their persisted form.
//!
//! Every request yields a request record keyed by a correlation id, and a
//! response record with the same id and the response code actually sent.
//! Records are immutable once created and persist as one JSON object per
//! line; numeric protocol values appear under their textual mnemonics.

use vstd::prelude::*;
use vstd::slice::slice_to_vec;
use crate::domain::append_bytes;
use crate::encode::{dec_digits, json_str, push_json_str, push_u64, format_u64};
use crate::message::{QueryInfo, ResponseCode};

verus! {

/// The textual name of a DNS class: the mnemonic where standard, else `CLASS` and the wire value.
pub open spec fn class_text(c: u16) -> Seq<u8> {
    if c == 1 {
        seq!['I' as u8, 'N' as u8]
    } else if c == 3 {
        seq!['C' as u8, 'H' as u8]
    } else if c == 4 {
        seq!['H' as u8, 'S' as u8]
    } else if c == 254 {
        seq!['N' as u8, 'O' as u8, 'N' as u8, 'E' as u8]
    } else if c == 255 {
        seq!['A' as u8, 'N' as u8, 'Y' as u8]
    } else {
        seq!['C' as u8, 'L' as u8, 'A' as u8, 'S' as u8, 'S' as u8] + dec_digits(c as nat)
    }
}

/// Format as text: see `class_text`.
pub fn class_name(c: u16) -> (r: Vec<u8>)
    ensures
        r@ == class_text(c),
{
    if c == 1 {
        let v: Vec<u8> = vec!['I' as u8, 'N' as u8];
        assert(v@ =~= class_text(c));
        v
    } else if c == 3 {
        let v: Vec<u8> = vec!['C' as u8, 'H' as u8];
        assert(v@ =~= class_text(c));
        v
    } else if c == 4 {
        let v: Vec<u8> = vec!['H' as u8, 'S' as u8];
        assert(v@ =~= class_text(c));
        v
    } else if c == 254 {
        let v: Vec<u8> = vec!['N' as u8, 'O' as u8, 'N' as u8, 'E' as u8];
        assert(v@ =~= class_text(c));
        v
    } else if c == 255 {
        let v: Vec<u8> = vec!['A' as u8, 'N' as u8, 'Y' as u8];
        assert(v@ =~= class_text(c));
        v
    } else {
        let mut v: Vec<u8> = vec!['C' as u8, 'L' as u8, 'A' as u8, 'S' as u8, 'S' as u8];
        let d = format_u64(c as u64);
        append_bytes(&mut v, d.as_slice());
        assert(v@ =~= class_text(c));
        v
    }
}

/// The textual name of a DNS record type: the mnemonic where common, else `TYPE` and the wire value.
pub open spec fn type_text(c: u16) -> Seq<u8> {
    if c == 1 {
        seq!['A' as u8]
    } else if c == 2 {
        seq!['N' as u8, 'S' as u8]
    } else if c == 5 {
        seq!['C' as u8, 'N' as u8, 'A' as u8, 'M' as u8, 'E' as u8]
    } else if c == 6 {
        seq!['S' as u8, 'O' as u8, 'A' as u8]
    } else if c == 12 {
        seq!['P' as u8, 'T' as u8, 'R' as u8]
    } else if c == 15 {
        seq!['M' as u8, 'X' as u8]
    } else if c == 16 {
        seq!['T' as u8, 'X' as u8, 'T' as u8]
    } else if c == 28 {
        seq!['A' as u8, 'A' as u8, 'A' as u8, 'A' as u8]
    } else if c == 33 {
        seq!['S' as u8, 'R' as u8, 'V' as u8]
    } else if c == 41 {
        seq!['O' as u8, 'P' as u8, 'T' as u8]
    } else if c == 255 {
        seq!['A' as u8, 'N' as u8, 'Y' as u8]
    } else {
        seq!['T' as u8, 'Y' as u8, 'P' as u8, 'E' as u8] + dec_digits(c as nat)
    }
}

/// Format as text: see `type_text`.
pub fn rtype_name(c: u16) -> (r: Vec<u8>)
    ensures
        r@ == type_text(c),
{
    if c == 1 {
        let v: Vec<u8> = vec!['A' as u8];
        assert(v@ =~= type_text(c));
        v
    } else if c == 2 {
        let v: Vec<u8> = vec!['N' as u8, 'S' as u8];
        assert(v@ =~= type_text(c));
        v
    } else if c == 5 {
        let v: Vec<u8> = vec!['C' as u8, 'N' as u8, 'A' as u8, 'M' as u8, 'E' as u8];
        assert(v@ =~= type_text(c));
        v
    } else if c == 6 {
        let v: Vec<u8> = vec!['S' as u8, 'O' as u8, 'A' as u8];
        assert(v@ =~= type_text(c));
        v
    } else if c == 12 {
        let v: Vec<u8> = vec!['P' as u8, 'T' as u8, 'R' as u8];
        assert(v@ =~= type_text(c));
        v
    } else if c == 15 {
        let v: Vec<u8> = vec!['M' as u8, 'X' as u8];
        assert(v@ =~= type_text(c));
        v
    } else if c == 16 {
        let v: Vec<u8> = vec!['T' as u8, 'X' as u8, 'T' as u8];
        assert(v@ =~= type_text(c));
        v
    } else if c == 28 {
        let v: Vec<u8> = vec!['A' as u8, 'A' as u8, 'A' as u8, 'A' as u8];
        assert(v@ =~= type_text(c));
        v
    } else if c == 33 {
        let v: Vec<u8> = vec!['S' as u8, 'R' as u8, 'V' as u8];
        assert(v@ =~= type_text(c));
        v
    } else if c == 41 {
        let v: Vec<u8> = vec!['O' as u8, 'P' as u8, 'T' as u8];
        assert(v@ =~= type_text(c));
        v
    } else if c == 255 {
        let v: Vec<u8> = vec!['A' as u8, 'N' as u8, 'Y' as u8];
        assert(v@ =~= type_text(c));
        v
    } else {
        let mut v: Vec<u8> = vec!['T' as u8, 'Y' as u8, 'P' as u8, 'E' as u8];
        let d = format_u64(c as u64);
        append_bytes(&mut v, d.as_slice());
        assert(v@ =~= type_text(c));
        v
    }
}

/// The textual name of a DNS opcode: the mnemonic where standard, else `OPCODE` and the wire value.
pub open spec fn opcode_text(c: u8) -> Seq<u8> {
    if c == 0 {
        seq!['Q' as u8, 'u' as u8, 'e' as u8, 'r' as u8, 'y' as u8]
    } else if c == 1 {
        seq!['I' as u8, 'Q' as u8, 'u' as u8, 'e' as u8, 'r' as u8, 'y' as u8]
    } else if c == 2 {
        seq!['S' as u8, 't' as u8, 'a' as u8, 't' as u8, 'u' as u8, 's' as u8]
    } else if c == 4 {
        seq!['N' as u8, 'o' as u8, 't' as u8, 'i' as u8, 'f' as u8, 'y' as u8]
    } else if c == 5 {
        seq!['U' as u8, 'p' as u8, 'd' as u8, 'a' as u8, 't' as u8, 'e' as u8]
    } else {
        seq!['O' as u8, 'P' as u8, 'C' as u8, 'O' as u8, 'D' as u8, 'E' as u8] + dec_digits(c as nat)
    }
}

/// Format as text: see `opcode_text`.
pub fn opcode_name(c: u8) -> (r: Vec<u8>)
    ensures
        r@ == opcode_text(c),
{
    if c == 0 {
        let v: Vec<u8> = vec!['Q' as u8, 'u' as u8, 'e' as u8, 'r' as u8, 'y' as u8];
        assert(v@ =~= opcode_text(c));
        v
    } else if c == 1 {
        let v: Vec<u8> = vec!['I' as u8, 'Q' as u8, 'u' as u8, 'e' as u8, 'r' as u8, 'y' as u8];
        assert(v@ =~= opcode_text(c));
        v
    } else if c == 2 {
        let v: Vec<u8> = vec!['S' as u8, 't' as u8, 'a' as u8, 't' as u8, 'u' as u8, 's' as u8];
        assert(v@ =~= opcode_text(c));
        v
    } else if c == 4 {
        let v: Vec<u8> = vec!['N' as u8, 'o' as u8, 't' as u8, 'i' as u8, 'f' as u8, 'y' as u8];
        assert(v@ =~= opcode_text(c));
        v
    } else if c == 5 {
        let v: Vec<u8> = vec!['U' as u8, 'p' as u8, 'd' as u8, 'a' as u8, 't' as u8, 'e' as u8];
        assert(v@ =~= opcode_text(c));
        v
    } else {
        let mut v: Vec<u8> = vec!['O' as u8, 'P' as u8, 'C' as u8, 'O' as u8, 'D' as u8, 'E' as u8];
        let d = format_u64(c as u64);
        append_bytes(&mut v, d.as_slice());
        assert(v@ =~= opcode_text(c));
        v
    }
}

/// The textual name of a response code: the mnemonic where known, else
/// `RCODE` and the wire value.
pub open spec fn rcode_text(c: ResponseCode) -> Seq<u8> {
    match c {
        ResponseCode::NoError => seq!['N' as u8, 'o' as u8, 'E' as u8, 'r' as u8, 'r' as u8, 'o' as u8, 'r' as u8],
        ResponseCode::FormErr => seq!['F' as u8, 'o' as u8, 'r' as u8, 'm' as u8, 'E' as u8, 'r' as u8, 'r' as u8],
        ResponseCode::ServFail => seq!['S' as u8, 'e' as u8, 'r' as u8, 'v' as u8, 'F' as u8, 'a' as u8, 'i' as u8, 'l' as u8],
        ResponseCode::NXDomain => seq!['N' as u8, 'X' as u8, 'D' as u8, 'o' as u8, 'm' as u8, 'a' as u8, 'i' as u8, 'n' as u8],
        ResponseCode::NotImp => seq!['N' as u8, 'o' as u8, 't' as u8, 'I' as u8, 'm' as u8, 'p' as u8],
        ResponseCode::Refused => seq!['R' as u8, 'e' as u8, 'f' as u8, 'u' as u8, 's' as u8, 'e' as u8, 'd' as u8],
        ResponseCode::BadVers => seq!['B' as u8, 'A' as u8, 'D' as u8, 'V' as u8, 'E' as u8, 'R' as u8, 'S' as u8],
        ResponseCode::Other(n) => seq!['R' as u8, 'C' as u8, 'O' as u8, 'D' as u8, 'E' as u8] + dec_digits(n as nat),
    }
}

/// Format as text: see `rcode_text`.
pub fn rcode_name(c: ResponseCode) -> (r: Vec<u8>)
    ensures
        r@ == rcode_text(c),
{
    match c {
        ResponseCode::NoError => {
            let v: Vec<u8> = vec!['N' as u8, 'o' as u8, 'E' as u8, 'r' as u8, 'r' as u8, 'o' as u8, 'r' as u8];
            assert(v@ =~= rcode_text(c));
            v
        },
        ResponseCode::FormErr => {
            let v: Vec<u8> = vec!['F' as u8, 'o' as u8, 'r' as u8, 'm' as u8, 'E' as u8, 'r' as u8, 'r' as u8];
            assert(v@ =~= rcode_text(c));
            v
        },
        ResponseCode::ServFail => {
            let v: Vec<u8> = vec!['S' as u8, 'e' as u8, 'r' as u8, 'v' as u8, 'F' as u8, 'a' as u8, 'i' as u8, 'l' as u8];
            assert(v@ =~= rcode_text(c));
            v
        },
        ResponseCode::NXDomain => {
            let v: Vec<u8> = vec!['N' as u8, 'X' as u8, 'D' as u8, 'o' as u8, 'm' as u8, 'a' as u8, 'i' as u8, 'n' as u8];
            assert(v@ =~= rcode_text(c));
            v
        },
        ResponseCode::NotImp => {
            let v: Vec<u8> = vec!['N' as u8, 'o' as u8, 't' as u8, 'I' as u8, 'm' as u8, 'p' as u8];
            assert(v@ =~= rcode_text(c));
            v
        },
        ResponseCode::Refused => {
            let v: Vec<u8> = vec!['R' as u8, 'e' as u8, 'f' as u8, 'u' as u8, 's' as u8, 'e' as u8, 'd' as u8];
            assert(v@ =~= rcode_text(c));
            v
        },
        ResponseCode::BadVers => {
            let v: Vec<u8> = vec!['B' as u8, 'A' as u8, 'D' as u8, 'V' as u8, 'E' as u8, 'R' as u8, 'S' as u8];
            assert(v@ =~= rcode_text(c));
            v
        },
        ResponseCode::Other(n) => {
            let mut v: Vec<u8> = vec!['R' as u8, 'C' as u8, 'O' as u8, 'D' as u8, 'E' as u8];
            let d = format_u64(n as u64);
            append_bytes(&mut v, d.as_slice());
            assert(v@ =~= rcode_text(c));
            v
        },
    }
}

/// The literal `{"id":` of the record format.
pub open spec fn jl_obj_id() -> Seq<u8> {
    seq!['{' as u8, '"' as u8, 'i' as u8, 'd' as u8, '"' as u8, ':' as u8]
}

fn push_jl_obj_id(out: &mut Vec<u8>)
    ensures
        final(out)@ == old(out)@ + jl_obj_id(),
{
    let lit: Vec<u8> = vec!['{' as u8, '"' as u8, 'i' as u8, 'd' as u8, '"' as u8, ':' as u8];
    append_bytes(out, lit.as_slice());
    assert(out@ =~= old(out)@ + jl_obj_id());
}
/// The literal `,"occurred_at":` of the record format.
pub open spec fn jl_occurred_at() -> Seq<u8> {
    seq![',' as u8, '"' as u8, 'o' as u8, 'c' as u8, 'c' as u8, 'u' as u8, 'r' as u8, 'r' as u8, 'e' as u8, 'd' as u8, '_' as u8, 'a' as u8, 't' as u8, '"' as u8, ':' as u8]
}

fn push_jl_occurred_at(out: &mut Vec<u8>)
    ensures
        final(out)@ == old(out)@ + jl_occurred_at(),
{
    let lit: Vec<u8> = vec![',' as u8, '"' as u8, 'o' as u8, 'c' as u8, 'c' as u8, 'u' as u8, 'r' as u8, 'r' as u8, 'e' as u8, 'd' as u8, '_' as u8, 'a' as u8, 't' as u8, '"' as u8, ':' as u8];
    append_bytes(out, lit.as_slice());
    assert(out@ =~= old(out)@ + jl_occurred_at());
}
/// The literal `,"source_ip":` of the record format.
pub open spec fn jl_source_ip() -> Seq<u8> {
    seq![',' as u8, '"' as u8, 's' as u8, 'o' as u8, 'u' as u8, 'r' as u8, 'c' as u8, 'e' as u8, '_' as u8, 'i' as u8, 'p' as u8, '"' as u8, ':' as u8]
}

fn push_jl_source_ip(out: &mut Vec<u8>)
    ensures
        final(out)@ == old(out)@ + jl_source_ip(),
{
    let lit: Vec<u8> = vec![',' as u8, '"' as u8, 's' as u8, 'o' as u8, 'u' as u8, 'r' as u8, 'c' as u8, 'e' as u8, '_' as u8, 'i' as u8, 'p' as u8, '"' as u8, ':' as u8];
    append_bytes(out, lit.as_slice());
    assert(out@ =~= old(out)@ + jl_source_ip());
}
/// The literal `,"source_port":` of the record format.
pub open spec fn jl_source_port() -> Seq<u8> {
    seq![',' as u8, '"' as u8, 's' as u8, 'o' as u8, 'u' as u8, 'r' as u8, 'c' as u8, 'e' as u8, '_' as u8, 'p' as u8, 'o' as u8, 'r' as u8, 't' as u8, '"' as u8, ':' as u8]
}

fn push_jl_source_port(out: &mut Vec<u8>)
    ensures
        final(out)@ == old(out)@ + jl_source_port(),
{
    let lit: Vec<u8> = vec![',' as u8, '"' as u8, 's' as u8, 'o' as u8, 'u' as u8, 'r' as u8, 'c' as u8, 'e' as u8, '_' as u8, 'p' as u8, 'o' as u8, 'r' as u8, 't' as u8, '"' as u8, ':' as u8];
    append_bytes(out, lit.as_slice());
    assert(out@ =~= old(out)@ + jl_source_port());
}
/// The literal `,"name":` of the record format.
pub open spec fn jl_name() -> Seq<u8> {
    seq![',' as u8, '"' as u8, 'n' as u8, 'a' as u8, 'm' as u8, 'e' as u8, '"' as u8, ':' as u8]
}

fn push_jl_name(out: &mut Vec<u8>)
    ensures
        final(out)@ == old(out)@ + jl_name(),
{
    let lit: Vec<u8> = vec![',' as u8, '"' as u8, 'n' as u8, 'a' as u8, 'm' as u8, 'e' as u8, '"' as u8, ':' as u8];
    append_bytes(out, lit.as_slice());
    assert(out@ =~= old(out)@ + jl_name());
}
/// The literal `,"class":` of the record format.
pub open spec fn jl_class() -> Seq<u8> {
    seq![',' as u8, '"' as u8, 'c' as u8, 'l' as u8, 'a' as u8, 's' as u8, 's' as u8, '"' as u8, ':' as u8]
}

fn push_jl_class(out: &mut Vec<u8>)
    ensures
        final(out)@ == old(out)@ + jl_class(),
{
    let lit: Vec<u8> = vec![',' as u8, '"' as u8, 'c' as u8, 'l' as u8, 'a' as u8, 's' as u8, 's' as u8, '"' as u8, ':' as u8];
    append_bytes(out, lit.as_slice());
    assert(out@ =~= old(out)@ + jl_class());
}
/// The literal `,"type":` of the record format.
pub open spec fn jl_type() -> Seq<u8> {
    seq![',' as u8, '"' as u8, 't' as u8, 'y' as u8, 'p' as u8, 'e' as u8, '"' as u8, ':' as u8]
}

fn push_jl_type(out: &mut Vec<u8>)
    ensures
        final(out)@ == old(out)@ + jl_type(),
{
    let lit: Vec<u8> = vec![',' as u8, '"' as u8, 't' as u8, 'y' as u8, 'p' as u8, 'e' as u8, '"' as u8, ':' as u8];
    append_bytes(out, lit.as_slice());
    assert(out@ =~= old(out)@ + jl_type());
}
/// The literal `,"opcode":` of the record format.
pub open spec fn jl_opcode() -> Seq<u8> {
    seq![',' as u8, '"' as u8, 'o' as u8, 'p' as u8, 'c' as u8, 'o' as u8, 'd' as u8, 'e' as u8, '"' as u8, ':' as u8]
}

fn push_jl_opcode(out: &mut Vec<u8>)
    ensures
        final(out)@ == old(out)@ + jl_opcode(),
{
    let lit: Vec<u8> = vec![',' as u8, '"' as u8, 'o' as u8, 'p' as u8, 'c' as u8, 'o' as u8, 'd' as u8, 'e' as u8, '"' as u8, ':' as u8];
    append_bytes(out, lit.as_slice());
    assert(out@ =~= old(out)@ + jl_opcode());
}
/// The literal `,"response_code":` of the record format.
pub open spec fn jl_response_code() -> Seq<u8> {
    seq![',' as u8, '"' as u8, 'r' as u8, 'e' as u8, 's' as u8, 'p' as u8, 'o' as u8, 'n' as u8, 's' as u8, 'e' as u8, '_' as u8, 'c' as u8, 'o' as u8, 'd' as u8, 'e' as u8, '"' as u8, ':' as u8]
}

fn push_jl_response_code(out: &mut Vec<u8>)
    ensures
        final(out)@ == old(out)@ + jl_response_code(),
{
    let lit: Vec<u8> = vec![',' as u8, '"' as u8, 'r' as u8, 'e' as u8, 's' as u8, 'p' as u8, 'o' as u8, 'n' as u8, 's' as u8, 'e' as u8, '_' as u8, 'c' as u8, 'o' as u8, 'd' as u8, 'e' as u8, '"' as u8, ':' as u8];
    append_bytes(out, lit.as_slice());
    assert(out@ =~= old(out)@ + jl_response_code());
}
/// The literal `}` of the record format.
pub open spec fn jl_close() -> Seq<u8> {
    seq!['}' as u8]
}

fn push_jl_close(out: &mut Vec<u8>)
    ensures
        final(out)@ == old(out)@ + jl_close(),
{
    let lit: Vec<u8> = vec!['}' as u8];
    append_bytes(out, lit.as_slice());
    assert(out@ =~= old(out)@ + jl_close());
}


/// The audit record of one inbound request. `occurred_at` is the UTC
/// timestamp in epoch milliseconds: an exact integer in the persisted JSON,
/// rather than a formatted date string.
pub struct AuditRequestRecord {
    pub id: Vec<u8>,
    pub occurred_at: u64,
    pub source_ip: Vec<u8>,
    pub source_port: u16,
    pub name: Vec<u8>,
    pub query_class: Vec<u8>,
    pub query_type: Vec<u8>,
    pub op_code: Vec<u8>,
}

/// The audit record of the response sent for a request, under the same id;
/// `occurred_at` is again UTC epoch milliseconds.
pub struct AuditResponseRecord {
    pub id: Vec<u8>,
    pub occurred_at: u64,
    pub response_code: Vec<u8>,
}

/// The persisted JSON form of a request record.
pub open spec fn request_json(r: AuditRequestRecord) -> Seq<u8> {
    jl_obj_id() + json_str(r.id@) + jl_occurred_at() + dec_digits(r.occurred_at as nat)
        + jl_source_ip() + json_str(r.source_ip@) + jl_source_port() + dec_digits(
        r.source_port as nat,
    ) + jl_name() + json_str(r.name@) + jl_class() + json_str(r.query_class@) + jl_type()
        + json_str(r.query_type@) + jl_opcode() + json_str(r.op_code@) + jl_close()
}

/// The persisted JSON form of a response record.
pub open spec fn response_json(r: AuditResponseRecord) -> Seq<u8> {
    jl_obj_id() + json_str(r.id@) + jl_occurred_at() + dec_digits(r.occurred_at as nat)
        + jl_response_code() + json_str(r.response_code@) + jl_close()
}

/// Build the request record for a query, from the caller-supplied
/// correlation id and timestamp.
pub fn make_request_record(id: Vec<u8>, occurred_at: u64, q: &QueryInfo) -> (r: AuditRequestRecord)
    ensures
        r.id@ == id@,
        r.occurred_at == occurred_at,
        r.source_ip@ == q.src_ip@,
        r.source_port == q.src_port,
        r.name@ == q.name@,
        r.query_class@ == class_text(q.query_class),
        r.query_type@ == type_text(q.query_type),
        r.op_code@ == opcode_text(q.op_code),
{
    AuditRequestRecord {
        id,
        occurred_at,
        source_ip: slice_to_vec(q.src_ip.as_slice()),
        source_port: q.src_port,
        name: slice_to_vec(q.name.as_slice()),
        query_class: class_name(q.query_class),
        query_type: rtype_name(q.query_type),
        op_code: opcode_name(q.op_code),
    }
}

/// Build the response record that closes a request, with the same id.
pub fn make_response_record(
    id: Vec<u8>,
    occurred_at: u64,
    code: ResponseCode,
) -> (r: AuditResponseRecord)
    ensures
        r.id@ == id@,
        r.occurred_at == occurred_at,
        r.response_code@ == rcode_text(code),
{
    AuditResponseRecord { id, occurred_at, response_code: rcode_name(code) }
}

/// Serialize a request record to its one-line JSON form.
pub fn encode_request_record(r: &AuditRequestRecord) -> (out: Vec<u8>)
    ensures
        out@ == request_json(*r),
{
    let mut out: Vec<u8> = Vec::new();
    push_jl_obj_id(&mut out);
    push_json_str(&mut out, r.id.as_slice());
    push_jl_occurred_at(&mut out);
    push_u64(&mut out, r.occurred_at);
    push_jl_source_ip(&mut out);
    push_json_str(&mut out, r.source_ip.as_slice());
    push_jl_source_port(&mut out);
    push_u64(&mut out, r.source_port as u64);
    push_jl_name(&mut out);
    push_json_str(&mut out, r.name.as_slice());
    push_jl_class(&mut out);
    push_json_str(&mut out, r.query_class.as_slice());
    push_jl_type(&mut out);
    push_json_str(&mut out, r.query_type.as_slice());
    push_jl_opcode(&mut out);
    push_json_str(&mut out, r.op_code.as_slice());
    push_jl_close(&mut out);
    assert(out@ =~= request_json(*r));
    out
}

/// Serialize a response record to its one-line JSON form.
pub fn encode_response_record(r: &AuditResponseRecord) -> (out: Vec<u8>)
    ensures
        out@ == response_json(*r),
{
    let mut out: Vec<u8> = Vec::new();
    push_jl_obj_id(&mut out);
    push_json_str(&mut out, r.id.as_slice());
    push_jl_occurred_at(&mut out);
    push_u64(&mut out, r.occurred_at);
    push_jl_response_code(&mut out);
    push_json_str(&mut out, r.response_code.as_slice());
    push_jl_close(&mut out);
    assert(out@ =~= response_json(*r));
    out
}

} // verus!
