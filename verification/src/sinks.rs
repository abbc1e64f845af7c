//! Event-sink record creation, and the sink that discards everything.
//!
//! A sink correlates a request with its eventual response through a
//! generated id: the request record carries a fresh time-ordered unique id,
//! and the response record repeats it together with the response code
//! actually sent. Delivery (channels, workers, uploads) happens outside;
//! here the records themselves are built.

use vstd::prelude::*;
use crate::audit::{
    class_text, make_request_record, make_response_record, opcode_text, rcode_text, type_text,
    AuditRequestRecord, AuditResponseRecord,
};
use crate::message::{QueryInfo, ResponseCode};
use crate::stamp::{clamp_epoch_millis, fresh_event_id, now_epoch_millis};
use vstd::slice::slice_to_vec;

verus! {

/// Build the request record for a query, stamped now, under a fresh
/// time-ordered unique 36-byte id. The caller keeps the id to correlate the
/// response record.
pub fn request_record(q: &QueryInfo) -> (r: AuditRequestRecord)
    ensures
        r.id@.len() == 36,
        r.source_ip@ == q.src_ip@,
        r.source_port == q.src_port,
        r.name@ == q.name@,
        r.query_class@ == class_text(q.query_class),
        r.query_type@ == type_text(q.query_type),
        r.op_code@ == opcode_text(q.op_code),
{
    let id = fresh_event_id();
    let now = clamp_epoch_millis(now_epoch_millis());
    make_request_record(id, now, q)
}

/// Build the response record that closes the request with the given id,
/// stamped now, carrying the response code actually sent.
pub fn response_record(id: &[u8], code: ResponseCode) -> (r: AuditResponseRecord)
    ensures
        r.id@ == id@,
        r.response_code@ == rcode_text(code),
{
    let now = clamp_epoch_millis(now_epoch_millis());
    make_response_record(slice_to_vec(id), now, code)
}

/// The id a discarding sink hands back: the nil id, 36 bytes.
pub open spec fn nil_id() -> Seq<u8> {
    Seq::new(36, |i: int| if i == 8 || i == 13 || i == 18 || i == 23 {
        '-' as u8
    } else {
        '0' as u8
    })
}

/// The sink that records nothing: every request gets the nil id and every
/// response is dropped.
pub struct StubSink {}

impl StubSink {
    /// A discarding sink needs no state.
    pub fn new() -> (r: StubSink)
        ensures
            true,
    {
        StubSink {  }
    }

    /// Accept a request and hand back the nil correlation id.
    pub fn request(&self, q: &QueryInfo) -> (r: Vec<u8>)
        ensures
            r@ == nil_id(),
    {
        let mut out: Vec<u8> = Vec::new();
        let mut i: usize = 0;
        while i < 36
            invariant
                i <= 36,
                out@.len() == i,
                forall|j: int| 0 <= j < i ==> out@[j] == nil_id()[j],
            decreases 36 - i,
        {
            if i == 8 || i == 13 || i == 18 || i == 23 {
                out.push('-' as u8);
            } else {
                out.push('0' as u8);
            }
            i += 1;
        }
        assert(out@ =~= nil_id());
        out
    }

    /// Accept a response record and drop it.
    pub fn response(&self, _id: &[u8], _code: ResponseCode) {
    }
}

} // verus!
