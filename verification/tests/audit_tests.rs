use advoid::audit::{
    class_name, encode_request_record, encode_response_record, make_request_record,
    make_response_record, opcode_name, rcode_name, rtype_name, AuditRequestRecord,
};
use advoid::encode::format_u64;
use advoid::message::{MessageKind, QueryInfo, ResponseCode};
use advoid::sinks::{request_record, response_record, StubSink};

fn sample_query() -> QueryInfo {
    QueryInfo {
        kind: MessageKind::Query,
        op_code: 0,
        name: b"ok.example.".to_vec(),
        query_class: 1,
        query_type: 1,
        edns: None,
        src_ip: b"192.0.2.7".to_vec(),
        src_port: 5353,
    }
}

#[test]
fn decimal_formatting() {
    assert_eq!(format_u64(0), b"0".to_vec());
    assert_eq!(format_u64(7), b"7".to_vec());
    assert_eq!(format_u64(42), b"42".to_vec());
    assert_eq!(format_u64(1234567890), b"1234567890".to_vec());
    assert_eq!(format_u64(u64::MAX), b"18446744073709551615".to_vec());
}

#[test]
fn protocol_mnemonics() {
    assert_eq!(class_name(1), b"IN".to_vec());
    assert_eq!(class_name(255), b"ANY".to_vec());
    assert_eq!(class_name(2), b"CLASS2".to_vec());
    assert_eq!(rtype_name(1), b"A".to_vec());
    assert_eq!(rtype_name(6), b"SOA".to_vec());
    assert_eq!(rtype_name(28), b"AAAA".to_vec());
    assert_eq!(rtype_name(99), b"TYPE99".to_vec());
    assert_eq!(opcode_name(0), b"Query".to_vec());
    assert_eq!(opcode_name(5), b"Update".to_vec());
    assert_eq!(opcode_name(9), b"OPCODE9".to_vec());
    assert_eq!(rcode_name(ResponseCode::NoError), b"NoError".to_vec());
    assert_eq!(rcode_name(ResponseCode::NXDomain), b"NXDomain".to_vec());
    assert_eq!(rcode_name(ResponseCode::BadVers), b"BADVERS".to_vec());
    assert_eq!(rcode_name(ResponseCode::Other(23)), b"RCODE23".to_vec());
}

#[test]
fn request_record_json_is_exact() {
    let q = sample_query();
    let r = make_request_record(b"id-1".to_vec(), 1700000000123, &q);
    let json = encode_request_record(&r);
    assert_eq!(
        String::from_utf8(json).unwrap(),
        "{\"id\":\"id-1\",\"occurred_at\":1700000000123,\"source_ip\":\"192.0.2.7\",\
         \"source_port\":5353,\"name\":\"ok.example.\",\"class\":\"IN\",\"type\":\"A\",\
         \"opcode\":\"Query\"}"
    );
}

#[test]
fn response_record_json_is_exact() {
    let r = make_response_record(b"id-1".to_vec(), 1700000000456, ResponseCode::ServFail);
    let json = encode_response_record(&r);
    assert_eq!(
        String::from_utf8(json).unwrap(),
        "{\"id\":\"id-1\",\"occurred_at\":1700000000456,\"response_code\":\"ServFail\"}"
    );
}

#[test]
fn json_escaping_in_string_fields() {
    let r = AuditRequestRecord {
        id: b"a\"b\\c".to_vec(),
        occurred_at: 1,
        source_ip: vec![0x01u8],
        source_port: 0,
        name: b"n".to_vec(),
        query_class: b"IN".to_vec(),
        query_type: b"A".to_vec(),
        op_code: b"Query".to_vec(),
    };
    let json = String::from_utf8(encode_request_record(&r)).unwrap();
    assert!(json.contains("\"id\":\"a\\\"b\\\\c\""));
    assert!(json.contains("\"source_ip\":\"\\u0001\""));
}

#[test]
fn request_records_carry_fresh_ordered_ids() {
    let q = sample_query();
    let a = request_record(&q);
    let b = request_record(&q);
    assert_eq!(a.id.len(), 36);
    assert_eq!(b.id.len(), 36);
    assert_ne!(a.id, b.id);
    assert!(a.id < b.id, "ids must be time-ordered");
    assert!(a.occurred_at > 1_600_000_000_000);
    assert_eq!(a.name, q.name);
    assert_eq!(a.source_ip, q.src_ip);
    assert_eq!(a.source_port, q.src_port);
    assert_eq!(a.query_class, b"IN".to_vec());
    assert_eq!(a.query_type, b"A".to_vec());
    assert_eq!(a.op_code, b"Query".to_vec());
}

#[test]
fn response_record_repeats_the_request_id() {
    let q = sample_query();
    let req = request_record(&q);
    let resp = response_record(&req.id, ResponseCode::NoError);
    assert_eq!(resp.id, req.id);
    assert_eq!(resp.response_code, b"NoError".to_vec());
    assert!(resp.occurred_at >= req.occurred_at);
}

#[test]
fn stub_sink_discards_and_hands_back_nil_id() {
    let sink = StubSink::new();
    let id = sink.request(&sample_query());
    assert_eq!(
        String::from_utf8(id.clone()).unwrap(),
        "00000000-0000-0000-0000-000000000000"
    );
    sink.response(&id, ResponseCode::NoError);
}
