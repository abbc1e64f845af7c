use advoid::blocklist::BlockedDomainSet;
use advoid::handler::{Decision, HandlerStep, StubRequestHandler};
use advoid::message::{
    EdnsInfo, MessageKind, QueryInfo, Record, ResponseCode, UpstreamResponse, TYPE_NS, TYPE_SOA,
};
use advoid::zones::ReservedZoneTable;

const TYPE_A: u16 = 1;
const CLASS_IN: u16 = 1;

fn query(name: &str, qtype: u16) -> QueryInfo {
    QueryInfo {
        kind: MessageKind::Query,
        op_code: 0,
        name: name.as_bytes().to_vec(),
        query_class: CLASS_IN,
        query_type: qtype,
        edns: None,
        src_ip: b"192.0.2.7".to_vec(),
        src_port: 5353,
    }
}

fn handler(entries: &[&str], intercept: bool) -> StubRequestHandler {
    let v: Vec<Vec<u8>> = entries.iter().map(|e| e.as_bytes().to_vec()).collect();
    StubRequestHandler::new(
        BlockedDomainSet::new(v),
        ReservedZoneTable::rfc6303(),
        intercept,
        b"dns.example.".to_vec(),
        128,
    )
}

#[test]
fn apex_soa_query_answers_one_soa() {
    let mut h = handler(&[], true);
    let q = query("10.in-addr.arpa.", TYPE_SOA);
    match h.handle_request_step::<u32>(&q) {
        HandlerStep::Respond(m) => {
            assert_eq!(m.response_code, ResponseCode::NoError);
            assert!(m.authoritative);
            assert!(m.recursion_available);
            assert_eq!(m.answers.len(), 1);
            match &m.answers[0] {
                Record::Soa(s) => {
                    assert_eq!(s.zone, b"10.in-addr.arpa.".to_vec());
                    assert_eq!(s.mname, b"ns.dns.example.".to_vec());
                    assert_eq!(s.rname, b"hostmaster.dns.example.".to_vec());
                    assert_eq!(s.serial, 1);
                    assert_eq!(s.refresh, 3600);
                    assert_eq!(s.retry, 1800);
                    assert_eq!(s.expire, 604800);
                    assert_eq!(s.minimum, 3600);
                }
                _ => panic!("expected a SOA answer"),
            }
            assert!(m.name_servers.is_empty());
            assert!(m.additionals.is_empty());
        }
        HandlerStep::Forward => panic!("apex SOA must not be forwarded"),
    }
}

#[test]
fn apex_ns_query_answers_one_ns() {
    let mut h = handler(&[], true);
    let q = query("10.in-addr.arpa.", TYPE_NS);
    match h.handle_request_step::<u32>(&q) {
        HandlerStep::Respond(m) => {
            assert_eq!(m.response_code, ResponseCode::NoError);
            assert_eq!(m.answers.len(), 1);
            match &m.answers[0] {
                Record::Ns(n) => {
                    assert_eq!(n.zone, b"10.in-addr.arpa.".to_vec());
                    assert_eq!(n.nsdname, b"ns.dns.example.".to_vec());
                }
                _ => panic!("expected an NS answer"),
            }
        }
        HandlerStep::Forward => panic!("apex NS must not be forwarded"),
    }
}

#[test]
fn apex_a_query_is_blocked() {
    let mut h = handler(&[], true);
    let q = query("10.in-addr.arpa.", TYPE_A);
    match h.handle_request_step::<u32>(&q) {
        HandlerStep::Respond(m) => {
            assert_eq!(m.response_code, ResponseCode::NXDomain);
            assert!(m.answers.is_empty());
            assert_eq!(m.name_servers.len(), 1);
        }
        HandlerStep::Forward => panic!("reserved names must not be forwarded"),
    }
}

#[test]
fn reserved_subdomain_is_blocked() {
    let mut h = handler(&[], true);
    let q = query("4.3.2.10.in-addr.arpa.", TYPE_A);
    assert!(matches!(h.handle_request_step::<u32>(&q), HandlerStep::Respond(_)));
    let d = h.decide(&query("4.3.2.10.in-addr.arpa.", TYPE_SOA));
    assert_eq!(d, Decision::Blocked);
}

#[test]
fn interception_disabled_forwards_reserved_names() {
    let mut h = handler(&[], false);
    let q = query("10.in-addr.arpa.", TYPE_SOA);
    assert!(matches!(h.handle_request_step::<u32>(&q), HandlerStep::Forward));
}

#[test]
fn edns_version_above_zero_yields_badvers() {
    let mut h = handler(&[], true);
    let mut q = query("ok.example.", TYPE_A);
    q.edns = Some(EdnsInfo { version: 1, max_payload: 1232, dnssec_ok: false });
    match h.handle_request_step::<u32>(&q) {
        HandlerStep::Respond(m) => {
            assert_eq!(m.response_code, ResponseCode::BadVers);
            assert!(m.answers.is_empty());
            assert!(m.name_servers.is_empty());
            assert!(m.additionals.is_empty());
            let e = m.edns.expect("response must carry EDNS");
            assert_eq!(e.version, 0);
            assert_eq!(e.max_payload, 1232);
            assert!(e.dnssec_ok);
        }
        HandlerStep::Forward => panic!("bad EDNS version must not be forwarded"),
    }
    // Regardless of query content: even a non-query message gets BADVERS.
    let mut q2 = query("ok.example.", TYPE_A);
    q2.kind = MessageKind::Response;
    q2.edns = Some(EdnsInfo { version: 3, max_payload: 512, dnssec_ok: true });
    assert_eq!(h.decide(&q2), Decision::BadVers);
}

#[test]
fn edns_payload_is_clamped() {
    let mut h = handler(&[], true);
    let mut q = query("ok.example.", TYPE_A);
    q.edns = Some(EdnsInfo { version: 0, max_payload: 100, dnssec_ok: false });
    let m = h.handle_upstream_result::<u32>(&q, None);
    assert_eq!(m.edns.unwrap().max_payload, 512);
    q.edns = Some(EdnsInfo { version: 0, max_payload: 9000, dnssec_ok: false });
    let m = h.handle_upstream_result::<u32>(&q, None);
    assert_eq!(m.edns.unwrap().max_payload, 4096);
    q.edns = None;
    let m = h.handle_upstream_result::<u32>(&q, None);
    assert!(m.edns.is_none());
}

#[test]
fn non_query_messages_yield_notimp() {
    let mut h = handler(&[], true);
    let mut q = query("ok.example.", TYPE_A);
    q.kind = MessageKind::Response;
    match h.handle_request_step::<u32>(&q) {
        HandlerStep::Respond(m) => {
            assert_eq!(m.response_code, ResponseCode::NotImp);
            assert!(m.answers.is_empty());
        }
        HandlerStep::Forward => panic!("responses must not be forwarded"),
    }
    let mut q2 = query("ok.example.", TYPE_A);
    q2.op_code = 5;
    assert_eq!(h.decide(&q2), Decision::NotImplemented);
}

#[test]
fn blocked_name_yields_nxdomain_with_soa_authority() {
    let mut h = handler(&["ads.example."], true);
    let q = query("sub.ads.example.", TYPE_A);
    match h.handle_request_step::<u32>(&q) {
        HandlerStep::Respond(m) => {
            assert_eq!(m.response_code, ResponseCode::NXDomain);
            assert!(m.authoritative);
            assert!(m.recursion_available);
            assert!(m.answers.is_empty());
            assert_eq!(m.name_servers.len(), 1);
            match &m.name_servers[0] {
                Record::Soa(s) => {
                    assert_eq!(s.zone, b"dns.example.".to_vec());
                    assert_eq!(s.mname, b"ns.dns.example.".to_vec());
                    assert_eq!(s.serial, 1);
                    assert_eq!(s.minimum, 3600);
                }
                _ => panic!("authority must hold the synthetic SOA"),
            }
            assert!(m.additionals.is_empty());
        }
        HandlerStep::Forward => panic!("blocked names must not be forwarded"),
    }
}

#[test]
fn forwarded_response_copies_upstream_verbatim() {
    let mut h = handler(&[], true);
    let q = query("ok.example.", TYPE_A);
    assert!(matches!(h.handle_request_step::<u32>(&q), HandlerStep::Forward));
    let upstream = UpstreamResponse {
        response_code: ResponseCode::NoError,
        recursion_available: true,
        answers: vec![41u32],
        name_servers: vec![7u32],
        additionals: vec![9u32, 11u32],
    };
    let m = h.handle_upstream_result(&q, Some(upstream));
    assert_eq!(m.response_code, ResponseCode::NoError);
    assert!(m.recursion_available);
    assert!(!m.authoritative);
    assert!(matches!(m.answers[..], [Record::Passthrough(41)]));
    assert!(matches!(m.name_servers[..], [Record::Passthrough(7)]));
    assert!(matches!(m.additionals[..], [Record::Passthrough(9), Record::Passthrough(11)]));
}

#[test]
fn forwarded_response_mirrors_recursion_unavailable() {
    let mut h = handler(&[], true);
    let q = query("ok.example.", TYPE_A);
    let upstream: UpstreamResponse<u32> = UpstreamResponse {
        response_code: ResponseCode::NXDomain,
        recursion_available: false,
        answers: vec![],
        name_servers: vec![],
        additionals: vec![],
    };
    let m = h.handle_upstream_result(&q, Some(upstream));
    assert_eq!(m.response_code, ResponseCode::NXDomain);
    assert!(!m.recursion_available);
    assert!(m.answers.is_empty());
}

#[test]
fn upstream_failure_yields_servfail() {
    let mut h = handler(&[], true);
    let q = query("ok.example.", TYPE_A);
    let m = h.handle_upstream_result::<u32>(&q, None);
    assert_eq!(m.response_code, ResponseCode::ServFail);
    assert!(m.answers.is_empty());
    assert!(m.name_servers.is_empty());
    assert!(m.additionals.is_empty());
}

#[test]
fn counters_track_outcomes() {
    let mut h = handler(&["ads.example."], true);
    assert_eq!(h.metrics().total_requests, 0);
    let _ = h.handle_request_step::<u32>(&query("sub.ads.example.", TYPE_A));
    let _ = h.handle_request_step::<u32>(&query("10.in-addr.arpa.", TYPE_SOA));
    let _ = h.handle_request_step::<u32>(&query("ok.example.", TYPE_A));
    let m = h.metrics();
    assert_eq!(m.total_requests, 3);
    assert_eq!(m.blocked_requests, 2);
    assert_eq!(m.forwarded_requests, 0);
    let _ = h.handle_upstream_result::<u32>(
        &query("ok.example.", TYPE_A),
        Some(UpstreamResponse {
            response_code: ResponseCode::NoError,
            recursion_available: true,
            answers: vec![],
            name_servers: vec![],
            additionals: vec![],
        }),
    );
    assert_eq!(h.metrics().forwarded_requests, 1);
    let _ = h.handle_upstream_result::<u32>(&query("ok.example.", TYPE_A), None);
    assert_eq!(h.metrics().forwarded_requests, 1);
    assert_eq!(h.cache_len(), 2);
}

#[test]
fn blocklist_verdicts_memoized_through_handler() {
    let mut h = handler(&["ads.example."], false);
    assert!(h.is_blacklist_subdomain(b"a.ads.example."));
    assert!(h.is_blacklist_subdomain(b"a.ads.example."));
    assert!(!h.is_blacklist_subdomain(b"ok.example."));
    assert_eq!(h.cache_len(), 2);
}

#[test]
fn locally_intercepted_paths_never_touch_the_cache() {
    // Apex answers are never cached, and neither are zone blocks, BADVERS
    // refusals or non-query messages: only the blocklist path memoizes.
    let mut h = handler(&["ads.example."], true);
    let _ = h.handle_request_step::<u32>(&query("10.in-addr.arpa.", TYPE_SOA));
    let _ = h.handle_request_step::<u32>(&query("10.in-addr.arpa.", TYPE_NS));
    let _ = h.handle_request_step::<u32>(&query("10.in-addr.arpa.", TYPE_A));
    let _ = h.handle_request_step::<u32>(&query("4.3.2.10.in-addr.arpa.", TYPE_A));
    let mut badvers = query("ok.example.", TYPE_A);
    badvers.edns = Some(EdnsInfo { version: 2, max_payload: 512, dnssec_ok: false });
    let _ = h.handle_request_step::<u32>(&badvers);
    let mut notimp = query("ok.example.", TYPE_A);
    notimp.kind = MessageKind::Response;
    let _ = h.handle_request_step::<u32>(&notimp);
    assert_eq!(h.cache_len(), 0);
    // The blocklist path is the one that memoizes.
    let _ = h.handle_request_step::<u32>(&query("sub.ads.example.", TYPE_A));
    assert_eq!(h.cache_len(), 1);
}
