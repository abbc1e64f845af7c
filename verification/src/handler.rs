//! The query handler: EDNS negotiation, the blocking decision, response
//! construction and counters.
//!
//! Handling is split at the one outside effect, the upstream query: first
//! the handler decides what to do with a parsed request and builds every
//! response it can produce locally; when the decision is to forward, the
//! caller performs the upstream exchange and hands the outcome back to be
//! turned into the final response. The handler always produces a response:
//! a failed forward becomes SERVFAIL, never a silent drop.

use vstd::prelude::*;
use crate::blocklist::{blocked_by, BlockedDomainSet};
use crate::domain::in_zone;
use crate::cache::{coherent, is_blocked, DomainVerdictCache};
use crate::message::{
    negotiate_edns, ns_fields_ok, response_edns, soa_fields_ok, synth_ns,
    synth_soa, EdnsInfo, MessageKind, QueryInfo, Record, ResponseCode, ResponseModel,
    UpstreamResponse, OPCODE_QUERY, TYPE_NS, TYPE_SOA,
};
use crate::metrics::{sat_inc, Metrics};
use crate::zones::{apex_hit, lemma_apex_is_hit, lemma_longest_hit_is_apex, zone_hit, ReservedZoneTable};

verus! {

/// What the handler decides to do with one query.
#[derive(Clone, Copy, PartialEq, Eq, Structural, Debug)]
pub enum Decision {
    /// Not a query message with the QUERY opcode.
    NotImplemented,
    /// The request advertised an EDNS version above the supported version 0.
    BadVers,
    /// Apex SOA query of a reserved zone, answered synthetically.
    ApexSoa,
    /// Apex NS query of a reserved zone, answered synthetically.
    ApexNs,
    /// Blocked: under a reserved zone, or matched by the blocklist.
    Blocked,
    /// Forwarded upstream unmodified.
    Forward,
}

/// Either a finished local response, or the instruction to forward the
/// original question upstream and come back with the outcome.
pub enum HandlerStep<R> {
    Respond(ResponseModel<R>),
    Forward,
}

/// Does the request advertise an EDNS version above the supported version 0?
pub open spec fn edns_refused(q: QueryInfo) -> bool {
    match q.edns {
        Option::Some(e) => e.version > 0,
        Option::None => false,
    }
}

/// Only a query message with the QUERY opcode is served.
pub open spec fn plain_query(q: QueryInfo) -> bool {
    q.kind == MessageKind::Query && q.op_code == OPCODE_QUERY
}

/// The decision taken for one query, in order: EDNS version refusal, the
/// type/opcode screen, reserved-zone interception (synthetic apex SOA/NS
/// answers; anything else under a reserved zone is blocked), the blocklist,
/// and otherwise forwarding.
pub open spec fn decision_of(
    intercept: bool,
    zones: Seq<Seq<u8>>,
    entries: Seq<Seq<u8>>,
    q: QueryInfo,
) -> Decision {
    if edns_refused(q) {
        Decision::BadVers
    } else if !plain_query(q) {
        Decision::NotImplemented
    } else if intercept && apex_hit(zones, q.name@) && q.query_type == TYPE_SOA {
        Decision::ApexSoa
    } else if intercept && apex_hit(zones, q.name@) && q.query_type == TYPE_NS {
        Decision::ApexNs
    } else if intercept && zone_hit(zones, q.name@) {
        Decision::Blocked
    } else if blocked_by(q.name@, entries) {
        Decision::Blocked
    } else {
        Decision::Forward
    }
}

/// The paths that never consult the blocklist or its verdict cache: an EDNS
/// version refusal, a non-query message, and — with interception enabled —
/// every name under a reserved zone, apex answers included. On these paths
/// the cache is left exactly as it was: apex answers are never cached.
pub open spec fn skips_blocklist(intercept: bool, zones: Seq<Seq<u8>>, q: QueryInfo) -> bool {
    ||| edns_refused(q)
    ||| !plain_query(q)
    ||| (intercept && zone_hit(zones, q.name@))
}

/// The decisions answered locally without contacting upstream, counted as
/// blocked by the metrics.
pub open spec fn is_local_block(d: Decision) -> bool {
    d == Decision::ApexSoa || d == Decision::ApexNs || d == Decision::Blocked
}

/// All three record sections empty.
pub open spec fn empty_sections<R>(m: ResponseModel<R>) -> bool {
    &&& m.answers@.len() == 0
    &&& m.name_servers@.len() == 0
    &&& m.additionals@.len() == 0
}

/// The exact shape of every locally-built response, per decision:
/// NotImplemented and BADVERS answer with the bare response code; an apex
/// SOA/NS query is answered NOERROR, authoritative, with the one synthesized
/// record of the requested type as the only answer; a blocked query is
/// answered NXDOMAIN, authoritative, with one generic synthetic SOA for the
/// service's own zone in the authority section and an empty answer section.
/// The response carries a version-0 EDNS record exactly when the request
/// carried EDNS.
pub open spec fn local_response_ok<R>(
    m: ResponseModel<R>,
    q: QueryInfo,
    service: Seq<u8>,
    d: Decision,
) -> bool {
    &&& m.edns == response_edns(q.edns)
    &&& match d {
        Decision::NotImplemented => {
            &&& m.response_code == ResponseCode::NotImp
            &&& !m.authoritative
            &&& !m.recursion_available
            &&& empty_sections(m)
        },
        Decision::BadVers => {
            &&& m.response_code == ResponseCode::BadVers
            &&& !m.authoritative
            &&& !m.recursion_available
            &&& empty_sections(m)
        },
        Decision::ApexSoa => {
            &&& m.response_code == ResponseCode::NoError
            &&& m.authoritative
            &&& m.recursion_available
            &&& m.answers@.len() == 1
            &&& match m.answers@[0] {
                Record::Soa(s) => soa_fields_ok(s, q.name@, service),
                _ => false,
            }
            &&& m.name_servers@.len() == 0
            &&& m.additionals@.len() == 0
        },
        Decision::ApexNs => {
            &&& m.response_code == ResponseCode::NoError
            &&& m.authoritative
            &&& m.recursion_available
            &&& m.answers@.len() == 1
            &&& match m.answers@[0] {
                Record::Ns(n) => ns_fields_ok(n, q.name@, service),
                _ => false,
            }
            &&& m.name_servers@.len() == 0
            &&& m.additionals@.len() == 0
        },
        Decision::Blocked => {
            &&& m.response_code == ResponseCode::NXDomain
            &&& m.authoritative
            &&& m.recursion_available
            &&& m.answers@.len() == 0
            &&& m.name_servers@.len() == 1
            &&& match m.name_servers@[0] {
                Record::Soa(s) => soa_fields_ok(s, service, service),
                _ => false,
            }
            &&& m.additionals@.len() == 0
        },
        Decision::Forward => false,
    }
}

/// The exact shape of a response built from a successful upstream exchange:
/// response code and recursion-available copied verbatim, the three record
/// sections passed through unchanged, not authoritative.
pub open spec fn forwarded_response_ok<R>(
    m: ResponseModel<R>,
    q: QueryInfo,
    u: UpstreamResponse<R>,
) -> bool {
    &&& m.edns == response_edns(q.edns)
    &&& m.response_code == u.response_code
    &&& m.recursion_available == u.recursion_available
    &&& !m.authoritative
    &&& m.answers@ == u.answers@.map_values(|x: R| Record::<R>::Passthrough(x))
    &&& m.name_servers@ == u.name_servers@.map_values(|x: R| Record::<R>::Passthrough(x))
    &&& m.additionals@ == u.additionals@.map_values(|x: R| Record::<R>::Passthrough(x))
}

/// The exact shape of the SERVFAIL failure response: the bare response code
/// with empty sections.
pub open spec fn servfail_response_ok<R>(m: ResponseModel<R>, q: QueryInfo) -> bool {
    &&& m.edns == response_edns(q.edns)
    &&& m.response_code == ResponseCode::ServFail
    &&& !m.authoritative
    &&& !m.recursion_available
    &&& empty_sections(m)
}

/// The request handler: the immutable blocklist and reserved-zone table,
/// the verdict cache, the interception flag, the service's own zone name,
/// and the counters.
pub struct StubRequestHandler {
    blacklist: BlockedDomainSet,
    checked: DomainVerdictCache,
    zones: ReservedZoneTable,
    intercept: bool,
    service: Vec<u8>,
    metrics: Metrics,
}

impl StubRequestHandler {
    /// The blocklist entries.
    pub closed spec fn entries(&self) -> Seq<Seq<u8>> {
        self.blacklist@
    }

    /// The reserved-zone names.
    pub closed spec fn zone_names(&self) -> Seq<Seq<u8>> {
        self.zones@
    }

    /// Is reserved-zone interception enabled?
    pub closed spec fn intercept_enabled(&self) -> bool {
        self.intercept
    }

    /// The service's own zone, used in synthesized records.
    pub closed spec fn service_zone(&self) -> Seq<u8> {
        self.service@
    }

    /// The current cache contents.
    pub closed spec fn cache_view(&self) -> Seq<(Seq<u8>, bool)> {
        self.checked@
    }

    /// The fixed cache capacity.
    pub closed spec fn cache_capacity(&self) -> usize {
        self.checked.spec_capacity()
    }

    /// The current counter values.
    pub closed spec fn counters(&self) -> Metrics {
        self.metrics
    }

    /// Well-formed: the cache is within capacity, without duplicates, and
    /// every memoized verdict agrees with the blocklist.
    pub closed spec fn wf(&self) -> bool {
        &&& self.checked.wf()
        &&& coherent(self.checked@, self.blacklist@)
    }

    /// The immutable configuration is unchanged.
    pub open spec fn same_config(&self, other: &StubRequestHandler) -> bool {
        &&& self.entries() == other.entries()
        &&& self.zone_names() == other.zone_names()
        &&& self.intercept_enabled() == other.intercept_enabled()
        &&& self.service_zone() == other.service_zone()
        &&& self.cache_capacity() == other.cache_capacity()
    }

    /// A fresh handler with an empty cache and zeroed counters.
    pub fn new(
        blacklist: BlockedDomainSet,
        zones: ReservedZoneTable,
        intercept: bool,
        service: Vec<u8>,
        cache_capacity: usize,
    ) -> (r: StubRequestHandler)
        ensures
            r.wf(),
            r.entries() == blacklist@,
            r.zone_names() == zones@,
            r.intercept_enabled() == intercept,
            r.service_zone() == service@,
            r.cache_capacity() == cache_capacity,
            r.cache_view().len() == 0,
            r.counters() == (Metrics {
                total_requests: 0,
                blocked_requests: 0,
                forwarded_requests: 0,
            }),
    {
        StubRequestHandler {
            blacklist,
            checked: DomainVerdictCache::new(cache_capacity),
            zones,
            intercept,
            service,
            metrics: Metrics::new(),
        }
    }

    /// The current counter values, for export.
    pub fn metrics(&self) -> (r: Metrics)
        ensures
            r == self.counters(),
    {
        self.metrics
    }

    /// How many names the verdict cache currently holds.
    pub fn cache_len(&self) -> (r: usize)
        ensures
            r == self.cache_view().len(),
    {
        self.checked.len()
    }

    /// Is this name blocked by the blocklist? Memoized in the verdict cache;
    /// the answer is always exactly what a fresh scan of the blocklist gives.
    pub fn is_blacklist_subdomain(&mut self, name: &[u8]) -> (r: bool)
        requires
            old(self).wf(),
        ensures
            final(self).wf(),
            old(self).same_config(final(self)),
            final(self).counters() == old(self).counters(),
            r == blocked_by(name@, old(self).entries()),
    {
        is_blocked(&mut self.checked, &self.blacklist, name)
    }

    /// Decide what to do with one query, counting it: the total counter
    /// always increments, the blocked counter increments exactly on the
    /// locally-answered outcomes (apex answers and blocks).
    pub fn decide(&mut self, q: &QueryInfo) -> (d: Decision)
        requires
            old(self).wf(),
        ensures
            final(self).wf(),
            old(self).same_config(final(self)),
            d == decision_of(
                old(self).intercept_enabled(),
                old(self).zone_names(),
                old(self).entries(),
                *q,
            ),
            final(self).counters().total_requests == sat_inc(old(self).counters().total_requests),
            final(self).counters().blocked_requests == (if is_local_block(d) {
                sat_inc(old(self).counters().blocked_requests)
            } else {
                old(self).counters().blocked_requests
            }),
            final(self).counters().forwarded_requests == old(self).counters().forwarded_requests,
            skips_blocklist(old(self).intercept_enabled(), old(self).zone_names(), *q)
                ==> final(self).cache_view() == old(self).cache_view(),
    {
        self.metrics.inc_total();
        if let Option::Some(e) = &q.edns {
            if e.version > 0 {
                return Decision::BadVers;
            }
        }
        let plain = matches!(q.kind, MessageKind::Query) && q.op_code == OPCODE_QUERY;
        if !plain {
            return Decision::NotImplemented;
        }
        if self.intercept {
            match self.zones.lookup(q.name.as_slice()) {
                Option::Some(i) => {
                    proof {
                        assert(zone_hit(self.zones@, q.name@));
                    }
                    let apex = self.zones.is_apex(q.name.as_slice(), i);
                    proof {
                        if apex {
                            assert(apex_hit(self.zones@, q.name@));
                        } else {
                            if apex_hit(self.zones@, q.name@) {
                                lemma_longest_hit_is_apex(self.zones@, q.name@, i as int);
                            }
                            assert(!apex_hit(self.zones@, q.name@));
                        }
                    }
                    self.metrics.inc_blocked();
                    if apex && q.query_type == TYPE_SOA {
                        return Decision::ApexSoa;
                    }
                    if apex && q.query_type == TYPE_NS {
                        return Decision::ApexNs;
                    }
                    return Decision::Blocked;
                },
                Option::None => {
                    proof {
                        if apex_hit(self.zones@, q.name@) {
                            lemma_apex_is_hit(self.zones@, q.name@);
                        }
                    }
                },
            }
        }
        let b = is_blocked(&mut self.checked, &self.blacklist, q.name.as_slice());
        if b {
            self.metrics.inc_blocked();
            return Decision::Blocked;
        }
        Decision::Forward
    }

    /// Build the full response for any decision answered locally.
    pub fn respond_local<R>(&self, q: &QueryInfo, d: Decision) -> (m: ResponseModel<R>)
        requires
            d != Decision::Forward,
        ensures
            local_response_ok(m, *q, self.service_zone(), d),
    {
        let edns: Option<EdnsInfo> = match &q.edns {
            Option::Some(e) => Option::Some(negotiate_edns(e)),
            Option::None => Option::None,
        };
        let mut answers: Vec<Record<R>> = Vec::new();
        let mut name_servers: Vec<Record<R>> = Vec::new();
        let additionals: Vec<Record<R>> = Vec::new();
        match d {
            Decision::NotImplemented => ResponseModel {
                response_code: ResponseCode::NotImp,
                authoritative: false,
                recursion_available: false,
                answers,
                name_servers,
                additionals,
                edns,
            },
            Decision::BadVers => ResponseModel {
                response_code: ResponseCode::BadVers,
                authoritative: false,
                recursion_available: false,
                answers,
                name_servers,
                additionals,
                edns,
            },
            Decision::ApexSoa => {
                answers.push(Record::Soa(synth_soa(q.name.as_slice(), self.service.as_slice())));
                ResponseModel {
                    response_code: ResponseCode::NoError,
                    authoritative: true,
                    recursion_available: true,
                    answers,
                    name_servers,
                    additionals,
                    edns,
                }
            },
            Decision::ApexNs => {
                answers.push(Record::Ns(synth_ns(q.name.as_slice(), self.service.as_slice())));
                ResponseModel {
                    response_code: ResponseCode::NoError,
                    authoritative: true,
                    recursion_available: true,
                    answers,
                    name_servers,
                    additionals,
                    edns,
                }
            },
            Decision::Blocked | Decision::Forward => {
                name_servers.push(
                    Record::Soa(synth_soa(self.service.as_slice(), self.service.as_slice())),
                );
                ResponseModel {
                    response_code: ResponseCode::NXDomain,
                    authoritative: true,
                    recursion_available: true,
                    answers,
                    name_servers,
                    additionals,
                    edns,
                }
            },
        }
    }

    /// Handle one parsed request up to the single outside effect: decide,
    /// and either hand back the finished local response or ask the caller
    /// to forward the original question upstream.
    pub fn handle_request_step<R>(&mut self, q: &QueryInfo) -> (r: HandlerStep<R>)
        requires
            old(self).wf(),
        ensures
            final(self).wf(),
            old(self).same_config(final(self)),
            final(self).counters().forwarded_requests == old(self).counters().forwarded_requests,
            final(self).counters().total_requests == sat_inc(old(self).counters().total_requests),
            skips_blocklist(old(self).intercept_enabled(), old(self).zone_names(), *q)
                ==> final(self).cache_view() == old(self).cache_view(),
            ({
                let d = decision_of(
                    old(self).intercept_enabled(),
                    old(self).zone_names(),
                    old(self).entries(),
                    *q,
                );
                &&& match r {
                    HandlerStep::Forward => d == Decision::Forward,
                    HandlerStep::Respond(m) => d != Decision::Forward && local_response_ok(
                        m,
                        *q,
                        old(self).service_zone(),
                        d,
                    ),
                }
                &&& final(self).counters().blocked_requests == (if is_local_block(d) {
                    sat_inc(old(self).counters().blocked_requests)
                } else {
                    old(self).counters().blocked_requests
                })
            }),
    {
        let d = self.decide(q);
        if matches!(d, Decision::Forward) {
            HandlerStep::Forward
        } else {
            HandlerStep::Respond(self.respond_local(q, d))
        }
    }

    /// Turn the outcome of the upstream exchange into the final response:
    /// a successful exchange is copied verbatim (and counted as forwarded),
    /// a failed one becomes SERVFAIL.
    pub fn handle_upstream_result<R>(
        &mut self,
        q: &QueryInfo,
        upstream: Option<UpstreamResponse<R>>,
    ) -> (m: ResponseModel<R>)
        requires
            old(self).wf(),
        ensures
            final(self).wf(),
            old(self).same_config(final(self)),
            final(self).cache_view() == old(self).cache_view(),
            final(self).counters().total_requests == old(self).counters().total_requests,
            final(self).counters().blocked_requests == old(self).counters().blocked_requests,
            final(self).counters().forwarded_requests == (if upstream is Some {
                sat_inc(old(self).counters().forwarded_requests)
            } else {
                old(self).counters().forwarded_requests
            }),
            match upstream {
                Option::Some(u) => forwarded_response_ok(m, *q, u),
                Option::None => servfail_response_ok(m, *q),
            },
    {
        let edns: Option<EdnsInfo> = match &q.edns {
            Option::Some(e) => Option::Some(negotiate_edns(e)),
            Option::None => Option::None,
        };
        match upstream {
            Option::Some(u) => {
                self.metrics.inc_forwarded();
                let answers = passthrough_section(u.answers);
                let name_servers = passthrough_section(u.name_servers);
                let additionals = passthrough_section(u.additionals);
                ResponseModel {
                    response_code: u.response_code,
                    authoritative: false,
                    recursion_available: u.recursion_available,
                    answers,
                    name_servers,
                    additionals,
                    edns,
                }
            },
            Option::None => ResponseModel {
                response_code: ResponseCode::ServFail,
                authoritative: false,
                recursion_available: false,
                answers: Vec::new(),
                name_servers: Vec::new(),
                additionals: Vec::new(),
                edns,
            },
        }
    }
}

/// Wrap every record of an upstream section for verbatim passthrough.
fn passthrough_section<R>(v: Vec<R>) -> (out: Vec<Record<R>>)
    ensures
        out@ == v@.map_values(|x: R| Record::<R>::Passthrough(x)),
{
    let ghost v0 = v@;
    let mut v = v;
    let mut tmp: Vec<R> = Vec::new();
    while v.len() > 0
        invariant
            v@.len() + tmp@.len() == v0.len(),
            v@ =~= v0.subrange(0, v@.len() as int),
            forall|i: int| 0 <= i < tmp@.len() ==> tmp@[i] == v0[v0.len() - 1 - i],
        decreases v.len(),
    {
        let x = v.pop().unwrap();
        tmp.push(x);
    }
    let mut out: Vec<Record<R>> = Vec::new();
    while tmp.len() > 0
        invariant
            tmp@.len() + out@.len() == v0.len(),
            forall|i: int| 0 <= i < tmp@.len() ==> tmp@[i] == v0[v0.len() - 1 - i],
            forall|i: int|
                0 <= i < out@.len() ==> out@[i] == Record::<R>::Passthrough(v0[i]),
        decreases tmp.len(),
    {
        let x = tmp.pop().unwrap();
        out.push(Record::Passthrough(x));
    }
    proof {
        assert(out@ =~= v0.map_values(|x: R| Record::<R>::Passthrough(x)));
    }
    out
}

/// Law: a request advertising an EDNS version above the supported version 0
/// is decided BADVERS, and its response carries response code BADVERS and no
/// answer records, regardless of the query's content.
pub proof fn lemma_edns_version_refused<R>(
    intercept: bool,
    zones: Seq<Seq<u8>>,
    entries: Seq<Seq<u8>>,
    q: QueryInfo,
    m: ResponseModel<R>,
    service: Seq<u8>,
)
    requires
        match q.edns {
            Option::Some(e) => e.version > 0,
            Option::None => false,
        },
        local_response_ok(m, q, service, decision_of(intercept, zones, entries, q)),
    ensures
        decision_of(intercept, zones, entries, q) == Decision::BadVers,
        m.response_code == ResponseCode::BadVers,
        m.answers@.len() == 0,
        m.name_servers@.len() == 0,
        m.additionals@.len() == 0,
{
}

/// Law: with interception enabled, an apex query of a reserved zone is
/// answered NOERROR with exactly one synthesized record of the requested
/// type when that type is SOA or NS, and NXDOMAIN with an empty answer
/// section for every other type.
pub proof fn lemma_apex_interception<R>(
    zones: Seq<Seq<u8>>,
    entries: Seq<Seq<u8>>,
    q: QueryInfo,
    m: ResponseModel<R>,
    service: Seq<u8>,
)
    requires
        !edns_refused(q),
        plain_query(q),
        apex_hit(zones, q.name@),
        local_response_ok(m, q, service, decision_of(true, zones, entries, q)),
    ensures
        q.query_type == TYPE_SOA ==> m.response_code == ResponseCode::NoError
            && m.answers@.len() == 1 && m.answers@[0] is Soa,
        q.query_type == TYPE_NS ==> m.response_code == ResponseCode::NoError
            && m.answers@.len() == 1 && m.answers@[0] is Ns,
        q.query_type != TYPE_SOA && q.query_type != TYPE_NS ==> m.response_code
            == ResponseCode::NXDomain && m.answers@.len() == 0,
{
    lemma_apex_is_hit(zones, q.name@);
}

/// Law: with interception enabled, a plain query whose name lies in some
/// zone of the reserved table is answered locally — synthetically at the
/// apex for SOA/NS, blocked otherwise — and never forwarded upstream.
pub proof fn lemma_reserved_names_never_forwarded(
    zones: Seq<Seq<u8>>,
    entries: Seq<Seq<u8>>,
    q: QueryInfo,
    i: int,
)
    requires
        !edns_refused(q),
        plain_query(q),
        0 <= i < zones.len(),
        in_zone(q.name@, zones[i]),
    ensures
        decision_of(true, zones, entries, q) != Decision::Forward,
        is_local_block(decision_of(true, zones, entries, q)),
{
    assert(zone_hit(zones, q.name@));
}

/// Law: a query whose decision is Blocked is answered NXDOMAIN with the
/// authority section holding exactly one synthetic SOA for the service's own
/// zone and an empty answer section; upstream is never contacted for it.
pub proof fn lemma_blocked_response<R>(
    intercept: bool,
    zones: Seq<Seq<u8>>,
    entries: Seq<Seq<u8>>,
    q: QueryInfo,
    m: ResponseModel<R>,
    service: Seq<u8>,
)
    requires
        decision_of(intercept, zones, entries, q) == Decision::Blocked,
        local_response_ok(m, q, service, decision_of(intercept, zones, entries, q)),
    ensures
        m.response_code == ResponseCode::NXDomain,
        m.authoritative,
        m.answers@.len() == 0,
        m.name_servers@.len() == 1,
        match m.name_servers@[0] {
            Record::Soa(s) => soa_fields_ok(s, service, service),
            _ => false,
        },
{
}

} // verus!
