//! Site reliability: SLOs, synthetic probes, capacity, incidents and
//! on-call.

use vstd::prelude::*;
use crate::http::{delete_request, get_request, json_request, path_raw, path_tail, ApiRequest, HttpMethod};
use crate::json::{object_of, str_list_value, strings_view, text_member, uint_value, Json, JsonValue, Members};
use crate::text::{concat2, concat3, decimal, decimal_string};

verus! {

/// Plans the calls of site reliability.
pub struct SreAnalyticsService;

/// An SLO to define. The target is carried as the JSON value it is sent
/// as.
#[derive(Debug)]
pub struct SloDefinition<'a> {
    pub service: &'a str,
    pub sli_type: &'a str,
    pub target: Json,
    pub window_hours: u32,
}

/// A synthetic probe to create.
#[derive(Debug, Clone)]
pub struct SyntheticProbe<'a> {
    pub name: &'a str,
    pub target_url: &'a str,
    pub interval_secs: u32,
    pub expected_status: u16,
    pub timeout_ms: u32,
    pub regions: Vec<String>,
}

/// `base`, then `<marker><n>` when a number is given.
pub open spec fn with_number(base: Seq<char>, marker: Seq<char>, n: Option<u32>) -> Seq<char> {
    match n {
        Some(v) => base + marker + decimal(v as nat),
        None => base,
    }
}

fn number_path(base: &str, marker: &str, n: Option<u32>) -> (r: String)
    ensures
        r@ == with_number(base@, marker@, n),
{
    match n {
        Some(v) => concat3(base, marker, decimal_string(v as u64).as_str()),
        None => base.to_owned(),
    }
}

pub open spec fn probe_body(p: SyntheticProbe) -> JsonValue {
    object_of(seq![
        text_member("name"@, p.name@),
        text_member("target_url"@, p.target_url@),
        ("interval_secs"@, uint_value(p.interval_secs as u64)),
        ("expected_status"@, uint_value(p.expected_status as u64)),
        ("timeout_ms"@, uint_value(p.timeout_ms as u64)),
        ("regions"@, str_list_value(strings_view(p.regions@))),
    ])
}

/// What `probe_body` builds reads back field by field: each value the
/// arguments give is found under its own name, an optional one only when
/// it is set, and a list as the same items in the same order.
pub proof fn lemma_probe_body_reads_back(p: SyntheticProbe)
    ensures
        crate::json::json_str_member(probe_body(p), "name"@) == Some(p.name@),
        crate::json::json_str_member(probe_body(p), "target_url"@) == Some(p.target_url@),
        crate::decode::field_str_list(probe_body(p), "regions"@) == Some(strings_view(p.regions@)),
        crate::json::json_get(probe_body(p), "interval_secs"@) == Some(uint_value(p.interval_secs as u64)),
        crate::json::json_get(probe_body(p), "expected_status"@) == Some(uint_value(p.expected_status as u64)),
        crate::json::json_get(probe_body(p), "timeout_ms"@) == Some(uint_value(p.timeout_ms as u64)),
{
    assert(crate::json::json_str_member(probe_body(p), "name"@) == Some(p.name@)) by {
        broadcast use crate::json::lemma_member_lookup_append, crate::json::lemma_member_lookup_opt;

        lemma_probe_body_keys();
        reveal_with_fuel(crate::json::member_lookup, 7);
    }
    assert(crate::json::json_str_member(probe_body(p), "target_url"@) == Some(p.target_url@)) by {
        broadcast use crate::json::lemma_member_lookup_append, crate::json::lemma_member_lookup_opt;

        lemma_probe_body_keys();
        reveal_with_fuel(crate::json::member_lookup, 7);
    }
    assert(crate::decode::field_str_list(probe_body(p), "regions"@) == Some(strings_view(p.regions@))) by {
        broadcast use crate::json::lemma_member_lookup_append, crate::json::lemma_member_lookup_opt;

        lemma_probe_body_keys();
        reveal_with_fuel(crate::json::member_lookup, 7);
        crate::decode::lemma_str_list_reads_back(strings_view(p.regions@));
    }
    assert(crate::json::json_get(probe_body(p), "interval_secs"@) == Some(uint_value(p.interval_secs as u64))) by {
        broadcast use crate::json::lemma_member_lookup_append, crate::json::lemma_member_lookup_opt;

        lemma_probe_body_keys();
        reveal_with_fuel(crate::json::member_lookup, 7);
    }
    assert(crate::json::json_get(probe_body(p), "expected_status"@) == Some(uint_value(p.expected_status as u64))) by {
        broadcast use crate::json::lemma_member_lookup_append, crate::json::lemma_member_lookup_opt;

        lemma_probe_body_keys();
        reveal_with_fuel(crate::json::member_lookup, 7);
    }
    assert(crate::json::json_get(probe_body(p), "timeout_ms"@) == Some(uint_value(p.timeout_ms as u64))) by {
        broadcast use crate::json::lemma_member_lookup_append, crate::json::lemma_member_lookup_opt;

        lemma_probe_body_keys();
        reveal_with_fuel(crate::json::member_lookup, 7);
    }
}

/// The field names that `probe_body` uses, told apart.
proof fn lemma_probe_body_keys()
    ensures
        "expected_status"@.len() == 15,
        "interval_secs"@.len() == 13,
        "name"@.len() == 4,
        "regions"@.len() == 7,
        "target_url"@.len() == 10,
        "target_url"@[1] == 'a',
        "timeout_ms"@.len() == 10,
        "timeout_ms"@[1] == 'i',
{
    reveal_strlit("expected_status");
    reveal_strlit("interval_secs");
    reveal_strlit("name");
    reveal_strlit("regions");
    reveal_strlit("target_url");
    reveal_strlit("timeout_ms");
}

/// The body that [`SreAnalyticsService::update_incident`] sends.
pub open spec fn update_incident_body(status: &str, notes: &str) -> JsonValue {
    object_of(seq![text_member("status"@, status@), text_member("notes"@, notes@)])
}

/// What `update_incident_body` builds reads back field by field: each value the
/// arguments give is found under its own name, an optional one only when
/// it is set, and a list as the same items in the same order.
pub proof fn lemma_update_incident_body_reads_back(status: &str, notes: &str)
    ensures
        crate::json::json_str_member(update_incident_body(status, notes), "status"@) == Some(status@),
        crate::json::json_str_member(update_incident_body(status, notes), "notes"@) == Some(notes@),
{
    assert(crate::json::json_str_member(update_incident_body(status, notes), "status"@) == Some(status@)) by {
        broadcast use crate::json::lemma_member_lookup_append, crate::json::lemma_member_lookup_opt;

        lemma_update_incident_body_keys();
        reveal_with_fuel(crate::json::member_lookup, 3);
    }
    assert(crate::json::json_str_member(update_incident_body(status, notes), "notes"@) == Some(notes@)) by {
        broadcast use crate::json::lemma_member_lookup_append, crate::json::lemma_member_lookup_opt;

        lemma_update_incident_body_keys();
        reveal_with_fuel(crate::json::member_lookup, 3);
    }
}

/// The field names that `update_incident_body` uses, told apart.
proof fn lemma_update_incident_body_keys()
    ensures
        "notes"@.len() == 5,
        "status"@.len() == 6,
{
    reveal_strlit("notes");
    reveal_strlit("status");
}

/// The body that [`SreAnalyticsService::create_incident`] sends.
pub open spec fn create_incident_body(title: &str, severity: &str, affected_services: Vec<String>) -> JsonValue {
    object_of(seq![
        text_member("title"@, title@),
        text_member("severity"@, severity@),
        ("affected_services"@, str_list_value(strings_view(affected_services@))),
    ])
}

/// What `create_incident_body` builds reads back field by field: each value the
/// arguments give is found under its own name, an optional one only when
/// it is set, and a list as the same items in the same order.
pub proof fn lemma_create_incident_body_reads_back(title: &str, severity: &str, affected_services: Vec<String>)
    ensures
        crate::json::json_str_member(create_incident_body(title, severity, affected_services), "title"@) == Some(title@),
        crate::json::json_str_member(create_incident_body(title, severity, affected_services), "severity"@) == Some(severity@),
        crate::decode::field_str_list(create_incident_body(title, severity, affected_services), "affected_services"@) == Some(strings_view(affected_services@)),
{
    assert(crate::json::json_str_member(create_incident_body(title, severity, affected_services), "title"@) == Some(title@)) by {
        broadcast use crate::json::lemma_member_lookup_append, crate::json::lemma_member_lookup_opt;

        lemma_create_incident_body_keys();
        reveal_with_fuel(crate::json::member_lookup, 4);
    }
    assert(crate::json::json_str_member(create_incident_body(title, severity, affected_services), "severity"@) == Some(severity@)) by {
        broadcast use crate::json::lemma_member_lookup_append, crate::json::lemma_member_lookup_opt;

        lemma_create_incident_body_keys();
        reveal_with_fuel(crate::json::member_lookup, 4);
    }
    assert(crate::decode::field_str_list(create_incident_body(title, severity, affected_services), "affected_services"@) == Some(strings_view(affected_services@))) by {
        broadcast use crate::json::lemma_member_lookup_append, crate::json::lemma_member_lookup_opt;

        lemma_create_incident_body_keys();
        reveal_with_fuel(crate::json::member_lookup, 4);
        crate::decode::lemma_str_list_reads_back(strings_view(affected_services@));
    }
}

/// The field names that `create_incident_body` uses, told apart.
proof fn lemma_create_incident_body_keys()
    ensures
        "affected_services"@.len() == 17,
        "severity"@.len() == 8,
        "title"@.len() == 5,
{
    reveal_strlit("affected_services");
    reveal_strlit("severity");
    reveal_strlit("title");
}

/// The body that [`SreAnalyticsService::upsert_slo`] sends.
pub open spec fn upsert_slo_body(slo: SloDefinition<'_>) -> JsonValue {
    object_of(seq![
        text_member("service"@, slo.service@),
        text_member("sli_type"@, slo.sli_type@),
        ("target"@, slo.target@),
        ("window_hours"@, uint_value(slo.window_hours as u64)),
    ])
}

/// What `upsert_slo_body` builds reads back field by field: each value the
/// arguments give is found under its own name, an optional one only when
/// it is set, and a list as the same items in the same order.
pub proof fn lemma_upsert_slo_body_reads_back(slo: SloDefinition<'_>)
    ensures
        crate::json::json_str_member(upsert_slo_body(slo), "service"@) == Some(slo.service@),
        crate::json::json_str_member(upsert_slo_body(slo), "sli_type"@) == Some(slo.sli_type@),
        crate::json::json_get(upsert_slo_body(slo), "target"@) == Some(slo.target@),
        crate::json::json_get(upsert_slo_body(slo), "window_hours"@) == Some(uint_value(slo.window_hours as u64)),
{
    assert(crate::json::json_str_member(upsert_slo_body(slo), "service"@) == Some(slo.service@)) by {
        broadcast use crate::json::lemma_member_lookup_append, crate::json::lemma_member_lookup_opt;

        lemma_upsert_slo_body_keys();
        reveal_with_fuel(crate::json::member_lookup, 5);
    }
    assert(crate::json::json_str_member(upsert_slo_body(slo), "sli_type"@) == Some(slo.sli_type@)) by {
        broadcast use crate::json::lemma_member_lookup_append, crate::json::lemma_member_lookup_opt;

        lemma_upsert_slo_body_keys();
        reveal_with_fuel(crate::json::member_lookup, 5);
    }
    assert(crate::json::json_get(upsert_slo_body(slo), "target"@) == Some(slo.target@)) by {
        broadcast use crate::json::lemma_member_lookup_append, crate::json::lemma_member_lookup_opt;

        lemma_upsert_slo_body_keys();
        reveal_with_fuel(crate::json::member_lookup, 5);
    }
    assert(crate::json::json_get(upsert_slo_body(slo), "window_hours"@) == Some(uint_value(slo.window_hours as u64))) by {
        broadcast use crate::json::lemma_member_lookup_append, crate::json::lemma_member_lookup_opt;

        lemma_upsert_slo_body_keys();
        reveal_with_fuel(crate::json::member_lookup, 5);
    }
}

/// The field names that `upsert_slo_body` uses, told apart.
proof fn lemma_upsert_slo_body_keys()
    ensures
        "service"@.len() == 7,
        "sli_type"@.len() == 8,
        "target"@.len() == 6,
        "window_hours"@.len() == 12,
{
    reveal_strlit("service");
    reveal_strlit("sli_type");
    reveal_strlit("target");
    reveal_strlit("window_hours");
}

impl SreAnalyticsService {
    /// Define or replace an SLO.
    pub fn upsert_slo(&self, slo: SloDefinition<'_>) -> (r: ApiRequest)
        ensures
            r@ == json_request(
                HttpMethod::Post,
                "/sre/slos"@,
                upsert_slo_body(slo),
            ),
    {
        let ghost s = slo;
        let mut body = Members::new();
        body.put_str("service", slo.service);
        body.put_str("sli_type", slo.sli_type);
        body.put("target", slo.target);
        body.put_uint("window_hours", slo.window_hours as u64);
        assert(body@ =~= seq![
            text_member("service"@, s.service@),
            text_member("sli_type"@, s.sli_type@),
            ("target"@, s.target@),
            ("window_hours"@, uint_value(s.window_hours as u64)),
        ]);
        ApiRequest::post("/sre/slos".to_owned(), body.into_json())
    }

    /// The SLOs.
    pub fn list_slos(&self) -> (r: ApiRequest)
        ensures
            r@ == get_request("/sre/slos"@, seq![]),
    {
        ApiRequest::get_plain("/sre/slos".to_owned())
    }

    /// A service's SLO status. The name is placed in the path as given.
    pub fn slo_status(&self, service: &str) -> (r: ApiRequest)
        ensures
            r@ == get_request("/sre/slos/"@ + service@ + "/status"@, seq![]),
    {
        ApiRequest::get_plain(path_raw("/sre/slos/", service, "/status"))
    }

    /// The SLO dashboard.
    pub fn slo_dashboard(&self) -> (r: ApiRequest)
        ensures
            r@ == get_request("/sre/slos/dashboard"@, seq![]),
    {
        ApiRequest::get_plain("/sre/slos/dashboard".to_owned())
    }

    /// Create a synthetic probe.
    pub fn create_probe(&self, probe: SyntheticProbe<'_>) -> (r: ApiRequest)
        ensures
            r@ == json_request(HttpMethod::Post, "/sre/synthetic/probes"@, probe_body(probe)),
    {
        let mut body = Members::new();
        body.put_str("name", probe.name);
        body.put_str("target_url", probe.target_url);
        body.put_uint("interval_secs", probe.interval_secs as u64);
        body.put_uint("expected_status", probe.expected_status as u64);
        body.put_uint("timeout_ms", probe.timeout_ms as u64);
        body.put("regions", Json::string_list(&probe.regions));
        assert(body@ =~= probe_body(probe)->Object_0);
        ApiRequest::post("/sre/synthetic/probes".to_owned(), body.into_json())
    }

    /// The probes.
    pub fn list_probes(&self) -> (r: ApiRequest)
        ensures
            r@ == get_request("/sre/synthetic/probes"@, seq![]),
    {
        ApiRequest::get_plain("/sre/synthetic/probes".to_owned())
    }

    /// A probe's results, at most `limit` when given (in the path's query).
    pub fn probe_results(&self, probe_id: &str, limit: Option<u32>) -> (r: ApiRequest)
        ensures
            r@ == get_request(with_number("/sre/synthetic/probes/"@ + probe_id@ + "/results"@, "?limit="@, limit), seq![]),
    {
        let base = path_raw("/sre/synthetic/probes/", probe_id, "/results");
        ApiRequest::get_plain(number_path(base.as_str(), "?limit=", limit))
    }

    /// Delete a probe.
    pub fn delete_probe(&self, probe_id: &str) -> (r: ApiRequest)
        ensures
            r@ == delete_request("/sre/synthetic/probes/"@ + probe_id@),
    {
        ApiRequest::delete(path_tail("/sre/synthetic/probes/", probe_id))
    }

    /// A service's capacity forecast, over a horizon when given (both in
    /// the path's query).
    pub fn capacity_forecast(&self, service: &str, horizon_days: Option<u32>) -> (r: ApiRequest)
        ensures
            r@ == get_request(with_number("/sre/capacity/forecast?service="@ + service@, "&horizon_days="@, horizon_days), seq![]),
    {
        let base = concat2("/sre/capacity/forecast?service=", service);
        ApiRequest::get_plain(number_path(base.as_str(), "&horizon_days=", horizon_days))
    }

    /// Resource utilization.
    pub fn resource_utilization(&self) -> (r: ApiRequest)
        ensures
            r@ == get_request("/sre/capacity/utilization"@, seq![]),
    {
        ApiRequest::get_plain("/sre/capacity/utilization".to_owned())
    }

    /// Scaling recommendations.
    pub fn scaling_recommendations(&self) -> (r: ApiRequest)
        ensures
            r@ == get_request("/sre/capacity/recommendations"@, seq![]),
    {
        ApiRequest::get_plain("/sre/capacity/recommendations".to_owned())
    }

    /// Incidents, of one status when given (in the path's query).
    pub fn list_incidents(&self, status: Option<&str>) -> (r: ApiRequest)
        ensures
            r@ == get_request(
                match status {
                    Some(s) => "/sre/incidents"@ + "?status="@ + s@,
                    None => "/sre/incidents"@,
                },
                seq![],
            ),
    {
        let path = match status {
            Some(s) => concat3("/sre/incidents", "?status=", s),
            None => "/sre/incidents".to_owned(),
        };
        ApiRequest::get_plain(path)
    }

    /// Open an incident.
    pub fn create_incident(&self, title: &str, severity: &str, affected_services: Vec<String>) -> (r: ApiRequest)
        ensures
            r@ == json_request(
                HttpMethod::Post,
                "/sre/incidents"@,
                create_incident_body(title, severity, affected_services),
            ),
    {
        let mut body = Members::new();
        body.put_str("title", title);
        body.put_str("severity", severity);
        body.put("affected_services", Json::string_list(&affected_services));
        assert(body@ =~= seq![
            text_member("title"@, title@),
            text_member("severity"@, severity@),
            ("affected_services"@, str_list_value(strings_view(affected_services@))),
        ]);
        ApiRequest::post("/sre/incidents".to_owned(), body.into_json())
    }

    /// Update an incident.
    pub fn update_incident(&self, incident_id: &str, status: &str, notes: &str) -> (r: ApiRequest)
        ensures
            r@ == json_request(
                HttpMethod::Post,
                "/sre/incidents/"@ + incident_id@ + "/update"@,
                update_incident_body(status, notes),
            ),
    {
        let mut body = Members::new();
        body.put_str("status", status);
        body.put_str("notes", notes);
        assert(body@ =~= seq![text_member("status"@, status@), text_member("notes"@, notes@)]);
        ApiRequest::post(path_raw("/sre/incidents/", incident_id, "/update"), body.into_json())
    }

    /// An incident's timeline.
    pub fn incident_timeline(&self, incident_id: &str) -> (r: ApiRequest)
        ensures
            r@ == get_request("/sre/incidents/"@ + incident_id@ + "/timeline"@, seq![]),
    {
        ApiRequest::get_plain(path_raw("/sre/incidents/", incident_id, "/timeline"))
    }

    /// The on-call schedule.
    pub fn oncall_schedule(&self) -> (r: ApiRequest)
        ensures
            r@ == get_request("/sre/oncall/schedule"@, seq![]),
    {
        ApiRequest::get_plain("/sre/oncall/schedule".to_owned())
    }

    /// Who is on call for a service.
    pub fn oncall_for_service(&self, service: &str) -> (r: ApiRequest)
        ensures
            r@ == get_request("/sre/oncall/service/"@ + service@, seq![]),
    {
        ApiRequest::get_plain(path_tail("/sre/oncall/service/", service))
    }
}

} // verus!
