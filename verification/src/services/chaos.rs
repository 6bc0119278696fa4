//! Chaos engineering: the fault queue, disaster-recovery drills and game
//! days.

use vstd::prelude::*;
use crate::http::{empty_object, get_request, json_request, ApiRequest, HttpMethod};
use crate::json::{object_of, text_member, uint_value, Json, JsonValue, Members};
use crate::text::{concat2, decimal, decimal_string};

verus! {

/// Plans the calls of chaos engineering.
pub struct ChaosService;

/// A fault to queue. The blast radius is carried as the JSON value it is
/// sent as.
#[derive(Debug)]
pub struct FaultConfig<'a> {
    pub fault_type: &'a str,
    pub target_service: &'a str,
    pub duration_secs: u32,
    pub blast_radius: Json,
    pub requires_approval: bool,
}

/// A disaster-recovery drill to start.
#[derive(Default, Debug, Clone, Copy)]
pub struct DrDrillConfig<'a> {
    pub drill_type: &'a str,
    pub target: &'a str,
    pub max_duration_secs: u32,
}

/// The body that [`ChaosService::execute_gameday`] sends.
pub open spec fn execute_gameday_body(gameday_id: &str) -> JsonValue {
    object_of(seq![text_member("gameday_id"@, gameday_id@)])
}

/// What `execute_gameday_body` builds reads back field by field: each value the
/// arguments give is found under its own name, an optional one only when
/// it is set, and a list as the same items in the same order.
pub proof fn lemma_execute_gameday_body_reads_back(gameday_id: &str)
    ensures
        crate::json::json_str_member(execute_gameday_body(gameday_id), "gameday_id"@) == Some(gameday_id@),
{
    assert(crate::json::json_str_member(execute_gameday_body(gameday_id), "gameday_id"@) == Some(gameday_id@)) by {
        broadcast use crate::json::lemma_member_lookup_append, crate::json::lemma_member_lookup_opt;

        lemma_execute_gameday_body_keys();
        reveal_with_fuel(crate::json::member_lookup, 2);
    }
}

/// The field names that `execute_gameday_body` uses, told apart.
proof fn lemma_execute_gameday_body_keys()
    ensures
        "gameday_id"@.len() == 10,
{
    reveal_strlit("gameday_id");
}

/// The body that [`ChaosService::create_gameday`] sends.
pub open spec fn create_gameday_body(name: &str, scenarios: Json) -> JsonValue {
    object_of(seq![text_member("name"@, name@), ("scenarios"@, scenarios@)])
}

/// What `create_gameday_body` builds reads back field by field: each value the
/// arguments give is found under its own name, an optional one only when
/// it is set, and a list as the same items in the same order.
pub proof fn lemma_create_gameday_body_reads_back(name: &str, scenarios: Json)
    ensures
        crate::json::json_str_member(create_gameday_body(name, scenarios), "name"@) == Some(name@),
        crate::json::json_get(create_gameday_body(name, scenarios), "scenarios"@) == Some(scenarios@),
{
    assert(crate::json::json_str_member(create_gameday_body(name, scenarios), "name"@) == Some(name@)) by {
        broadcast use crate::json::lemma_member_lookup_append, crate::json::lemma_member_lookup_opt;

        lemma_create_gameday_body_keys();
        reveal_with_fuel(crate::json::member_lookup, 3);
    }
    assert(crate::json::json_get(create_gameday_body(name, scenarios), "scenarios"@) == Some(scenarios@)) by {
        broadcast use crate::json::lemma_member_lookup_append, crate::json::lemma_member_lookup_opt;

        lemma_create_gameday_body_keys();
        reveal_with_fuel(crate::json::member_lookup, 3);
    }
}

/// The field names that `create_gameday_body` uses, told apart.
proof fn lemma_create_gameday_body_keys()
    ensures
        "name"@.len() == 4,
        "scenarios"@.len() == 9,
{
    reveal_strlit("name");
    reveal_strlit("scenarios");
}

/// The body that [`ChaosService::stop_drill`] sends.
pub open spec fn stop_drill_body(drill_id: &str) -> JsonValue {
    object_of(seq![text_member("drill_id"@, drill_id@)])
}

/// What `stop_drill_body` builds reads back field by field: each value the
/// arguments give is found under its own name, an optional one only when
/// it is set, and a list as the same items in the same order.
pub proof fn lemma_stop_drill_body_reads_back(drill_id: &str)
    ensures
        crate::json::json_str_member(stop_drill_body(drill_id), "drill_id"@) == Some(drill_id@),
{
    assert(crate::json::json_str_member(stop_drill_body(drill_id), "drill_id"@) == Some(drill_id@)) by {
        broadcast use crate::json::lemma_member_lookup_append, crate::json::lemma_member_lookup_opt;

        lemma_stop_drill_body_keys();
        reveal_with_fuel(crate::json::member_lookup, 2);
    }
}

/// The field names that `stop_drill_body` uses, told apart.
proof fn lemma_stop_drill_body_keys()
    ensures
        "drill_id"@.len() == 8,
{
    reveal_strlit("drill_id");
}

/// The body that [`ChaosService::start_dr_drill`] sends.
pub open spec fn start_dr_drill_body(config: DrDrillConfig<'_>) -> JsonValue {
    object_of(seq![
        text_member("drill_type"@, config.drill_type@),
        text_member("target"@, config.target@),
        ("max_duration_secs"@, uint_value(config.max_duration_secs as u64)),
    ])
}

/// What `start_dr_drill_body` builds reads back field by field: each value the
/// arguments give is found under its own name, an optional one only when
/// it is set, and a list as the same items in the same order.
pub proof fn lemma_start_dr_drill_body_reads_back(config: DrDrillConfig<'_>)
    ensures
        crate::json::json_str_member(start_dr_drill_body(config), "drill_type"@) == Some(config.drill_type@),
        crate::json::json_str_member(start_dr_drill_body(config), "target"@) == Some(config.target@),
        crate::json::json_get(start_dr_drill_body(config), "max_duration_secs"@) == Some(uint_value(config.max_duration_secs as u64)),
{
    assert(crate::json::json_str_member(start_dr_drill_body(config), "drill_type"@) == Some(config.drill_type@)) by {
        broadcast use crate::json::lemma_member_lookup_append, crate::json::lemma_member_lookup_opt;

        lemma_start_dr_drill_body_keys();
        reveal_with_fuel(crate::json::member_lookup, 4);
    }
    assert(crate::json::json_str_member(start_dr_drill_body(config), "target"@) == Some(config.target@)) by {
        broadcast use crate::json::lemma_member_lookup_append, crate::json::lemma_member_lookup_opt;

        lemma_start_dr_drill_body_keys();
        reveal_with_fuel(crate::json::member_lookup, 4);
    }
    assert(crate::json::json_get(start_dr_drill_body(config), "max_duration_secs"@) == Some(uint_value(config.max_duration_secs as u64))) by {
        broadcast use crate::json::lemma_member_lookup_append, crate::json::lemma_member_lookup_opt;

        lemma_start_dr_drill_body_keys();
        reveal_with_fuel(crate::json::member_lookup, 4);
    }
}

/// The field names that `start_dr_drill_body` uses, told apart.
proof fn lemma_start_dr_drill_body_keys()
    ensures
        "drill_type"@.len() == 10,
        "max_duration_secs"@.len() == 17,
        "target"@.len() == 6,
{
    reveal_strlit("drill_type");
    reveal_strlit("max_duration_secs");
    reveal_strlit("target");
}

/// The body that [`ChaosService::enqueue_fault`] sends.
pub open spec fn enqueue_fault_body(config: FaultConfig<'_>) -> JsonValue {
    object_of(seq![
        text_member("fault_type"@, config.fault_type@),
        text_member("target_service"@, config.target_service@),
        ("duration_secs"@, uint_value(config.duration_secs as u64)),
        ("blast_radius"@, config.blast_radius@),
        ("requires_approval"@, JsonValue::Bool(config.requires_approval)),
    ])
}

/// What `enqueue_fault_body` builds reads back field by field: each value the
/// arguments give is found under its own name, an optional one only when
/// it is set, and a list as the same items in the same order.
pub proof fn lemma_enqueue_fault_body_reads_back(config: FaultConfig<'_>)
    ensures
        crate::json::json_str_member(enqueue_fault_body(config), "fault_type"@) == Some(config.fault_type@),
        crate::json::json_str_member(enqueue_fault_body(config), "target_service"@) == Some(config.target_service@),
        crate::json::json_get(enqueue_fault_body(config), "duration_secs"@) == Some(uint_value(config.duration_secs as u64)),
        crate::json::json_get(enqueue_fault_body(config), "blast_radius"@) == Some(config.blast_radius@),
        crate::json::json_get(enqueue_fault_body(config), "requires_approval"@) == Some(JsonValue::Bool(config.requires_approval)),
{
    assert(crate::json::json_str_member(enqueue_fault_body(config), "fault_type"@) == Some(config.fault_type@)) by {
        broadcast use crate::json::lemma_member_lookup_append, crate::json::lemma_member_lookup_opt;

        lemma_enqueue_fault_body_keys();
        reveal_with_fuel(crate::json::member_lookup, 6);
    }
    assert(crate::json::json_str_member(enqueue_fault_body(config), "target_service"@) == Some(config.target_service@)) by {
        broadcast use crate::json::lemma_member_lookup_append, crate::json::lemma_member_lookup_opt;

        lemma_enqueue_fault_body_keys();
        reveal_with_fuel(crate::json::member_lookup, 6);
    }
    assert(crate::json::json_get(enqueue_fault_body(config), "duration_secs"@) == Some(uint_value(config.duration_secs as u64))) by {
        broadcast use crate::json::lemma_member_lookup_append, crate::json::lemma_member_lookup_opt;

        lemma_enqueue_fault_body_keys();
        reveal_with_fuel(crate::json::member_lookup, 6);
    }
    assert(crate::json::json_get(enqueue_fault_body(config), "blast_radius"@) == Some(config.blast_radius@)) by {
        broadcast use crate::json::lemma_member_lookup_append, crate::json::lemma_member_lookup_opt;

        lemma_enqueue_fault_body_keys();
        reveal_with_fuel(crate::json::member_lookup, 6);
    }
    assert(crate::json::json_get(enqueue_fault_body(config), "requires_approval"@) == Some(JsonValue::Bool(config.requires_approval))) by {
        broadcast use crate::json::lemma_member_lookup_append, crate::json::lemma_member_lookup_opt;

        lemma_enqueue_fault_body_keys();
        reveal_with_fuel(crate::json::member_lookup, 6);
    }
}

/// The field names that `enqueue_fault_body` uses, told apart.
proof fn lemma_enqueue_fault_body_keys()
    ensures
        "blast_radius"@.len() == 12,
        "duration_secs"@.len() == 13,
        "fault_type"@.len() == 10,
        "requires_approval"@.len() == 17,
        "target_service"@.len() == 14,
{
    reveal_strlit("blast_radius");
    reveal_strlit("duration_secs");
    reveal_strlit("fault_type");
    reveal_strlit("requires_approval");
    reveal_strlit("target_service");
}

impl ChaosService {
    /// Queue a fault.
    pub fn enqueue_fault(&self, config: FaultConfig<'_>) -> (r: ApiRequest)
        ensures
            r@ == json_request(
                HttpMethod::Post,
                "/chaos/queue/enqueue"@,
                enqueue_fault_body(config),
            ),
    {
        let ghost c = config;
        let mut body = Members::new();
        body.put_str("fault_type", config.fault_type);
        body.put_str("target_service", config.target_service);
        body.put_uint("duration_secs", config.duration_secs as u64);
        body.put("blast_radius", config.blast_radius);
        body.put_bool("requires_approval", config.requires_approval);
        assert(body@ =~= seq![
            text_member("fault_type"@, c.fault_type@),
            text_member("target_service"@, c.target_service@),
            ("duration_secs"@, uint_value(c.duration_secs as u64)),
            ("blast_radius"@, c.blast_radius@),
            ("requires_approval"@, JsonValue::Bool(c.requires_approval)),
        ]);
        ApiRequest::post("/chaos/queue/enqueue".to_owned(), body.into_json())
    }

    /// The queued faults.
    pub fn list_pending(&self) -> (r: ApiRequest)
        ensures
            r@ == get_request("/chaos/queue/pending"@, seq![]),
    {
        ApiRequest::get_plain("/chaos/queue/pending".to_owned())
    }

    /// Run the next queued fault.
    pub fn execute_next(&self) -> (r: ApiRequest)
        ensures
            r@ == json_request(HttpMethod::Post, "/chaos/queue/execute"@, empty_object()),
    {
        ApiRequest::post_empty("/chaos/queue/execute".to_owned())
    }

    /// Experiment results, at most `limit` when given (in the path's
    /// query).
    pub fn experiment_results(&self, limit: Option<u32>) -> (r: ApiRequest)
        ensures
            r@ == get_request(
                match limit {
                    Some(l) => "/chaos/queue/results?limit="@ + decimal(l as nat),
                    None => "/chaos/queue/results"@,
                },
                seq![],
            ),
    {
        let path = match limit {
            Some(l) => concat2("/chaos/queue/results?limit=", decimal_string(l as u64).as_str()),
            None => "/chaos/queue/results".to_owned(),
        };
        ApiRequest::get_plain(path)
    }

    /// Start a disaster-recovery drill.
    pub fn start_dr_drill(&self, config: DrDrillConfig<'_>) -> (r: ApiRequest)
        ensures
            r@ == json_request(
                HttpMethod::Post,
                "/chaos/dr-drills/start"@,
                start_dr_drill_body(config),
            ),
    {
        let mut body = Members::new();
        body.put_str("drill_type", config.drill_type);
        body.put_str("target", config.target);
        body.put_uint("max_duration_secs", config.max_duration_secs as u64);
        assert(body@ =~= seq![
            text_member("drill_type"@, config.drill_type@),
            text_member("target"@, config.target@),
            ("max_duration_secs"@, uint_value(config.max_duration_secs as u64)),
        ]);
        ApiRequest::post("/chaos/dr-drills/start".to_owned(), body.into_json())
    }

    /// The running drills.
    pub fn list_active_drills(&self) -> (r: ApiRequest)
        ensures
            r@ == get_request("/chaos/dr-drills/active"@, seq![]),
    {
        ApiRequest::get_plain("/chaos/dr-drills/active".to_owned())
    }

    /// Stop a drill.
    pub fn stop_drill(&self, drill_id: &str) -> (r: ApiRequest)
        ensures
            r@ == json_request(HttpMethod::Post, "/chaos/dr-drills/stop"@, stop_drill_body(drill_id)),
    {
        let mut body = Members::new();
        body.put_str("drill_id", drill_id);
        assert(body@ =~= seq![text_member("drill_id"@, drill_id@)]);
        ApiRequest::post("/chaos/dr-drills/stop".to_owned(), body.into_json())
    }

    /// A drill's report (the identifier goes into the path's query as
    /// given).
    pub fn drill_report(&self, drill_id: &str) -> (r: ApiRequest)
        ensures
            r@ == get_request("/chaos/dr-drills/report?drill_id="@ + drill_id@, seq![]),
    {
        ApiRequest::get_plain(concat2("/chaos/dr-drills/report?drill_id=", drill_id))
    }

    /// Create a game day.
    pub fn create_gameday(&self, name: &str, scenarios: Json) -> (r: ApiRequest)
        ensures
            r@ == json_request(
                HttpMethod::Post,
                "/chaos/gamedays/create"@,
                create_gameday_body(name, scenarios),
            ),
    {
        let ghost s = scenarios@;
        let mut body = Members::new();
        body.put_str("name", name);
        body.put("scenarios", scenarios);
        assert(body@ =~= seq![text_member("name"@, name@), ("scenarios"@, s)]);
        ApiRequest::post("/chaos/gamedays/create".to_owned(), body.into_json())
    }

    /// The game days.
    pub fn list_gamedays(&self) -> (r: ApiRequest)
        ensures
            r@ == get_request("/chaos/gamedays"@, seq![]),
    {
        ApiRequest::get_plain("/chaos/gamedays".to_owned())
    }

    /// Run a game day.
    pub fn execute_gameday(&self, gameday_id: &str) -> (r: ApiRequest)
        ensures
            r@ == json_request(HttpMethod::Post, "/chaos/gamedays/execute"@, execute_gameday_body(gameday_id)),
    {
        let mut body = Members::new();
        body.put_str("gameday_id", gameday_id);
        assert(body@ =~= seq![text_member("gameday_id"@, gameday_id@)]);
        ApiRequest::post("/chaos/gamedays/execute".to_owned(), body.into_json())
    }

    /// A game day's report (the identifier goes into the path's query as
    /// given).
    pub fn gameday_report(&self, gameday_id: &str) -> (r: ApiRequest)
        ensures
            r@ == get_request("/chaos/gamedays/report?gameday_id="@ + gameday_id@, seq![]),
    {
        ApiRequest::get_plain(concat2("/chaos/gamedays/report?gameday_id=", gameday_id))
    }
}

} // verus!
