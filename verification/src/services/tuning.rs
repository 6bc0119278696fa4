//! Model tuning: tuning jobs, synthetic personas and audio noise
//! simulation.

use vstd::prelude::*;
use crate::http::{empty_object, get_request, json_request, opt_decimal32, opt_pair, path_raw, path_tail, ApiRequest, HttpMethod, Query};
use crate::json::{object_of, opt_str, text_member, uint_value, Json, JsonValue, Members};

verus! {

/// Plans the calls of model tuning.
pub struct TuningService;

/// The body that [`TuningService::simulate_noise`] sends.
pub open spec fn simulate_noise_body(audio_base64: &str, noise_type: &str, intensity: Json) -> JsonValue {
    object_of(seq![
        text_member("audio_base64"@, audio_base64@),
        text_member("noise_type"@, noise_type@),
        ("intensity"@, intensity@),
    ])
}

/// What `simulate_noise_body` builds reads back field by field: each value the
/// arguments give is found under its own name, an optional one only when
/// it is set, and a list as the same items in the same order.
pub proof fn lemma_simulate_noise_body_reads_back(audio_base64: &str, noise_type: &str, intensity: Json)
    ensures
        crate::json::json_str_member(simulate_noise_body(audio_base64, noise_type, intensity), "audio_base64"@) == Some(audio_base64@),
        crate::json::json_str_member(simulate_noise_body(audio_base64, noise_type, intensity), "noise_type"@) == Some(noise_type@),
        crate::json::json_get(simulate_noise_body(audio_base64, noise_type, intensity), "intensity"@) == Some(intensity@),
{
    assert(crate::json::json_str_member(simulate_noise_body(audio_base64, noise_type, intensity), "audio_base64"@) == Some(audio_base64@)) by {
        broadcast use crate::json::lemma_member_lookup_append, crate::json::lemma_member_lookup_opt;

        lemma_simulate_noise_body_keys();
        reveal_with_fuel(crate::json::member_lookup, 4);
    }
    assert(crate::json::json_str_member(simulate_noise_body(audio_base64, noise_type, intensity), "noise_type"@) == Some(noise_type@)) by {
        broadcast use crate::json::lemma_member_lookup_append, crate::json::lemma_member_lookup_opt;

        lemma_simulate_noise_body_keys();
        reveal_with_fuel(crate::json::member_lookup, 4);
    }
    assert(crate::json::json_get(simulate_noise_body(audio_base64, noise_type, intensity), "intensity"@) == Some(intensity@)) by {
        broadcast use crate::json::lemma_member_lookup_append, crate::json::lemma_member_lookup_opt;

        lemma_simulate_noise_body_keys();
        reveal_with_fuel(crate::json::member_lookup, 4);
    }
}

/// The field names that `simulate_noise_body` uses, told apart.
proof fn lemma_simulate_noise_body_keys()
    ensures
        "audio_base64"@.len() == 12,
        "intensity"@.len() == 9,
        "noise_type"@.len() == 10,
{
    reveal_strlit("audio_base64");
    reveal_strlit("intensity");
    reveal_strlit("noise_type");
}

/// The body that [`TuningService::generate_persona_batch`] sends.
pub open spec fn generate_persona_batch_body(count: u32, distribution: Json) -> JsonValue {
    object_of(seq![("count"@, uint_value(count as u64)), ("distribution"@, distribution@)])
}

/// What `generate_persona_batch_body` builds reads back field by field: each value the
/// arguments give is found under its own name, an optional one only when
/// it is set, and a list as the same items in the same order.
pub proof fn lemma_generate_persona_batch_body_reads_back(count: u32, distribution: Json)
    ensures
        crate::json::json_get(generate_persona_batch_body(count, distribution), "count"@) == Some(uint_value(count as u64)),
        crate::json::json_get(generate_persona_batch_body(count, distribution), "distribution"@) == Some(distribution@),
{
    assert(crate::json::json_get(generate_persona_batch_body(count, distribution), "count"@) == Some(uint_value(count as u64))) by {
        broadcast use crate::json::lemma_member_lookup_append, crate::json::lemma_member_lookup_opt;

        lemma_generate_persona_batch_body_keys();
        reveal_with_fuel(crate::json::member_lookup, 3);
    }
    assert(crate::json::json_get(generate_persona_batch_body(count, distribution), "distribution"@) == Some(distribution@)) by {
        broadcast use crate::json::lemma_member_lookup_append, crate::json::lemma_member_lookup_opt;

        lemma_generate_persona_batch_body_keys();
        reveal_with_fuel(crate::json::member_lookup, 3);
    }
}

/// The field names that `generate_persona_batch_body` uses, told apart.
proof fn lemma_generate_persona_batch_body_keys()
    ensures
        "count"@.len() == 5,
        "distribution"@.len() == 12,
{
    reveal_strlit("count");
    reveal_strlit("distribution");
}

/// The body that [`TuningService::create_tuning_job`] sends.
pub open spec fn create_tuning_job_body(job_type: &str, parameters: Json) -> JsonValue {
    object_of(seq![text_member("job_type"@, job_type@), ("parameters"@, parameters@)])
}

/// What `create_tuning_job_body` builds reads back field by field: each value the
/// arguments give is found under its own name, an optional one only when
/// it is set, and a list as the same items in the same order.
pub proof fn lemma_create_tuning_job_body_reads_back(job_type: &str, parameters: Json)
    ensures
        crate::json::json_str_member(create_tuning_job_body(job_type, parameters), "job_type"@) == Some(job_type@),
        crate::json::json_get(create_tuning_job_body(job_type, parameters), "parameters"@) == Some(parameters@),
{
    assert(crate::json::json_str_member(create_tuning_job_body(job_type, parameters), "job_type"@) == Some(job_type@)) by {
        broadcast use crate::json::lemma_member_lookup_append, crate::json::lemma_member_lookup_opt;

        lemma_create_tuning_job_body_keys();
        reveal_with_fuel(crate::json::member_lookup, 3);
    }
    assert(crate::json::json_get(create_tuning_job_body(job_type, parameters), "parameters"@) == Some(parameters@)) by {
        broadcast use crate::json::lemma_member_lookup_append, crate::json::lemma_member_lookup_opt;

        lemma_create_tuning_job_body_keys();
        reveal_with_fuel(crate::json::member_lookup, 3);
    }
}

/// The field names that `create_tuning_job_body` uses, told apart.
proof fn lemma_create_tuning_job_body_keys()
    ensures
        "job_type"@.len() == 8,
        "parameters"@.len() == 10,
{
    reveal_strlit("job_type");
    reveal_strlit("parameters");
}

impl TuningService {
    /// Start a tuning job.
    pub fn create_tuning_job(&self, job_type: &str, parameters: Json) -> (r: ApiRequest)
        ensures
            r@ == json_request(
                HttpMethod::Post,
                "/v1/tuning/jobs"@,
                create_tuning_job_body(job_type, parameters),
            ),
    {
        let ghost p = parameters@;
        let mut body = Members::new();
        body.put_str("job_type", job_type);
        body.put("parameters", parameters);
        assert(body@ =~= seq![text_member("job_type"@, job_type@), ("parameters"@, p)]);
        ApiRequest::post("/v1/tuning/jobs".to_owned(), body.into_json())
    }

    /// List tuning jobs, of one status and at most `limit` when given.
    pub fn list_tuning_jobs(&self, status: Option<&str>, limit: Option<u32>) -> (r: ApiRequest)
        ensures
            r@ == get_request(
                "/v1/tuning/jobs"@,
                opt_pair("status"@, opt_str(status)) + opt_pair("limit"@, opt_decimal32(limit)),
            ),
    {
        let mut q = Query::new();
        q.push_opt("status", status);
        q.push_opt_u32("limit", limit);
        assert(q@ =~= opt_pair("status"@, opt_str(status)) + opt_pair("limit"@, opt_decimal32(limit)));
        ApiRequest::get("/v1/tuning/jobs".to_owned(), q)
    }

    /// One tuning job. The identifier is placed in the path as given.
    pub fn get_tuning_job(&self, job_id: &str) -> (r: ApiRequest)
        ensures
            r@ == get_request("/v1/tuning/jobs/"@ + job_id@, seq![]),
    {
        ApiRequest::get_plain(path_tail("/v1/tuning/jobs/", job_id))
    }

    /// Cancel a tuning job.
    pub fn cancel_tuning_job(&self, job_id: &str) -> (r: ApiRequest)
        ensures
            r@ == json_request(HttpMethod::Post, "/v1/tuning/jobs/"@ + job_id@ + "/cancel"@, empty_object()),
    {
        ApiRequest::post_empty(path_raw("/v1/tuning/jobs/", job_id, "/cancel"))
    }

    /// A tuning job's results.
    pub fn get_tuning_results(&self, job_id: &str) -> (r: ApiRequest)
        ensures
            r@ == get_request("/v1/tuning/jobs/"@ + job_id@ + "/results"@, seq![]),
    {
        ApiRequest::get_plain(path_raw("/v1/tuning/jobs/", job_id, "/results"))
    }

    /// Generate a synthetic persona.
    pub fn generate_persona(&self, config: Json) -> (r: ApiRequest)
        ensures
            r@ == json_request(HttpMethod::Post, "/v1/personas/generate"@, config@),
    {
        ApiRequest::post("/v1/personas/generate".to_owned(), config)
    }

    /// Generate a batch of synthetic personas.
    pub fn generate_persona_batch(&self, count: u32, distribution: Json) -> (r: ApiRequest)
        ensures
            r@ == json_request(
                HttpMethod::Post,
                "/v1/personas/batch"@,
                generate_persona_batch_body(count, distribution),
            ),
    {
        let ghost d = distribution@;
        let mut body = Members::new();
        body.put_uint("count", count as u64);
        body.put("distribution", distribution);
        assert(body@ =~= seq![("count"@, uint_value(count as u64)), ("distribution"@, d)]);
        ApiRequest::post("/v1/personas/batch".to_owned(), body.into_json())
    }

    /// Overlay noise on audio. The intensity is carried as the JSON value
    /// it is sent as.
    pub fn simulate_noise(&self, audio_base64: &str, noise_type: &str, intensity: Json) -> (r: ApiRequest)
        ensures
            r@ == json_request(
                HttpMethod::Post,
                "/v1/chaos/audio/simulate"@,
                simulate_noise_body(audio_base64, noise_type, intensity),
            ),
    {
        let ghost i = intensity@;
        let mut body = Members::new();
        body.put_str("audio_base64", audio_base64);
        body.put_str("noise_type", noise_type);
        body.put("intensity", intensity);
        assert(body@ =~= seq![
            text_member("audio_base64"@, audio_base64@),
            text_member("noise_type"@, noise_type@),
            ("intensity"@, i),
        ]);
        ApiRequest::post("/v1/chaos/audio/simulate".to_owned(), body.into_json())
    }
}

} // verus!
