//! Payment routing: which processor serves a location, with fallbacks.

use vstd::prelude::*;
use crate::decode::{keys_view, read_record, record_of};
use crate::http::{bool_text, get_request, json_request, opt_bool_text, opt_decimal32, opt_pair, path_end, ApiRequest, HttpMethod, Query};
use crate::decode::{
    field_bool_or_true, field_opt_str, field_str_list_or_empty, field_str_or_empty, field_u32_or_zero,
    read_bool_or_true, read_opt_str, read_str, read_str_list_or_empty, read_str_or_empty, read_u32_or_zero,
};
use crate::json::{
    is_object, json_get, json_str_member, object_of, opt_string, opt_string_member, str_list_value, strings_view, text_member, Json, JsonValue,
    Members,
};
use crate::url::url_encoded;

verus! {

/// Plans the calls of payment routing.
pub struct PayService;

/// The routing of one location.
#[derive(Debug, Clone)]
pub struct RoutingConfig {
    pub tenant_id: String,
    pub location_id: String,
    pub preferred_processor: String,
    pub fallback_processors: Vec<String>,
    pub credentials_secret_ref: Option<String>,
    pub merchant_id: Option<String>,
    pub is_active: bool,
    pub notes: Option<String>,
    pub created_at: Option<String>,
    pub updated_at: Option<String>,
}

/// What a reply that omits `is_active` means: active.
pub fn default_true() -> (r: bool)
    ensures
        r,
{
    true
}

/// Parameters for [`PayService::configure_routing`].
#[derive(Debug, Clone)]
pub struct ConfigureRoutingParams {
    pub location_id: String,
    pub preferred_processor: String,
    pub fallback_processors: Vec<String>,
    pub credentials_secret_ref: Option<String>,
    pub merchant_id: Option<String>,
    pub is_active: bool,
    pub notes: Option<String>,
}

impl Default for ConfigureRoutingParams {
    /// Empty identifiers, no fallbacks, active.
    fn default() -> (r: Self)
        ensures
            r.location_id@ == Seq::<char>::empty(),
            r.preferred_processor@ == Seq::<char>::empty(),
            r.fallback_processors@.len() == 0,
            r.credentials_secret_ref is None,
            r.merchant_id is None,
            r.is_active,
            r.notes is None,
    {
        ConfigureRoutingParams {
            location_id: String::new(),
            preferred_processor: String::new(),
            fallback_processors: Vec::new(),
            credentials_secret_ref: None,
            merchant_id: None,
            is_active: true,
            notes: None,
        }
    }
}

/// Filters for [`PayService::list_routing`].
#[derive(Debug, Clone, Default)]
pub struct ListRoutingParams {
    pub is_active: Option<bool>,
    pub processor: Option<String>,
    pub limit: Option<u32>,
}

/// A page of routing configurations.
#[derive(Debug, Clone)]
pub struct RoutingConfigList {
    pub configs: Vec<RoutingConfig>,
    pub total_returned: u32,
}

/// The body of a routing configuration: every field, the optional ones
/// only when set.
pub open spec fn routing_body(p: ConfigureRoutingParams) -> JsonValue {
    object_of(
        seq![
            text_member("location_id"@, p.location_id@),
            text_member("preferred_processor"@, p.preferred_processor@),
            ("fallback_processors"@, str_list_value(strings_view(p.fallback_processors@))),
        ] + opt_string_member("credentials_secret_ref"@, p.credentials_secret_ref)
            + opt_string_member("merchant_id"@, p.merchant_id)
            + seq![("is_active"@, JsonValue::Bool(p.is_active))]
            + opt_string_member("notes"@, p.notes),
    )
}

/// What `routing_body` builds reads back field by field: each value the
/// arguments give is found under its own name, an optional one only when
/// it is set, and a list as the same items in the same order.
pub proof fn lemma_routing_body_reads_back(p: ConfigureRoutingParams)
    ensures
        crate::json::json_str_member(routing_body(p), "location_id"@) == Some(p.location_id@),
        crate::json::json_str_member(routing_body(p), "preferred_processor"@) == Some(p.preferred_processor@),
        crate::decode::field_opt_str(routing_body(p), "credentials_secret_ref"@) == Some(crate::json::opt_string(p.credentials_secret_ref)),
        crate::decode::field_opt_str(routing_body(p), "merchant_id"@) == Some(crate::json::opt_string(p.merchant_id)),
        crate::decode::field_opt_str(routing_body(p), "notes"@) == Some(crate::json::opt_string(p.notes)),
        crate::decode::field_str_list(routing_body(p), "fallback_processors"@) == Some(strings_view(p.fallback_processors@)),
        crate::json::json_get(routing_body(p), "is_active"@) == Some(JsonValue::Bool(p.is_active)),
{
    assert(crate::json::json_str_member(routing_body(p), "location_id"@) == Some(p.location_id@)) by {
        broadcast use crate::json::lemma_member_lookup_append, crate::json::lemma_member_lookup_opt;

        lemma_routing_body_keys();
        reveal_with_fuel(crate::json::member_lookup, 4);
    }
    assert(crate::json::json_str_member(routing_body(p), "preferred_processor"@) == Some(p.preferred_processor@)) by {
        broadcast use crate::json::lemma_member_lookup_append, crate::json::lemma_member_lookup_opt;

        lemma_routing_body_keys();
        reveal_with_fuel(crate::json::member_lookup, 4);
    }
    assert(crate::decode::field_opt_str(routing_body(p), "credentials_secret_ref"@) == Some(crate::json::opt_string(p.credentials_secret_ref))) by {
        broadcast use crate::json::lemma_member_lookup_append, crate::json::lemma_member_lookup_opt;

        lemma_routing_body_keys();
        reveal_with_fuel(crate::json::member_lookup, 4);
    }
    assert(crate::decode::field_opt_str(routing_body(p), "merchant_id"@) == Some(crate::json::opt_string(p.merchant_id))) by {
        broadcast use crate::json::lemma_member_lookup_append, crate::json::lemma_member_lookup_opt;

        lemma_routing_body_keys();
        reveal_with_fuel(crate::json::member_lookup, 4);
    }
    assert(crate::decode::field_opt_str(routing_body(p), "notes"@) == Some(crate::json::opt_string(p.notes))) by {
        broadcast use crate::json::lemma_member_lookup_append, crate::json::lemma_member_lookup_opt;

        lemma_routing_body_keys();
        reveal_with_fuel(crate::json::member_lookup, 4);
    }
    assert(crate::decode::field_str_list(routing_body(p), "fallback_processors"@) == Some(strings_view(p.fallback_processors@))) by {
        broadcast use crate::json::lemma_member_lookup_append, crate::json::lemma_member_lookup_opt;

        lemma_routing_body_keys();
        reveal_with_fuel(crate::json::member_lookup, 4);
        crate::decode::lemma_str_list_reads_back(strings_view(p.fallback_processors@));
    }
    assert(crate::json::json_get(routing_body(p), "is_active"@) == Some(JsonValue::Bool(p.is_active))) by {
        broadcast use crate::json::lemma_member_lookup_append, crate::json::lemma_member_lookup_opt;

        lemma_routing_body_keys();
        reveal_with_fuel(crate::json::member_lookup, 4);
    }
}

/// The field names that `routing_body` uses, told apart.
proof fn lemma_routing_body_keys()
    ensures
        "credentials_secret_ref"@.len() == 22,
        "fallback_processors"@.len() == 19,
        "fallback_processors"@[0] == 'f',
        "is_active"@.len() == 9,
        "location_id"@.len() == 11,
        "location_id"@[0] == 'l',
        "merchant_id"@.len() == 11,
        "merchant_id"@[0] == 'm',
        "notes"@.len() == 5,
        "preferred_processor"@.len() == 19,
        "preferred_processor"@[0] == 'p',
{
    reveal_strlit("credentials_secret_ref");
    reveal_strlit("fallback_processors");
    reveal_strlit("is_active");
    reveal_strlit("location_id");
    reveal_strlit("merchant_id");
    reveal_strlit("notes");
    reveal_strlit("preferred_processor");
}

pub open spec fn routing_query(p: ListRoutingParams) -> Seq<(Seq<char>, Seq<char>)> {
    opt_pair("is_active"@, opt_bool_text(p.is_active))
        + opt_pair("processor"@, opt_string(p.processor))
        + opt_pair("limit"@, opt_decimal32(p.limit))
}

/// What `routing_query` builds reads back pair by pair: each value the arguments
/// give is found under its own name, an optional one only when it is set.
pub proof fn lemma_routing_query_reads_back(p: ListRoutingParams)
    ensures
        crate::http::pair_value(routing_query(p), "is_active"@) == opt_bool_text(p.is_active),
        crate::http::pair_value(routing_query(p), "processor"@) == opt_string(p.processor),
        crate::http::pair_value(routing_query(p), "limit"@) == opt_decimal32(p.limit),
{
    assert(crate::http::pair_value(routing_query(p), "is_active"@) == opt_bool_text(p.is_active)) by {
        broadcast use crate::http::lemma_pair_value_append, crate::http::lemma_pair_value_opt;

        lemma_routing_query_keys();
        reveal_with_fuel(crate::http::pair_value, 2);
    }
    assert(crate::http::pair_value(routing_query(p), "processor"@) == opt_string(p.processor)) by {
        broadcast use crate::http::lemma_pair_value_append, crate::http::lemma_pair_value_opt;

        lemma_routing_query_keys();
        reveal_with_fuel(crate::http::pair_value, 2);
    }
    assert(crate::http::pair_value(routing_query(p), "limit"@) == opt_decimal32(p.limit)) by {
        broadcast use crate::http::lemma_pair_value_append, crate::http::lemma_pair_value_opt;

        lemma_routing_query_keys();
        reveal_with_fuel(crate::http::pair_value, 2);
    }
}

/// The names that `routing_query` uses, told apart.
proof fn lemma_routing_query_keys()
    ensures
        "is_active"@.len() == 9,
        "is_active"@[0] == 'i',
        "limit"@.len() == 5,
        "processor"@.len() == 9,
        "processor"@[0] == 'p',
{
    reveal_strlit("is_active");
    reveal_strlit("limit");
    reveal_strlit("processor");
}

// ---------------------------------------------------------------------------
// Reading responses
// ---------------------------------------------------------------------------

/// Whether `x` is what the object `v` reads as: the location and
/// processor required, the tenant empty, the fallbacks none and the
/// routing active when absent, the rest optional.
pub open spec fn is_routing_config_fields_of(v: JsonValue, x: RoutingConfig) -> bool {
    &&& is_object(v)
    &&& field_str_or_empty(v, "tenant_id"@) == Some(x.tenant_id@)
    &&& json_str_member(v, "location_id"@) == Some(x.location_id@)
    &&& json_str_member(v, "preferred_processor"@) == Some(x.preferred_processor@)
    &&& field_str_list_or_empty(v, "fallback_processors"@) == Some(strings_view(x.fallback_processors@))
    &&& field_opt_str(v, "credentials_secret_ref"@) == Some(opt_string(x.credentials_secret_ref))
    &&& field_opt_str(v, "merchant_id"@) == Some(opt_string(x.merchant_id))
    &&& field_bool_or_true(v, "is_active"@) == Some(x.is_active)
    &&& field_opt_str(v, "notes"@) == Some(opt_string(x.notes))
    &&& field_opt_str(v, "created_at"@) == Some(opt_string(x.created_at))
    &&& field_opt_str(v, "updated_at"@) == Some(opt_string(x.updated_at))
}

/// Whether the object `v` reads as a routing configuration.
pub open spec fn reads_as_routing_config_fields(v: JsonValue) -> bool {
    &&& is_object(v)
    &&& field_str_or_empty(v, "tenant_id"@) is Some
    &&& json_str_member(v, "location_id"@) is Some
    &&& json_str_member(v, "preferred_processor"@) is Some
    &&& field_str_list_or_empty(v, "fallback_processors"@) is Some
    &&& field_opt_str(v, "credentials_secret_ref"@) is Some
    &&& field_opt_str(v, "merchant_id"@) is Some
    &&& field_bool_or_true(v, "is_active"@) is Some
    &&& field_opt_str(v, "notes"@) is Some
    &&& field_opt_str(v, "created_at"@) is Some
    &&& field_opt_str(v, "updated_at"@) is Some
}

/// The field names of a `RoutingConfig`, in declaration order.
pub open spec fn routing_config_keys() -> Seq<Seq<char>> {
    seq!["tenant_id"@, "location_id"@, "preferred_processor"@, "fallback_processors"@, "credentials_secret_ref"@, "merchant_id"@, "is_active"@, "notes"@, "created_at"@, "updated_at"@]
}

/// Which fields of a `RoutingConfig` may be left out.
pub open spec fn routing_config_defaults() -> Seq<bool> {
    seq![true, false, false, true, true, true, true, true, true, true]
}

/// Whether `x` is what the record document `v` (an object, or an array of
/// the fields in order) reads as.
pub open spec fn is_routing_config_of(v: JsonValue, x: RoutingConfig) -> bool {
    record_of(v, routing_config_keys(), routing_config_defaults()) matches Some(o) && is_routing_config_fields_of(o, x)
}

/// Whether the record document `v` reads as a `RoutingConfig`.
pub open spec fn reads_as_routing_config(v: JsonValue) -> bool {
    record_of(v, routing_config_keys(), routing_config_defaults()) matches Some(o) && reads_as_routing_config_fields(o)
}

/// The object that writes each field of a `RoutingConfig` under its own name.
pub open spec fn routing_config_object(x: RoutingConfig) -> JsonValue {
    JsonValue::Object(seq![
        ("tenant_id"@, JsonValue::Str(x.tenant_id@)),
        ("location_id"@, JsonValue::Str(x.location_id@)),
        ("preferred_processor"@, JsonValue::Str(x.preferred_processor@)),
        ("fallback_processors"@, crate::json::str_list_value(crate::json::strings_view(x.fallback_processors@))),
        ("credentials_secret_ref"@, crate::json::str_or_null(crate::json::opt_string(x.credentials_secret_ref))),
        ("merchant_id"@, crate::json::str_or_null(crate::json::opt_string(x.merchant_id))),
        ("is_active"@, JsonValue::Bool(x.is_active)),
        ("notes"@, crate::json::str_or_null(crate::json::opt_string(x.notes))),
        ("created_at"@, crate::json::str_or_null(crate::json::opt_string(x.created_at))),
        ("updated_at"@, crate::json::str_or_null(crate::json::opt_string(x.updated_at))),
    ])
}

/// A `RoutingConfig` whose fields are written under their own names reads back as
/// the same `RoutingConfig`.
pub proof fn lemma_routing_config_reads_back(x: RoutingConfig)
    ensures
        is_routing_config_of(routing_config_object(x), x),
{
    let v = routing_config_object(x);
    assert(field_str_or_empty(v, "tenant_id"@) == Some(x.tenant_id@)) by {
        lemma_routing_config_names();
        reveal_with_fuel(crate::json::member_lookup, 11);
    }
    assert(json_str_member(v, "location_id"@) == Some(x.location_id@)) by {
        lemma_routing_config_names();
        reveal_with_fuel(crate::json::member_lookup, 11);
    }
    assert(json_str_member(v, "preferred_processor"@) == Some(x.preferred_processor@)) by {
        lemma_routing_config_names();
        reveal_with_fuel(crate::json::member_lookup, 11);
    }
    assert(field_str_list_or_empty(v, "fallback_processors"@) == Some(strings_view(x.fallback_processors@))) by {
        lemma_routing_config_names();
        reveal_with_fuel(crate::json::member_lookup, 11);
        crate::decode::lemma_str_list_reads_back(crate::json::strings_view(x.fallback_processors@));
    }
    assert(field_opt_str(v, "credentials_secret_ref"@) == Some(opt_string(x.credentials_secret_ref))) by {
        lemma_routing_config_names();
        reveal_with_fuel(crate::json::member_lookup, 11);
    }
    assert(field_opt_str(v, "merchant_id"@) == Some(opt_string(x.merchant_id))) by {
        lemma_routing_config_names();
        reveal_with_fuel(crate::json::member_lookup, 11);
    }
    assert(field_bool_or_true(v, "is_active"@) == Some(x.is_active)) by {
        lemma_routing_config_names();
        reveal_with_fuel(crate::json::member_lookup, 11);
    }
    assert(field_opt_str(v, "notes"@) == Some(opt_string(x.notes))) by {
        lemma_routing_config_names();
        reveal_with_fuel(crate::json::member_lookup, 11);
    }
    assert(field_opt_str(v, "created_at"@) == Some(opt_string(x.created_at))) by {
        lemma_routing_config_names();
        reveal_with_fuel(crate::json::member_lookup, 11);
    }
    assert(field_opt_str(v, "updated_at"@) == Some(opt_string(x.updated_at))) by {
        lemma_routing_config_names();
        reveal_with_fuel(crate::json::member_lookup, 11);
    }
    assert(is_routing_config_fields_of(v, x));
}

/// The field names of a `RoutingConfig`, told apart.
proof fn lemma_routing_config_names()
    ensures
        "created_at"@.len() == 10,
        "created_at"@[0] == 'c',
        "credentials_secret_ref"@.len() == 22,
        "fallback_processors"@.len() == 19,
        "fallback_processors"@[0] == 'f',
        "is_active"@.len() == 9,
        "is_active"@[0] == 'i',
        "location_id"@.len() == 11,
        "location_id"@[0] == 'l',
        "merchant_id"@.len() == 11,
        "merchant_id"@[0] == 'm',
        "notes"@.len() == 5,
        "preferred_processor"@.len() == 19,
        "preferred_processor"@[0] == 'p',
        "tenant_id"@.len() == 9,
        "tenant_id"@[0] == 't',
        "updated_at"@.len() == 10,
        "updated_at"@[0] == 'u',
{
    reveal_strlit("created_at");
    reveal_strlit("credentials_secret_ref");
    reveal_strlit("fallback_processors");
    reveal_strlit("is_active");
    reveal_strlit("location_id");
    reveal_strlit("merchant_id");
    reveal_strlit("notes");
    reveal_strlit("preferred_processor");
    reveal_strlit("tenant_id");
    reveal_strlit("updated_at");
}

/// Whether `l` is what the list document `x` reads as, item by item.
pub open spec fn is_routing_config_items_of(x: JsonValue, l: Seq<RoutingConfig>) -> bool {
    &&& x is Array
    &&& l.len() == x->Array_0.len()
    &&& forall|i: int| 0 <= i < l.len() ==> is_routing_config_of(x->Array_0[i], #[trigger] l[i])
}

/// Whether `x` is a list whose every item reads as one.
pub open spec fn reads_as_routing_config_items(x: JsonValue) -> bool {
    &&& x is Array
    &&& forall|i: int| 0 <= i < x->Array_0.len() ==> reads_as_routing_config(#[trigger] x->Array_0[i])
}

impl RoutingConfig {
    /// Reads a `RoutingConfig` out of a document: an object, or an array of the
    /// fields in declaration order.
    pub fn from_json(v: &Json) -> (r: Option<RoutingConfig>)
        ensures
            r is Some <==> reads_as_routing_config(v@),
            r matches Some(x) ==> is_routing_config_of(v@, x),
    {
        let mut keys: Vec<&str> = Vec::new();
        let mut defaults: Vec<bool> = Vec::new();
        keys.push("tenant_id");
        defaults.push(true);
        keys.push("location_id");
        defaults.push(false);
        keys.push("preferred_processor");
        defaults.push(false);
        keys.push("fallback_processors");
        defaults.push(true);
        keys.push("credentials_secret_ref");
        defaults.push(true);
        keys.push("merchant_id");
        defaults.push(true);
        keys.push("is_active");
        defaults.push(true);
        keys.push("notes");
        defaults.push(true);
        keys.push("created_at");
        defaults.push(true);
        keys.push("updated_at");
        defaults.push(true);
        proof {
            assert(keys_view(keys@) =~= routing_config_keys());
            assert(defaults@ =~= routing_config_defaults());
        }
        match read_record(v, &keys, &defaults) {
            Some(doc) => Self::from_fields(&doc),
            None => None,
        }
    }

    /// Reads the record out of the object it stands for.
    fn from_fields(v: &Json) -> (r: Option<RoutingConfig>)
        ensures
            r is Some <==> reads_as_routing_config_fields(v@),
            r matches Some(x) ==> is_routing_config_fields_of(v@, x),
    {
        if !v.is_object() {
            return None;
        }
        let tenant_id = match read_str_or_empty(v, "tenant_id") {
            Some(y) => y,
            None => return None,
        };
        let location_id = match read_str(v, "location_id") {
            Some(y) => y,
            None => return None,
        };
        let preferred_processor = match read_str(v, "preferred_processor") {
            Some(y) => y,
            None => return None,
        };
        let fallback_processors = match read_str_list_or_empty(v, "fallback_processors") {
            Some(y) => y,
            None => return None,
        };
        let credentials_secret_ref = match read_opt_str(v, "credentials_secret_ref") {
            Some(y) => y,
            None => return None,
        };
        let merchant_id = match read_opt_str(v, "merchant_id") {
            Some(y) => y,
            None => return None,
        };
        let is_active = match read_bool_or_true(v, "is_active") {
            Some(y) => y,
            None => return None,
        };
        let notes = match read_opt_str(v, "notes") {
            Some(y) => y,
            None => return None,
        };
        let created_at = match read_opt_str(v, "created_at") {
            Some(y) => y,
            None => return None,
        };
        let updated_at = match read_opt_str(v, "updated_at") {
            Some(y) => y,
            None => return None,
        };
        Some(RoutingConfig { tenant_id, location_id, preferred_processor, fallback_processors, credentials_secret_ref, merchant_id, is_active, notes, created_at, updated_at })
    }

    /// Reads a list of routing configurations: an array whose every item
    /// reads as one.
    pub fn list_from_json(v: &Json) -> (r: Option<Vec<RoutingConfig>>)
        ensures
            r is Some <==> reads_as_routing_config_items(v@),
            r matches Some(l) ==> is_routing_config_items_of(v@, l@),
    {
        match v {
            Json::Array(items) => {
                let ghost whole = v@;
                let mut out: Vec<RoutingConfig> = Vec::new();
                let mut i: usize = 0;
                while i < items.len()
                    invariant
                        i <= items.len(),
                        whole == v@,
                        whole == crate::json::json_view(Json::Array(*items)),
                        out@.len() == i,
                        forall|k: int| 0 <= k < i ==> is_routing_config_of(whole->Array_0[k], #[trigger] out@[k]),
                    decreases items.len() - i,
                {
                    assert(whole->Array_0[i as int] == items@[i as int]@);
                    match RoutingConfig::from_json(&items[i]) {
                        Some(a) => out.push(a),
                        None => return None,
                    }
                    i = i + 1;
                }
                assert forall|k: int| 0 <= k < whole->Array_0.len() implies reads_as_routing_config(
                    #[trigger] whole->Array_0[k],
                ) by {
                    assert(is_routing_config_of(whole->Array_0[k], out@[k]));
                }
                Some(out)
            },
            _ => None,
        }
    }
}
/// Whether `x` is what the object `v` reads as: no configurations and
/// a zero count when absent.
pub open spec fn is_routing_config_list_fields_of(v: JsonValue, x: RoutingConfigList) -> bool {
    &&& is_object(v)
    &&& match json_get(v, "configs"@) {
        Some(y) => is_routing_config_items_of(y, x.configs@),
        None => x.configs@.len() == 0,
    }
    &&& field_u32_or_zero(v, "total_returned"@) == Some(x.total_returned)
}

/// Whether the object `v` reads as a page of routing configurations.
pub open spec fn reads_as_routing_config_list_fields(v: JsonValue) -> bool {
    &&& is_object(v)
    &&& match json_get(v, "configs"@) {
        Some(y) => reads_as_routing_config_items(y),
        None => true,
    }
    &&& field_u32_or_zero(v, "total_returned"@) is Some
}

/// The field names of a `RoutingConfigList`, in declaration order.
pub open spec fn routing_config_list_keys() -> Seq<Seq<char>> {
    seq!["configs"@, "total_returned"@]
}

/// Which fields of a `RoutingConfigList` may be left out.
pub open spec fn routing_config_list_defaults() -> Seq<bool> {
    seq![true, true]
}

/// Whether `x` is what the record document `v` (an object, or an array of
/// the fields in order) reads as.
pub open spec fn is_routing_config_list_of(v: JsonValue, x: RoutingConfigList) -> bool {
    record_of(v, routing_config_list_keys(), routing_config_list_defaults()) matches Some(o) && is_routing_config_list_fields_of(o, x)
}

/// Whether the record document `v` reads as a `RoutingConfigList`.
pub open spec fn reads_as_routing_config_list(v: JsonValue) -> bool {
    record_of(v, routing_config_list_keys(), routing_config_list_defaults()) matches Some(o) && reads_as_routing_config_list_fields(o)
}

impl RoutingConfigList {
    /// Reads a `RoutingConfigList` out of a document: an object, or an array of the
    /// fields in declaration order.
    pub fn from_json(v: &Json) -> (r: Option<RoutingConfigList>)
        ensures
            r is Some <==> reads_as_routing_config_list(v@),
            r matches Some(x) ==> is_routing_config_list_of(v@, x),
    {
        let mut keys: Vec<&str> = Vec::new();
        let mut defaults: Vec<bool> = Vec::new();
        keys.push("configs");
        defaults.push(true);
        keys.push("total_returned");
        defaults.push(true);
        proof {
            assert(keys_view(keys@) =~= routing_config_list_keys());
            assert(defaults@ =~= routing_config_list_defaults());
        }
        match read_record(v, &keys, &defaults) {
            Some(doc) => Self::from_fields(&doc),
            None => None,
        }
    }

    /// Reads the record out of the object it stands for.
    fn from_fields(v: &Json) -> (r: Option<RoutingConfigList>)
        ensures
            r is Some <==> reads_as_routing_config_list_fields(v@),
            r matches Some(x) ==> is_routing_config_list_fields_of(v@, x),
    {
        if !v.is_object() {
            return None;
        }
        let configs = match v.get("configs") {
            Some(y) => match RoutingConfig::list_from_json(y) {
                Some(l) => l,
                None => return None,
            },
            None => Vec::new(),
        };
        let total_returned = match read_u32_or_zero(v, "total_returned") {
            Some(y) => y,
            None => return None,
        };
        Some(RoutingConfigList { configs, total_returned })
    }
}
impl PayService {
    /// Create or replace the routing of a location.
    pub fn configure_routing(&self, params: ConfigureRoutingParams) -> (r: ApiRequest)
        ensures
            r@ == json_request(HttpMethod::Post, "/platform/pay/routing"@, routing_body(params)),
    {
        let ghost p = params;
        let mut body = Members::new();
        body.put("location_id", Json::Str(params.location_id));
        body.put("preferred_processor", Json::Str(params.preferred_processor));
        body.put("fallback_processors", Json::string_list(&params.fallback_processors));
        body.put_opt_string("credentials_secret_ref", params.credentials_secret_ref);
        body.put_opt_string("merchant_id", params.merchant_id);
        body.put_bool("is_active", params.is_active);
        body.put_opt_string("notes", params.notes);
        assert(body@ =~= routing_body(p)->Object_0);
        ApiRequest::post("/platform/pay/routing".to_owned(), body.into_json())
    }

    /// The routing of one location.
    pub fn get_routing(&self, location_id: &str) -> (r: ApiRequest)
        ensures
            r@ == get_request("/platform/pay/routing/"@ + url_encoded(location_id@), seq![]),
    {
        ApiRequest::get_plain(path_end("/platform/pay/routing/", location_id))
    }

    /// List routing configurations with the given filters.
    pub fn list_routing(&self, params: &ListRoutingParams) -> (r: ApiRequest)
        ensures
            r@ == get_request("/platform/pay/routing"@, routing_query(*params)),
    {
        let mut q = Query::new();
        q.push_opt_bool("is_active", params.is_active);
        q.push_opt_string("processor", &params.processor);
        q.push_opt_u32("limit", params.limit);
        assert(q@ =~= routing_query(*params));
        ApiRequest::get("/platform/pay/routing".to_owned(), q)
    }
}

} // verus!
