//! Dram-shop compliance ledger: recording liability events and reading
//! the events and the currently effective rules.

use vstd::prelude::*;
use crate::decode::{keys_view, read_record, record_of};
use crate::http::{get_request, json_request, opt_decimal32, opt_pair, ApiRequest, HttpMethod, Query};
use crate::decode::{
    field_opt_doc, field_opt_number, field_opt_str, field_u64_or_zero, opt_number_view, read_opt_doc_owned,
    read_opt_number, read_opt_str, read_str, read_u64_or_zero,
};
use crate::json::{
    is_object, json_get, json_str_member, opt_json_view, JsonNumber, array_rows, jsons_view, object_of, opt_json_member, opt_string, opt_string_member, text_member,
    Json, JsonValue, Members,
};

verus! {

/// Plans the calls of the dram-shop compliance ledger.
pub struct ComplianceService;

/// Parameters for [`ComplianceService::record_dram_shop_event`].
/// `location_id` and `event_type` are required. The estimated BAC is
/// carried as the JSON value it is sent as: a number, or `null` where the
/// caller's float has no JSON form.
#[derive(Debug, Default)]
pub struct RecordDramShopEventParams {
    pub location_id: String,
    pub event_type: String,
    pub customer_ref: Option<String>,
    pub staff_user_id: Option<String>,
    pub estimated_bac: Option<Json>,
    pub bac_inputs: Option<Json>,
    pub vertical_extensions: Option<Json>,
    pub notes: Option<String>,
    /// RFC3339 timestamp string (e.g. `2026-04-25T13:00:00Z`).
    pub occurred_at: Option<String>,
}

/// Parameters for [`ComplianceService::list_dram_shop_events`]. `from` and
/// `to` are RFC3339 timestamps; the server clamps `limit` to `1..=500`.
#[derive(Debug, Clone, Default)]
pub struct ListDramShopEventsParams {
    pub location_id: Option<String>,
    pub from: Option<String>,
    pub to: Option<String>,
    pub event_type: Option<String>,
    pub limit: Option<u32>,
}

/// Parameters for [`ComplianceService::list_dram_shop_rules`]. With an
/// `app_id` the reply holds the app's overrides as well as the platform
/// defaults.
#[derive(Debug, Clone, Default)]
pub struct ListDramShopRulesParams {
    pub jurisdiction_code: Option<String>,
    pub app_id: Option<String>,
    pub rule_type: Option<String>,
}

/// The body of a recorded event: the required fields, then each optional
/// field that is set.
pub open spec fn dram_shop_event_body(p: RecordDramShopEventParams) -> JsonValue {
    object_of(
        seq![text_member("location_id"@, p.location_id@), text_member("event_type"@, p.event_type@)]
            + opt_string_member("customer_ref"@, p.customer_ref)
            + opt_string_member("staff_user_id"@, p.staff_user_id)
            + opt_json_member("estimated_bac"@, p.estimated_bac)
            + opt_json_member("bac_inputs"@, p.bac_inputs)
            + opt_json_member("vertical_extensions"@, p.vertical_extensions)
            + opt_string_member("notes"@, p.notes)
            + opt_string_member("occurred_at"@, p.occurred_at),
    )
}

/// What `dram_shop_event_body` builds reads back field by field: each value the
/// arguments give is found under its own name, an optional one only when
/// it is set, and a list as the same items in the same order.
#[verifier::rlimit(60)]
pub proof fn lemma_dram_shop_event_body_reads_back(p: RecordDramShopEventParams)
    ensures
        crate::json::json_str_member(dram_shop_event_body(p), "location_id"@) == Some(p.location_id@),
        crate::json::json_str_member(dram_shop_event_body(p), "event_type"@) == Some(p.event_type@),
        crate::decode::field_opt_str(dram_shop_event_body(p), "customer_ref"@) == Some(crate::json::opt_string(p.customer_ref)),
        crate::decode::field_opt_str(dram_shop_event_body(p), "staff_user_id"@) == Some(crate::json::opt_string(p.staff_user_id)),
        crate::json::json_get(dram_shop_event_body(p), "estimated_bac"@) == crate::json::opt_json_view(p.estimated_bac),
        crate::json::json_get(dram_shop_event_body(p), "bac_inputs"@) == crate::json::opt_json_view(p.bac_inputs),
        crate::json::json_get(dram_shop_event_body(p), "vertical_extensions"@) == crate::json::opt_json_view(p.vertical_extensions),
        crate::decode::field_opt_str(dram_shop_event_body(p), "notes"@) == Some(crate::json::opt_string(p.notes)),
        crate::decode::field_opt_str(dram_shop_event_body(p), "occurred_at"@) == Some(crate::json::opt_string(p.occurred_at)),
{
    assert(crate::json::json_str_member(dram_shop_event_body(p), "location_id"@) == Some(p.location_id@)) by {
        broadcast use crate::json::lemma_member_lookup_append, crate::json::lemma_member_lookup_opt;

        lemma_dram_shop_event_body_keys();
        reveal_with_fuel(crate::json::member_lookup, 3);
    }
    assert(crate::json::json_str_member(dram_shop_event_body(p), "event_type"@) == Some(p.event_type@)) by {
        broadcast use crate::json::lemma_member_lookup_append, crate::json::lemma_member_lookup_opt;

        lemma_dram_shop_event_body_keys();
        reveal_with_fuel(crate::json::member_lookup, 3);
    }
    assert(crate::decode::field_opt_str(dram_shop_event_body(p), "customer_ref"@) == Some(crate::json::opt_string(p.customer_ref))) by {
        broadcast use crate::json::lemma_member_lookup_append, crate::json::lemma_member_lookup_opt;

        lemma_dram_shop_event_body_keys();
        reveal_with_fuel(crate::json::member_lookup, 3);
    }
    assert(crate::decode::field_opt_str(dram_shop_event_body(p), "staff_user_id"@) == Some(crate::json::opt_string(p.staff_user_id))) by {
        broadcast use crate::json::lemma_member_lookup_append, crate::json::lemma_member_lookup_opt;

        lemma_dram_shop_event_body_keys();
        reveal_with_fuel(crate::json::member_lookup, 3);
    }
    assert(crate::json::json_get(dram_shop_event_body(p), "estimated_bac"@) == crate::json::opt_json_view(p.estimated_bac)) by {
        broadcast use crate::json::lemma_member_lookup_append, crate::json::lemma_member_lookup_opt;

        lemma_dram_shop_event_body_keys();
        reveal_with_fuel(crate::json::member_lookup, 3);
    }
    assert(crate::json::json_get(dram_shop_event_body(p), "bac_inputs"@) == crate::json::opt_json_view(p.bac_inputs)) by {
        broadcast use crate::json::lemma_member_lookup_append, crate::json::lemma_member_lookup_opt;

        lemma_dram_shop_event_body_keys();
        reveal_with_fuel(crate::json::member_lookup, 3);
    }
    assert(crate::json::json_get(dram_shop_event_body(p), "vertical_extensions"@) == crate::json::opt_json_view(p.vertical_extensions)) by {
        broadcast use crate::json::lemma_member_lookup_append, crate::json::lemma_member_lookup_opt;

        lemma_dram_shop_event_body_keys();
        reveal_with_fuel(crate::json::member_lookup, 3);
    }
    assert(crate::decode::field_opt_str(dram_shop_event_body(p), "notes"@) == Some(crate::json::opt_string(p.notes))) by {
        broadcast use crate::json::lemma_member_lookup_append, crate::json::lemma_member_lookup_opt;

        lemma_dram_shop_event_body_keys();
        reveal_with_fuel(crate::json::member_lookup, 3);
    }
    assert(crate::decode::field_opt_str(dram_shop_event_body(p), "occurred_at"@) == Some(crate::json::opt_string(p.occurred_at))) by {
        broadcast use crate::json::lemma_member_lookup_append, crate::json::lemma_member_lookup_opt;

        lemma_dram_shop_event_body_keys();
        reveal_with_fuel(crate::json::member_lookup, 3);
    }
}

/// The field names that `dram_shop_event_body` uses, told apart.
proof fn lemma_dram_shop_event_body_keys()
    ensures
        "bac_inputs"@.len() == 10,
        "bac_inputs"@[0] == 'b',
        "customer_ref"@.len() == 12,
        "estimated_bac"@.len() == 13,
        "estimated_bac"@[0] == 'e',
        "event_type"@.len() == 10,
        "event_type"@[0] == 'e',
        "location_id"@.len() == 11,
        "location_id"@[0] == 'l',
        "notes"@.len() == 5,
        "occurred_at"@.len() == 11,
        "occurred_at"@[0] == 'o',
        "staff_user_id"@.len() == 13,
        "staff_user_id"@[0] == 's',
        "vertical_extensions"@.len() == 19,
{
    reveal_strlit("bac_inputs");
    reveal_strlit("customer_ref");
    reveal_strlit("estimated_bac");
    reveal_strlit("event_type");
    reveal_strlit("location_id");
    reveal_strlit("notes");
    reveal_strlit("occurred_at");
    reveal_strlit("staff_user_id");
    reveal_strlit("vertical_extensions");
}

pub open spec fn dram_shop_events_query(p: ListDramShopEventsParams) -> Seq<(Seq<char>, Seq<char>)> {
    opt_pair("location_id"@, opt_string(p.location_id))
        + opt_pair("from"@, opt_string(p.from))
        + opt_pair("to"@, opt_string(p.to))
        + opt_pair("event_type"@, opt_string(p.event_type))
        + opt_pair("limit"@, opt_decimal32(p.limit))
}

/// What `dram_shop_events_query` builds reads back pair by pair: each value the arguments
/// give is found under its own name, an optional one only when it is set.
pub proof fn lemma_dram_shop_events_query_reads_back(p: ListDramShopEventsParams)
    ensures
        crate::http::pair_value(dram_shop_events_query(p), "location_id"@) == opt_string(p.location_id),
        crate::http::pair_value(dram_shop_events_query(p), "from"@) == opt_string(p.from),
        crate::http::pair_value(dram_shop_events_query(p), "to"@) == opt_string(p.to),
        crate::http::pair_value(dram_shop_events_query(p), "event_type"@) == opt_string(p.event_type),
        crate::http::pair_value(dram_shop_events_query(p), "limit"@) == opt_decimal32(p.limit),
{
    assert(crate::http::pair_value(dram_shop_events_query(p), "location_id"@) == opt_string(p.location_id)) by {
        broadcast use crate::http::lemma_pair_value_append, crate::http::lemma_pair_value_opt;

        lemma_dram_shop_events_query_keys();
        reveal_with_fuel(crate::http::pair_value, 2);
    }
    assert(crate::http::pair_value(dram_shop_events_query(p), "from"@) == opt_string(p.from)) by {
        broadcast use crate::http::lemma_pair_value_append, crate::http::lemma_pair_value_opt;

        lemma_dram_shop_events_query_keys();
        reveal_with_fuel(crate::http::pair_value, 2);
    }
    assert(crate::http::pair_value(dram_shop_events_query(p), "to"@) == opt_string(p.to)) by {
        broadcast use crate::http::lemma_pair_value_append, crate::http::lemma_pair_value_opt;

        lemma_dram_shop_events_query_keys();
        reveal_with_fuel(crate::http::pair_value, 2);
    }
    assert(crate::http::pair_value(dram_shop_events_query(p), "event_type"@) == opt_string(p.event_type)) by {
        broadcast use crate::http::lemma_pair_value_append, crate::http::lemma_pair_value_opt;

        lemma_dram_shop_events_query_keys();
        reveal_with_fuel(crate::http::pair_value, 2);
    }
    assert(crate::http::pair_value(dram_shop_events_query(p), "limit"@) == opt_decimal32(p.limit)) by {
        broadcast use crate::http::lemma_pair_value_append, crate::http::lemma_pair_value_opt;

        lemma_dram_shop_events_query_keys();
        reveal_with_fuel(crate::http::pair_value, 2);
    }
}

/// The names that `dram_shop_events_query` uses, told apart.
proof fn lemma_dram_shop_events_query_keys()
    ensures
        "event_type"@.len() == 10,
        "from"@.len() == 4,
        "limit"@.len() == 5,
        "location_id"@.len() == 11,
        "to"@.len() == 2,
{
    reveal_strlit("event_type");
    reveal_strlit("from");
    reveal_strlit("limit");
    reveal_strlit("location_id");
    reveal_strlit("to");
}

pub open spec fn dram_shop_rules_query(p: ListDramShopRulesParams) -> Seq<(Seq<char>, Seq<char>)> {
    opt_pair("jurisdiction_code"@, opt_string(p.jurisdiction_code))
        + opt_pair("app_id"@, opt_string(p.app_id))
        + opt_pair("rule_type"@, opt_string(p.rule_type))
}

/// What `dram_shop_rules_query` builds reads back pair by pair: each value the arguments
/// give is found under its own name, an optional one only when it is set.
pub proof fn lemma_dram_shop_rules_query_reads_back(p: ListDramShopRulesParams)
    ensures
        crate::http::pair_value(dram_shop_rules_query(p), "jurisdiction_code"@) == opt_string(p.jurisdiction_code),
        crate::http::pair_value(dram_shop_rules_query(p), "app_id"@) == opt_string(p.app_id),
        crate::http::pair_value(dram_shop_rules_query(p), "rule_type"@) == opt_string(p.rule_type),
{
    assert(crate::http::pair_value(dram_shop_rules_query(p), "jurisdiction_code"@) == opt_string(p.jurisdiction_code)) by {
        broadcast use crate::http::lemma_pair_value_append, crate::http::lemma_pair_value_opt;

        lemma_dram_shop_rules_query_keys();
        reveal_with_fuel(crate::http::pair_value, 2);
    }
    assert(crate::http::pair_value(dram_shop_rules_query(p), "app_id"@) == opt_string(p.app_id)) by {
        broadcast use crate::http::lemma_pair_value_append, crate::http::lemma_pair_value_opt;

        lemma_dram_shop_rules_query_keys();
        reveal_with_fuel(crate::http::pair_value, 2);
    }
    assert(crate::http::pair_value(dram_shop_rules_query(p), "rule_type"@) == opt_string(p.rule_type)) by {
        broadcast use crate::http::lemma_pair_value_append, crate::http::lemma_pair_value_opt;

        lemma_dram_shop_rules_query_keys();
        reveal_with_fuel(crate::http::pair_value, 2);
    }
}

/// The names that `dram_shop_rules_query` uses, told apart.
proof fn lemma_dram_shop_rules_query_keys()
    ensures
        "app_id"@.len() == 6,
        "jurisdiction_code"@.len() == 17,
        "rule_type"@.len() == 9,
{
    reveal_strlit("app_id");
    reveal_strlit("jurisdiction_code");
    reveal_strlit("rule_type");
}

// ---------------------------------------------------------------------------
// Reading responses
// ---------------------------------------------------------------------------

/// One row of the dram-shop liability ledger. The estimated BAC is kept as
/// the JSON number the server sent; the BAC inputs and vertical extensions
/// are app-defined documents.
#[derive(Debug)]
pub struct DramShopEvent {
    pub event_id: String,
    pub tenant_id: String,
    pub location_id: String,
    pub event_type: String,
    pub customer_ref: Option<String>,
    pub staff_user_id: Option<String>,
    pub estimated_bac: Option<JsonNumber>,
    pub bac_inputs: Option<Json>,
    pub vertical_extensions: Option<Json>,
    pub notes: Option<String>,
    pub occurred_at: String,
    pub created_at: String,
}

/// Whether `x` is what the object `v` reads as: the identifiers, type
/// and times required, the rest optional (absent or `null` reading as
/// none).
pub open spec fn is_dram_shop_event_fields_of(v: JsonValue, x: DramShopEvent) -> bool {
    &&& is_object(v)
    &&& json_str_member(v, "event_id"@) == Some(x.event_id@)
    &&& json_str_member(v, "tenant_id"@) == Some(x.tenant_id@)
    &&& json_str_member(v, "location_id"@) == Some(x.location_id@)
    &&& json_str_member(v, "event_type"@) == Some(x.event_type@)
    &&& field_opt_str(v, "customer_ref"@) == Some(opt_string(x.customer_ref))
    &&& field_opt_str(v, "staff_user_id"@) == Some(opt_string(x.staff_user_id))
    &&& field_opt_number(v, "estimated_bac"@) == Some(opt_number_view(x.estimated_bac))
    &&& field_opt_doc(v, "bac_inputs"@) == opt_json_view(x.bac_inputs)
    &&& field_opt_doc(v, "vertical_extensions"@) == opt_json_view(x.vertical_extensions)
    &&& field_opt_str(v, "notes"@) == Some(opt_string(x.notes))
    &&& json_str_member(v, "occurred_at"@) == Some(x.occurred_at@)
    &&& json_str_member(v, "created_at"@) == Some(x.created_at@)
}

/// Whether the object `v` reads as a ledger event.
pub open spec fn reads_as_dram_shop_event_fields(v: JsonValue) -> bool {
    &&& is_object(v)
    &&& json_str_member(v, "event_id"@) is Some
    &&& json_str_member(v, "tenant_id"@) is Some
    &&& json_str_member(v, "location_id"@) is Some
    &&& json_str_member(v, "event_type"@) is Some
    &&& field_opt_str(v, "customer_ref"@) is Some
    &&& field_opt_str(v, "staff_user_id"@) is Some
    &&& field_opt_number(v, "estimated_bac"@) is Some
    &&& field_opt_str(v, "notes"@) is Some
    &&& json_str_member(v, "occurred_at"@) is Some
    &&& json_str_member(v, "created_at"@) is Some
}

/// The field names of a `DramShopEvent`, in declaration order.
pub open spec fn dram_shop_event_keys() -> Seq<Seq<char>> {
    seq!["event_id"@, "tenant_id"@, "location_id"@, "event_type"@, "customer_ref"@, "staff_user_id"@, "estimated_bac"@, "bac_inputs"@, "vertical_extensions"@, "notes"@, "occurred_at"@, "created_at"@]
}

/// Which fields of a `DramShopEvent` may be left out.
pub open spec fn dram_shop_event_defaults() -> Seq<bool> {
    seq![false, false, false, false, true, true, true, true, true, true, false, false]
}

/// Whether `x` is what the record document `v` (an object, or an array of
/// the fields in order) reads as.
pub open spec fn is_dram_shop_event_of(v: JsonValue, x: DramShopEvent) -> bool {
    record_of(v, dram_shop_event_keys(), dram_shop_event_defaults()) matches Some(o) && is_dram_shop_event_fields_of(o, x)
}

/// Whether the record document `v` reads as a `DramShopEvent`.
pub open spec fn reads_as_dram_shop_event(v: JsonValue) -> bool {
    record_of(v, dram_shop_event_keys(), dram_shop_event_defaults()) matches Some(o) && reads_as_dram_shop_event_fields(o)
}

/// The object that writes each field of a `DramShopEvent` under its own name.
pub open spec fn dram_shop_event_object(x: DramShopEvent) -> JsonValue {
    JsonValue::Object(seq![
        ("event_id"@, JsonValue::Str(x.event_id@)),
        ("tenant_id"@, JsonValue::Str(x.tenant_id@)),
        ("location_id"@, JsonValue::Str(x.location_id@)),
        ("event_type"@, JsonValue::Str(x.event_type@)),
        ("customer_ref"@, crate::json::str_or_null(crate::json::opt_string(x.customer_ref))),
        ("staff_user_id"@, crate::json::str_or_null(crate::json::opt_string(x.staff_user_id))),
        ("estimated_bac"@, match x.estimated_bac { Some(n) => JsonValue::Number(crate::json::number_view(n)), None => JsonValue::Null }),
        ("bac_inputs"@, match x.bac_inputs { Some(j) => j@, None => JsonValue::Null }),
        ("vertical_extensions"@, match x.vertical_extensions { Some(j) => j@, None => JsonValue::Null }),
        ("notes"@, crate::json::str_or_null(crate::json::opt_string(x.notes))),
        ("occurred_at"@, JsonValue::Str(x.occurred_at@)),
        ("created_at"@, JsonValue::Str(x.created_at@)),
    ])
}

/// A `DramShopEvent` whose fields are written under their own names reads back as
/// the same `DramShopEvent`.
pub proof fn lemma_dram_shop_event_reads_back(x: DramShopEvent)
    requires
        x.bac_inputs matches Some(j) ==> j@ != JsonValue::Null,
        x.vertical_extensions matches Some(j) ==> j@ != JsonValue::Null,
    ensures
        is_dram_shop_event_of(dram_shop_event_object(x), x),
{
    let v = dram_shop_event_object(x);
    assert(json_str_member(v, "event_id"@) == Some(x.event_id@)) by {
        lemma_dram_shop_event_names();
        reveal_with_fuel(crate::json::member_lookup, 13);
    }
    assert(json_str_member(v, "tenant_id"@) == Some(x.tenant_id@)) by {
        lemma_dram_shop_event_names();
        reveal_with_fuel(crate::json::member_lookup, 13);
    }
    assert(json_str_member(v, "location_id"@) == Some(x.location_id@)) by {
        lemma_dram_shop_event_names();
        reveal_with_fuel(crate::json::member_lookup, 13);
    }
    assert(json_str_member(v, "event_type"@) == Some(x.event_type@)) by {
        lemma_dram_shop_event_names();
        reveal_with_fuel(crate::json::member_lookup, 13);
    }
    assert(field_opt_str(v, "customer_ref"@) == Some(opt_string(x.customer_ref))) by {
        lemma_dram_shop_event_names();
        reveal_with_fuel(crate::json::member_lookup, 13);
    }
    assert(field_opt_str(v, "staff_user_id"@) == Some(opt_string(x.staff_user_id))) by {
        lemma_dram_shop_event_names();
        reveal_with_fuel(crate::json::member_lookup, 13);
    }
    assert(field_opt_number(v, "estimated_bac"@) == Some(opt_number_view(x.estimated_bac))) by {
        lemma_dram_shop_event_names();
        reveal_with_fuel(crate::json::member_lookup, 13);
    }
    assert(field_opt_doc(v, "bac_inputs"@) == opt_json_view(x.bac_inputs)) by {
        lemma_dram_shop_event_names();
        reveal_with_fuel(crate::json::member_lookup, 13);
    }
    assert(field_opt_doc(v, "vertical_extensions"@) == opt_json_view(x.vertical_extensions)) by {
        lemma_dram_shop_event_names();
        reveal_with_fuel(crate::json::member_lookup, 13);
    }
    assert(field_opt_str(v, "notes"@) == Some(opt_string(x.notes))) by {
        lemma_dram_shop_event_names();
        reveal_with_fuel(crate::json::member_lookup, 13);
    }
    assert(json_str_member(v, "occurred_at"@) == Some(x.occurred_at@)) by {
        lemma_dram_shop_event_names();
        reveal_with_fuel(crate::json::member_lookup, 13);
    }
    assert(json_str_member(v, "created_at"@) == Some(x.created_at@)) by {
        lemma_dram_shop_event_names();
        reveal_with_fuel(crate::json::member_lookup, 13);
    }
    assert(is_dram_shop_event_fields_of(v, x));
}

/// The field names of a `DramShopEvent`, told apart.
proof fn lemma_dram_shop_event_names()
    ensures
        "bac_inputs"@.len() == 10,
        "bac_inputs"@[0] == 'b',
        "created_at"@.len() == 10,
        "created_at"@[0] == 'c',
        "customer_ref"@.len() == 12,
        "estimated_bac"@.len() == 13,
        "estimated_bac"@[0] == 'e',
        "event_id"@.len() == 8,
        "event_type"@.len() == 10,
        "event_type"@[0] == 'e',
        "location_id"@.len() == 11,
        "location_id"@[0] == 'l',
        "notes"@.len() == 5,
        "occurred_at"@.len() == 11,
        "occurred_at"@[0] == 'o',
        "staff_user_id"@.len() == 13,
        "staff_user_id"@[0] == 's',
        "tenant_id"@.len() == 9,
        "vertical_extensions"@.len() == 19,
{
    reveal_strlit("bac_inputs");
    reveal_strlit("created_at");
    reveal_strlit("customer_ref");
    reveal_strlit("estimated_bac");
    reveal_strlit("event_id");
    reveal_strlit("event_type");
    reveal_strlit("location_id");
    reveal_strlit("notes");
    reveal_strlit("occurred_at");
    reveal_strlit("staff_user_id");
    reveal_strlit("tenant_id");
    reveal_strlit("vertical_extensions");
}

/// Whether `l` is what the list document `x` reads as, item by item.
pub open spec fn is_dram_shop_event_items_of(x: JsonValue, l: Seq<DramShopEvent>) -> bool {
    &&& x is Array
    &&& l.len() == x->Array_0.len()
    &&& forall|i: int| 0 <= i < l.len() ==> is_dram_shop_event_of(x->Array_0[i], #[trigger] l[i])
}

/// Whether `x` is a list whose every item reads as one.
pub open spec fn reads_as_dram_shop_event_items(x: JsonValue) -> bool {
    &&& x is Array
    &&& forall|i: int| 0 <= i < x->Array_0.len() ==> reads_as_dram_shop_event(#[trigger] x->Array_0[i])
}

impl DramShopEvent {
    /// Reads a `DramShopEvent` out of a document: an object, or an array of the
    /// fields in declaration order.
    pub fn from_json(v: &Json) -> (r: Option<DramShopEvent>)
        ensures
            r is Some <==> reads_as_dram_shop_event(v@),
            r matches Some(x) ==> is_dram_shop_event_of(v@, x),
    {
        let mut keys: Vec<&str> = Vec::new();
        let mut defaults: Vec<bool> = Vec::new();
        keys.push("event_id");
        defaults.push(false);
        keys.push("tenant_id");
        defaults.push(false);
        keys.push("location_id");
        defaults.push(false);
        keys.push("event_type");
        defaults.push(false);
        keys.push("customer_ref");
        defaults.push(true);
        keys.push("staff_user_id");
        defaults.push(true);
        keys.push("estimated_bac");
        defaults.push(true);
        keys.push("bac_inputs");
        defaults.push(true);
        keys.push("vertical_extensions");
        defaults.push(true);
        keys.push("notes");
        defaults.push(true);
        keys.push("occurred_at");
        defaults.push(false);
        keys.push("created_at");
        defaults.push(false);
        proof {
            assert(keys_view(keys@) =~= dram_shop_event_keys());
            assert(defaults@ =~= dram_shop_event_defaults());
        }
        match read_record(v, &keys, &defaults) {
            Some(doc) => Self::from_fields(&doc),
            None => None,
        }
    }

    /// Reads the record out of the object it stands for.
    fn from_fields(v: &Json) -> (r: Option<DramShopEvent>)
        ensures
            r is Some <==> reads_as_dram_shop_event_fields(v@),
            r matches Some(x) ==> is_dram_shop_event_fields_of(v@, x),
    {
        if !v.is_object() {
            return None;
        }
        let event_id = match read_str(v, "event_id") {
            Some(y) => y,
            None => return None,
        };
        let tenant_id = match read_str(v, "tenant_id") {
            Some(y) => y,
            None => return None,
        };
        let location_id = match read_str(v, "location_id") {
            Some(y) => y,
            None => return None,
        };
        let event_type = match read_str(v, "event_type") {
            Some(y) => y,
            None => return None,
        };
        let customer_ref = match read_opt_str(v, "customer_ref") {
            Some(y) => y,
            None => return None,
        };
        let staff_user_id = match read_opt_str(v, "staff_user_id") {
            Some(y) => y,
            None => return None,
        };
        let estimated_bac = match read_opt_number(v, "estimated_bac") {
            Some(y) => y,
            None => return None,
        };
        let bac_inputs = read_opt_doc_owned(v, "bac_inputs");
        let vertical_extensions = read_opt_doc_owned(v, "vertical_extensions");
        let notes = match read_opt_str(v, "notes") {
            Some(y) => y,
            None => return None,
        };
        let occurred_at = match read_str(v, "occurred_at") {
            Some(y) => y,
            None => return None,
        };
        let created_at = match read_str(v, "created_at") {
            Some(y) => y,
            None => return None,
        };
        Some(DramShopEvent { event_id, tenant_id, location_id, event_type, customer_ref, staff_user_id, estimated_bac, bac_inputs, vertical_extensions, notes, occurred_at, created_at })
    }

    /// Reads a list of ledger events: an array whose every item reads as
    /// one.
    pub fn list_from_json(v: &Json) -> (r: Option<Vec<DramShopEvent>>)
        ensures
            r is Some <==> reads_as_dram_shop_event_items(v@),
            r matches Some(l) ==> is_dram_shop_event_items_of(v@, l@),
    {
        match v {
            Json::Array(items) => {
                let ghost whole = v@;
                let mut out: Vec<DramShopEvent> = Vec::new();
                let mut i: usize = 0;
                while i < items.len()
                    invariant
                        i <= items.len(),
                        whole == v@,
                        whole == crate::json::json_view(Json::Array(*items)),
                        out@.len() == i,
                        forall|k: int| 0 <= k < i ==> is_dram_shop_event_of(whole->Array_0[k], #[trigger] out@[k]),
                    decreases items.len() - i,
                {
                    assert(whole->Array_0[i as int] == items@[i as int]@);
                    match DramShopEvent::from_json(&items[i]) {
                        Some(a) => out.push(a),
                        None => return None,
                    }
                    i = i + 1;
                }
                assert forall|k: int| 0 <= k < whole->Array_0.len() implies reads_as_dram_shop_event(
                    #[trigger] whole->Array_0[k],
                ) by {
                    assert(is_dram_shop_event_of(whole->Array_0[k], out@[k]));
                }
                Some(out)
            },
            _ => None,
        }
    }
}
/// A page of ledger events and the number the server returned.
#[derive(Debug)]
pub struct DramShopEventList {
    pub events: Vec<DramShopEvent>,
    pub total_returned: u64,
}

/// Whether `x` is what the object `v` reads as: no events and a zero
/// count when absent.
pub open spec fn is_dram_shop_event_list_fields_of(v: JsonValue, x: DramShopEventList) -> bool {
    &&& is_object(v)
    &&& match json_get(v, "events"@) {
        Some(y) => is_dram_shop_event_items_of(y, x.events@),
        None => x.events@.len() == 0,
    }
    &&& field_u64_or_zero(v, "total_returned"@) == Some(x.total_returned)
}

/// Whether the object `v` reads as a page of ledger events.
pub open spec fn reads_as_dram_shop_event_list_fields(v: JsonValue) -> bool {
    &&& is_object(v)
    &&& match json_get(v, "events"@) {
        Some(y) => reads_as_dram_shop_event_items(y),
        None => true,
    }
    &&& field_u64_or_zero(v, "total_returned"@) is Some
}

/// The field names of a `DramShopEventList`, in declaration order.
pub open spec fn dram_shop_event_list_keys() -> Seq<Seq<char>> {
    seq!["events"@, "total_returned"@]
}

/// Which fields of a `DramShopEventList` may be left out.
pub open spec fn dram_shop_event_list_defaults() -> Seq<bool> {
    seq![true, true]
}

/// Whether `x` is what the record document `v` (an object, or an array of
/// the fields in order) reads as.
pub open spec fn is_dram_shop_event_list_of(v: JsonValue, x: DramShopEventList) -> bool {
    record_of(v, dram_shop_event_list_keys(), dram_shop_event_list_defaults()) matches Some(o) && is_dram_shop_event_list_fields_of(o, x)
}

/// Whether the record document `v` reads as a `DramShopEventList`.
pub open spec fn reads_as_dram_shop_event_list(v: JsonValue) -> bool {
    record_of(v, dram_shop_event_list_keys(), dram_shop_event_list_defaults()) matches Some(o) && reads_as_dram_shop_event_list_fields(o)
}

impl DramShopEventList {
    /// Reads a `DramShopEventList` out of a document: an object, or an array of the
    /// fields in declaration order.
    pub fn from_json(v: &Json) -> (r: Option<DramShopEventList>)
        ensures
            r is Some <==> reads_as_dram_shop_event_list(v@),
            r matches Some(x) ==> is_dram_shop_event_list_of(v@, x),
    {
        let mut keys: Vec<&str> = Vec::new();
        let mut defaults: Vec<bool> = Vec::new();
        keys.push("events");
        defaults.push(true);
        keys.push("total_returned");
        defaults.push(true);
        proof {
            assert(keys_view(keys@) =~= dram_shop_event_list_keys());
            assert(defaults@ =~= dram_shop_event_list_defaults());
        }
        match read_record(v, &keys, &defaults) {
            Some(doc) => Self::from_fields(&doc),
            None => None,
        }
    }

    /// Reads the record out of the object it stands for.
    fn from_fields(v: &Json) -> (r: Option<DramShopEventList>)
        ensures
            r is Some <==> reads_as_dram_shop_event_list_fields(v@),
            r matches Some(x) ==> is_dram_shop_event_list_fields_of(v@, x),
    {
        if !v.is_object() {
            return None;
        }
        let events = match v.get("events") {
            Some(y) => match DramShopEvent::list_from_json(y) {
                Some(l) => l,
                None => return None,
            },
            None => Vec::new(),
        };
        let total_returned = match read_u64_or_zero(v, "total_returned") {
            Some(y) => y,
            None => return None,
        };
        Some(DramShopEventList { events, total_returned })
    }
}
/// A dram-shop rule. The payload is an arbitrary document (for example
/// jurisdiction-specific BAC thresholds); `override_app_id` is set when the
/// rule overrides a platform default for one app.
#[derive(Debug)]
pub struct DramShopRule {
    pub tenant_id: String,
    pub rule_id: String,
    pub jurisdiction_code: String,
    pub rule_type: String,
    pub rule_payload: Option<Json>,
    pub effective_from: String,
    pub effective_until: Option<String>,
    pub override_app_id: Option<String>,
    pub notes: Option<String>,
    pub created_at: String,
}

/// Whether `x` is what the object `v` reads as: the identifiers and
/// dates required, the payload, end date, override and notes optional.
pub open spec fn is_dram_shop_rule_fields_of(v: JsonValue, x: DramShopRule) -> bool {
    &&& is_object(v)
    &&& json_str_member(v, "tenant_id"@) == Some(x.tenant_id@)
    &&& json_str_member(v, "rule_id"@) == Some(x.rule_id@)
    &&& json_str_member(v, "jurisdiction_code"@) == Some(x.jurisdiction_code@)
    &&& json_str_member(v, "rule_type"@) == Some(x.rule_type@)
    &&& field_opt_doc(v, "rule_payload"@) == opt_json_view(x.rule_payload)
    &&& json_str_member(v, "effective_from"@) == Some(x.effective_from@)
    &&& field_opt_str(v, "effective_until"@) == Some(opt_string(x.effective_until))
    &&& field_opt_str(v, "override_app_id"@) == Some(opt_string(x.override_app_id))
    &&& field_opt_str(v, "notes"@) == Some(opt_string(x.notes))
    &&& json_str_member(v, "created_at"@) == Some(x.created_at@)
}

/// Whether the object `v` reads as a dram-shop rule.
pub open spec fn reads_as_dram_shop_rule_fields(v: JsonValue) -> bool {
    &&& is_object(v)
    &&& json_str_member(v, "tenant_id"@) is Some
    &&& json_str_member(v, "rule_id"@) is Some
    &&& json_str_member(v, "jurisdiction_code"@) is Some
    &&& json_str_member(v, "rule_type"@) is Some
    &&& json_str_member(v, "effective_from"@) is Some
    &&& field_opt_str(v, "effective_until"@) is Some
    &&& field_opt_str(v, "override_app_id"@) is Some
    &&& field_opt_str(v, "notes"@) is Some
    &&& json_str_member(v, "created_at"@) is Some
}

/// The field names of a `DramShopRule`, in declaration order.
pub open spec fn dram_shop_rule_keys() -> Seq<Seq<char>> {
    seq!["tenant_id"@, "rule_id"@, "jurisdiction_code"@, "rule_type"@, "rule_payload"@, "effective_from"@, "effective_until"@, "override_app_id"@, "notes"@, "created_at"@]
}

/// Which fields of a `DramShopRule` may be left out.
pub open spec fn dram_shop_rule_defaults() -> Seq<bool> {
    seq![false, false, false, false, true, false, true, true, true, false]
}

/// Whether `x` is what the record document `v` (an object, or an array of
/// the fields in order) reads as.
pub open spec fn is_dram_shop_rule_of(v: JsonValue, x: DramShopRule) -> bool {
    record_of(v, dram_shop_rule_keys(), dram_shop_rule_defaults()) matches Some(o) && is_dram_shop_rule_fields_of(o, x)
}

/// Whether the record document `v` reads as a `DramShopRule`.
pub open spec fn reads_as_dram_shop_rule(v: JsonValue) -> bool {
    record_of(v, dram_shop_rule_keys(), dram_shop_rule_defaults()) matches Some(o) && reads_as_dram_shop_rule_fields(o)
}

/// The object that writes each field of a `DramShopRule` under its own name.
pub open spec fn dram_shop_rule_object(x: DramShopRule) -> JsonValue {
    JsonValue::Object(seq![
        ("tenant_id"@, JsonValue::Str(x.tenant_id@)),
        ("rule_id"@, JsonValue::Str(x.rule_id@)),
        ("jurisdiction_code"@, JsonValue::Str(x.jurisdiction_code@)),
        ("rule_type"@, JsonValue::Str(x.rule_type@)),
        ("rule_payload"@, match x.rule_payload { Some(j) => j@, None => JsonValue::Null }),
        ("effective_from"@, JsonValue::Str(x.effective_from@)),
        ("effective_until"@, crate::json::str_or_null(crate::json::opt_string(x.effective_until))),
        ("override_app_id"@, crate::json::str_or_null(crate::json::opt_string(x.override_app_id))),
        ("notes"@, crate::json::str_or_null(crate::json::opt_string(x.notes))),
        ("created_at"@, JsonValue::Str(x.created_at@)),
    ])
}

/// A `DramShopRule` whose fields are written under their own names reads back as
/// the same `DramShopRule`.
pub proof fn lemma_dram_shop_rule_reads_back(x: DramShopRule)
    requires
        x.rule_payload matches Some(j) ==> j@ != JsonValue::Null,
    ensures
        is_dram_shop_rule_of(dram_shop_rule_object(x), x),
{
    let v = dram_shop_rule_object(x);
    assert(json_str_member(v, "tenant_id"@) == Some(x.tenant_id@)) by {
        lemma_dram_shop_rule_names();
        reveal_with_fuel(crate::json::member_lookup, 11);
    }
    assert(json_str_member(v, "rule_id"@) == Some(x.rule_id@)) by {
        lemma_dram_shop_rule_names();
        reveal_with_fuel(crate::json::member_lookup, 11);
    }
    assert(json_str_member(v, "jurisdiction_code"@) == Some(x.jurisdiction_code@)) by {
        lemma_dram_shop_rule_names();
        reveal_with_fuel(crate::json::member_lookup, 11);
    }
    assert(json_str_member(v, "rule_type"@) == Some(x.rule_type@)) by {
        lemma_dram_shop_rule_names();
        reveal_with_fuel(crate::json::member_lookup, 11);
    }
    assert(field_opt_doc(v, "rule_payload"@) == opt_json_view(x.rule_payload)) by {
        lemma_dram_shop_rule_names();
        reveal_with_fuel(crate::json::member_lookup, 11);
    }
    assert(json_str_member(v, "effective_from"@) == Some(x.effective_from@)) by {
        lemma_dram_shop_rule_names();
        reveal_with_fuel(crate::json::member_lookup, 11);
    }
    assert(field_opt_str(v, "effective_until"@) == Some(opt_string(x.effective_until))) by {
        lemma_dram_shop_rule_names();
        reveal_with_fuel(crate::json::member_lookup, 11);
    }
    assert(field_opt_str(v, "override_app_id"@) == Some(opt_string(x.override_app_id))) by {
        lemma_dram_shop_rule_names();
        reveal_with_fuel(crate::json::member_lookup, 11);
    }
    assert(field_opt_str(v, "notes"@) == Some(opt_string(x.notes))) by {
        lemma_dram_shop_rule_names();
        reveal_with_fuel(crate::json::member_lookup, 11);
    }
    assert(json_str_member(v, "created_at"@) == Some(x.created_at@)) by {
        lemma_dram_shop_rule_names();
        reveal_with_fuel(crate::json::member_lookup, 11);
    }
    assert(is_dram_shop_rule_fields_of(v, x));
}

/// The field names of a `DramShopRule`, told apart.
proof fn lemma_dram_shop_rule_names()
    ensures
        "created_at"@.len() == 10,
        "effective_from"@.len() == 14,
        "effective_until"@.len() == 15,
        "effective_until"@[0] == 'e',
        "jurisdiction_code"@.len() == 17,
        "notes"@.len() == 5,
        "override_app_id"@.len() == 15,
        "override_app_id"@[0] == 'o',
        "rule_id"@.len() == 7,
        "rule_payload"@.len() == 12,
        "rule_type"@.len() == 9,
        "rule_type"@[0] == 'r',
        "tenant_id"@.len() == 9,
        "tenant_id"@[0] == 't',
{
    reveal_strlit("created_at");
    reveal_strlit("effective_from");
    reveal_strlit("effective_until");
    reveal_strlit("jurisdiction_code");
    reveal_strlit("notes");
    reveal_strlit("override_app_id");
    reveal_strlit("rule_id");
    reveal_strlit("rule_payload");
    reveal_strlit("rule_type");
    reveal_strlit("tenant_id");
}

impl DramShopRule {
    /// Reads a `DramShopRule` out of a document: an object, or an array of the
    /// fields in declaration order.
    pub fn from_json(v: &Json) -> (r: Option<DramShopRule>)
        ensures
            r is Some <==> reads_as_dram_shop_rule(v@),
            r matches Some(x) ==> is_dram_shop_rule_of(v@, x),
    {
        let mut keys: Vec<&str> = Vec::new();
        let mut defaults: Vec<bool> = Vec::new();
        keys.push("tenant_id");
        defaults.push(false);
        keys.push("rule_id");
        defaults.push(false);
        keys.push("jurisdiction_code");
        defaults.push(false);
        keys.push("rule_type");
        defaults.push(false);
        keys.push("rule_payload");
        defaults.push(true);
        keys.push("effective_from");
        defaults.push(false);
        keys.push("effective_until");
        defaults.push(true);
        keys.push("override_app_id");
        defaults.push(true);
        keys.push("notes");
        defaults.push(true);
        keys.push("created_at");
        defaults.push(false);
        proof {
            assert(keys_view(keys@) =~= dram_shop_rule_keys());
            assert(defaults@ =~= dram_shop_rule_defaults());
        }
        match read_record(v, &keys, &defaults) {
            Some(doc) => Self::from_fields(&doc),
            None => None,
        }
    }

    /// Reads the record out of the object it stands for.
    fn from_fields(v: &Json) -> (r: Option<DramShopRule>)
        ensures
            r is Some <==> reads_as_dram_shop_rule_fields(v@),
            r matches Some(x) ==> is_dram_shop_rule_fields_of(v@, x),
    {
        if !v.is_object() {
            return None;
        }
        let tenant_id = match read_str(v, "tenant_id") {
            Some(y) => y,
            None => return None,
        };
        let rule_id = match read_str(v, "rule_id") {
            Some(y) => y,
            None => return None,
        };
        let jurisdiction_code = match read_str(v, "jurisdiction_code") {
            Some(y) => y,
            None => return None,
        };
        let rule_type = match read_str(v, "rule_type") {
            Some(y) => y,
            None => return None,
        };
        let rule_payload = read_opt_doc_owned(v, "rule_payload");
        let effective_from = match read_str(v, "effective_from") {
            Some(y) => y,
            None => return None,
        };
        let effective_until = match read_opt_str(v, "effective_until") {
            Some(y) => y,
            None => return None,
        };
        let override_app_id = match read_opt_str(v, "override_app_id") {
            Some(y) => y,
            None => return None,
        };
        let notes = match read_opt_str(v, "notes") {
            Some(y) => y,
            None => return None,
        };
        let created_at = match read_str(v, "created_at") {
            Some(y) => y,
            None => return None,
        };
        Some(DramShopRule { tenant_id, rule_id, jurisdiction_code, rule_type, rule_payload, effective_from, effective_until, override_app_id, notes, created_at })
    }
}
/// The rows that read as a dram-shop rule, in order.
pub open spec fn readable_dram_shop_rule_rows(rows: Seq<JsonValue>) -> Seq<JsonValue> {
    rows.filter(|x: JsonValue| reads_as_dram_shop_rule(x))
}

impl DramShopRule {
    /// Reads every row that reads as a dram-shop rule, in order, and skips the
    /// others.
    pub fn from_rows(rows: &Vec<Json>) -> (r: Vec<DramShopRule>)
        ensures
            r@.len() == readable_dram_shop_rule_rows(jsons_view(rows@)).len(),
            forall|i: int|
                0 <= i < r@.len() ==> is_dram_shop_rule_of(readable_dram_shop_rule_rows(jsons_view(rows@))[i], #[trigger] r@[i]),
    {
        let ghost all = jsons_view(rows@);
        let mut out: Vec<DramShopRule> = Vec::new();
        let mut i: usize = 0;
        proof {
            reveal(Seq::filter);
            assert(all.take(0) =~= Seq::<JsonValue>::empty());
        }
        while i < rows.len()
            invariant
                i <= rows.len(),
                all == jsons_view(rows@),
                out@.len() == readable_dram_shop_rule_rows(all.take(i as int)).len(),
                forall|k: int|
                    0 <= k < out@.len() ==> is_dram_shop_rule_of(readable_dram_shop_rule_rows(all.take(i as int))[k], #[trigger] out@[k]),
            decreases rows.len() - i,
        {
            proof {
                reveal(Seq::filter);
                assert(all.take(i as int + 1).drop_last() =~= all.take(i as int));
                assert(all.take(i as int + 1).last() == rows@[i as int]@);
            }
            match DramShopRule::from_json(&rows[i]) {
                Some(x) => out.push(x),
                None => {},
            }
            i = i + 1;
        }
        proof {
            assert(all.take(rows@.len() as int) =~= all);
        }
        out
    }
}

impl ComplianceService {
    /// Record a dram-shop compliance event.
    pub fn record_dram_shop_event(&self, params: RecordDramShopEventParams) -> (r: ApiRequest)
        ensures
            r@ == json_request(HttpMethod::Post, "/platform/compliance/dram-shop-events"@, dram_shop_event_body(params)),
    {
        let ghost p = params;
        let mut body = Members::new();
        body.put("location_id", Json::Str(params.location_id));
        body.put("event_type", Json::Str(params.event_type));
        body.put_opt_string("customer_ref", params.customer_ref);
        body.put_opt_string("staff_user_id", params.staff_user_id);
        body.put_opt("estimated_bac", params.estimated_bac);
        body.put_opt("bac_inputs", params.bac_inputs);
        body.put_opt("vertical_extensions", params.vertical_extensions);
        body.put_opt_string("notes", params.notes);
        body.put_opt_string("occurred_at", params.occurred_at);
        assert(body@ =~= dram_shop_event_body(p)->Object_0);
        ApiRequest::post("/platform/compliance/dram-shop-events".to_owned(), body.into_json())
    }

    /// List the tenant's dram-shop events, with the given filters.
    pub fn list_dram_shop_events(&self, params: &ListDramShopEventsParams) -> (r: ApiRequest)
        ensures
            r@ == get_request("/platform/compliance/dram-shop-events"@, dram_shop_events_query(*params)),
    {
        let mut q = Query::new();
        q.push_opt_string("location_id", &params.location_id);
        q.push_opt_string("from", &params.from);
        q.push_opt_string("to", &params.to);
        q.push_opt_string("event_type", &params.event_type);
        q.push_opt_u32("limit", params.limit);
        assert(q@ =~= dram_shop_events_query(*params));
        ApiRequest::get("/platform/compliance/dram-shop-events".to_owned(), q)
    }

    /// List the currently effective dram-shop rules, with the given
    /// filters.
    pub fn list_dram_shop_rules(&self, params: &ListDramShopRulesParams) -> (r: ApiRequest)
        ensures
            r@ == get_request("/platform/compliance/dram-shop-rules"@, dram_shop_rules_query(*params)),
    {
        let mut q = Query::new();
        q.push_opt_string("jurisdiction_code", &params.jurisdiction_code);
        q.push_opt_string("app_id", &params.app_id);
        q.push_opt_string("rule_type", &params.rule_type);
        assert(q@ =~= dram_shop_rules_query(*params));
        ApiRequest::get("/platform/compliance/dram-shop-rules".to_owned(), q)
    }

    /// The rule rows of a rules reply: the items of its `rules` array, or
    /// none when it has no such array.
    pub fn dram_shop_rule_rows(&self, response: &Json) -> (r: Vec<Json>)
        ensures
            jsons_view(r@) == array_rows(response@, "rules"@),
    {
        response.array_rows("rules")
    }

    /// The rules of a rules reply: each row of its `rules` array that reads
    /// as a rule, in order; the other rows are skipped.
    pub fn dram_shop_rules_from_response(&self, response: &Json) -> (r: Vec<DramShopRule>)
        ensures
            r@.len() == readable_dram_shop_rule_rows(array_rows(response@, "rules"@)).len(),
            forall|i: int|
                0 <= i < r@.len() ==> is_dram_shop_rule_of(
                    readable_dram_shop_rule_rows(array_rows(response@, "rules"@))[i],
                    #[trigger] r@[i],
                ),
    {
        let rows = self.dram_shop_rule_rows(response);
        DramShopRule::from_rows(&rows)
    }
}

} // verus!
