//! Plan gating: the plans a tenant can see, with the current one marked.

use vstd::prelude::*;
use crate::decode::{keys_view, read_record, record_of};
use crate::http::{get_request, opt_pair, ApiRequest, Query};
use crate::decode::{
    field_bool_or_false, field_doc, field_opt_number, field_opt_str, field_str_list_or_empty, opt_number_view,
    read_bool_or_false, read_doc, read_opt_number, read_opt_str, read_str, read_str_list_or_empty,
};
use crate::json::{
    is_object, json_get, json_str_member, opt_str, opt_string, strings_view, Json, JsonNumber, JsonValue,
};

verus! {

/// Plans the calls of plan gating.
pub struct GatingService;

/// One tier of the plan matrix. The monthly price in dollars is kept as
/// the JSON number the server sent, and is absent for "contact sales"
/// tiers; features and usage limits are documents.
#[derive(Debug)]
pub struct PlanEntry {
    pub tier_id: String,
    pub display_name: String,
    pub monthly_price_usd: Option<JsonNumber>,
    pub features: Json,
    pub usage_limits: Json,
    pub ranks_higher_than_current: bool,
    pub is_current: bool,
    pub diff_vs_current: Vec<String>,
    pub contact_sales: bool,
}

/// Whether `x` is what the object `v` reads as: the tier, its name,
/// features and limits required; the price optional; the flags false and
/// the differences none when absent.
pub open spec fn is_plan_entry_fields_of(v: JsonValue, x: PlanEntry) -> bool {
    &&& is_object(v)
    &&& json_str_member(v, "tier_id"@) == Some(x.tier_id@)
    &&& json_str_member(v, "display_name"@) == Some(x.display_name@)
    &&& field_opt_number(v, "monthly_price_usd"@) == Some(opt_number_view(x.monthly_price_usd))
    &&& field_doc(v, "features"@) == Some(x.features@)
    &&& field_doc(v, "usage_limits"@) == Some(x.usage_limits@)
    &&& field_bool_or_false(v, "ranks_higher_than_current"@) == Some(x.ranks_higher_than_current)
    &&& field_bool_or_false(v, "is_current"@) == Some(x.is_current)
    &&& field_str_list_or_empty(v, "diff_vs_current"@) == Some(strings_view(x.diff_vs_current@))
    &&& field_bool_or_false(v, "contact_sales"@) == Some(x.contact_sales)
}

/// Whether the object `v` reads as a plan tier.
pub open spec fn reads_as_plan_entry_fields(v: JsonValue) -> bool {
    &&& is_object(v)
    &&& json_str_member(v, "tier_id"@) is Some
    &&& json_str_member(v, "display_name"@) is Some
    &&& field_opt_number(v, "monthly_price_usd"@) is Some
    &&& field_doc(v, "features"@) is Some
    &&& field_doc(v, "usage_limits"@) is Some
    &&& field_bool_or_false(v, "ranks_higher_than_current"@) is Some
    &&& field_bool_or_false(v, "is_current"@) is Some
    &&& field_str_list_or_empty(v, "diff_vs_current"@) is Some
    &&& field_bool_or_false(v, "contact_sales"@) is Some
}

/// The field names of a `PlanEntry`, in declaration order.
pub open spec fn plan_entry_keys() -> Seq<Seq<char>> {
    seq!["tier_id"@, "display_name"@, "monthly_price_usd"@, "features"@, "usage_limits"@, "ranks_higher_than_current"@, "is_current"@, "diff_vs_current"@, "contact_sales"@]
}

/// Which fields of a `PlanEntry` may be left out.
pub open spec fn plan_entry_defaults() -> Seq<bool> {
    seq![false, false, false, false, false, true, true, true, true]
}

/// Whether `x` is what the record document `v` (an object, or an array of
/// the fields in order) reads as.
pub open spec fn is_plan_entry_of(v: JsonValue, x: PlanEntry) -> bool {
    record_of(v, plan_entry_keys(), plan_entry_defaults()) matches Some(o) && is_plan_entry_fields_of(o, x)
}

/// Whether the record document `v` reads as a `PlanEntry`.
pub open spec fn reads_as_plan_entry(v: JsonValue) -> bool {
    record_of(v, plan_entry_keys(), plan_entry_defaults()) matches Some(o) && reads_as_plan_entry_fields(o)
}

/// The object that writes each field of a `PlanEntry` under its own name.
pub open spec fn plan_entry_object(x: PlanEntry) -> JsonValue {
    JsonValue::Object(seq![
        ("tier_id"@, JsonValue::Str(x.tier_id@)),
        ("display_name"@, JsonValue::Str(x.display_name@)),
        ("monthly_price_usd"@, match x.monthly_price_usd { Some(n) => JsonValue::Number(crate::json::number_view(n)), None => JsonValue::Null }),
        ("features"@, x.features@),
        ("usage_limits"@, x.usage_limits@),
        ("ranks_higher_than_current"@, JsonValue::Bool(x.ranks_higher_than_current)),
        ("is_current"@, JsonValue::Bool(x.is_current)),
        ("diff_vs_current"@, crate::json::str_list_value(crate::json::strings_view(x.diff_vs_current@))),
        ("contact_sales"@, JsonValue::Bool(x.contact_sales)),
    ])
}

/// A `PlanEntry` whose fields are written under their own names reads back as
/// the same `PlanEntry`.
pub proof fn lemma_plan_entry_reads_back(x: PlanEntry)
    ensures
        is_plan_entry_of(plan_entry_object(x), x),
{
    let v = plan_entry_object(x);
    assert(json_str_member(v, "tier_id"@) == Some(x.tier_id@)) by {
        lemma_plan_entry_names();
        reveal_with_fuel(crate::json::member_lookup, 10);
    }
    assert(json_str_member(v, "display_name"@) == Some(x.display_name@)) by {
        lemma_plan_entry_names();
        reveal_with_fuel(crate::json::member_lookup, 10);
    }
    assert(field_opt_number(v, "monthly_price_usd"@) == Some(opt_number_view(x.monthly_price_usd))) by {
        lemma_plan_entry_names();
        reveal_with_fuel(crate::json::member_lookup, 10);
    }
    assert(field_doc(v, "features"@) == Some(x.features@)) by {
        lemma_plan_entry_names();
        reveal_with_fuel(crate::json::member_lookup, 10);
    }
    assert(field_doc(v, "usage_limits"@) == Some(x.usage_limits@)) by {
        lemma_plan_entry_names();
        reveal_with_fuel(crate::json::member_lookup, 10);
    }
    assert(field_bool_or_false(v, "ranks_higher_than_current"@) == Some(x.ranks_higher_than_current)) by {
        lemma_plan_entry_names();
        reveal_with_fuel(crate::json::member_lookup, 10);
    }
    assert(field_bool_or_false(v, "is_current"@) == Some(x.is_current)) by {
        lemma_plan_entry_names();
        reveal_with_fuel(crate::json::member_lookup, 10);
    }
    assert(field_str_list_or_empty(v, "diff_vs_current"@) == Some(strings_view(x.diff_vs_current@))) by {
        lemma_plan_entry_names();
        reveal_with_fuel(crate::json::member_lookup, 10);
        crate::decode::lemma_str_list_reads_back(crate::json::strings_view(x.diff_vs_current@));
    }
    assert(field_bool_or_false(v, "contact_sales"@) == Some(x.contact_sales)) by {
        lemma_plan_entry_names();
        reveal_with_fuel(crate::json::member_lookup, 10);
    }
    assert(is_plan_entry_fields_of(v, x));
}

/// The field names of a `PlanEntry`, told apart.
proof fn lemma_plan_entry_names()
    ensures
        "contact_sales"@.len() == 13,
        "diff_vs_current"@.len() == 15,
        "display_name"@.len() == 12,
        "display_name"@[0] == 'd',
        "features"@.len() == 8,
        "is_current"@.len() == 10,
        "monthly_price_usd"@.len() == 17,
        "ranks_higher_than_current"@.len() == 25,
        "tier_id"@.len() == 7,
        "usage_limits"@.len() == 12,
        "usage_limits"@[0] == 'u',
{
    reveal_strlit("contact_sales");
    reveal_strlit("diff_vs_current");
    reveal_strlit("display_name");
    reveal_strlit("features");
    reveal_strlit("is_current");
    reveal_strlit("monthly_price_usd");
    reveal_strlit("ranks_higher_than_current");
    reveal_strlit("tier_id");
    reveal_strlit("usage_limits");
}

/// Whether `l` is what the list document `x` reads as, item by item.
pub open spec fn is_plan_entry_items_of(x: JsonValue, l: Seq<PlanEntry>) -> bool {
    &&& x is Array
    &&& l.len() == x->Array_0.len()
    &&& forall|i: int| 0 <= i < l.len() ==> is_plan_entry_of(x->Array_0[i], #[trigger] l[i])
}

/// Whether `x` is a list whose every item reads as one.
pub open spec fn reads_as_plan_entry_items(x: JsonValue) -> bool {
    &&& x is Array
    &&& forall|i: int| 0 <= i < x->Array_0.len() ==> reads_as_plan_entry(#[trigger] x->Array_0[i])
}

impl PlanEntry {
    /// Reads a `PlanEntry` out of a document: an object, or an array of the
    /// fields in declaration order.
    pub fn from_json(v: &Json) -> (r: Option<PlanEntry>)
        ensures
            r is Some <==> reads_as_plan_entry(v@),
            r matches Some(x) ==> is_plan_entry_of(v@, x),
    {
        let mut keys: Vec<&str> = Vec::new();
        let mut defaults: Vec<bool> = Vec::new();
        keys.push("tier_id");
        defaults.push(false);
        keys.push("display_name");
        defaults.push(false);
        keys.push("monthly_price_usd");
        defaults.push(false);
        keys.push("features");
        defaults.push(false);
        keys.push("usage_limits");
        defaults.push(false);
        keys.push("ranks_higher_than_current");
        defaults.push(true);
        keys.push("is_current");
        defaults.push(true);
        keys.push("diff_vs_current");
        defaults.push(true);
        keys.push("contact_sales");
        defaults.push(true);
        proof {
            assert(keys_view(keys@) =~= plan_entry_keys());
            assert(defaults@ =~= plan_entry_defaults());
        }
        match read_record(v, &keys, &defaults) {
            Some(doc) => Self::from_fields(&doc),
            None => None,
        }
    }

    /// Reads the record out of the object it stands for.
    fn from_fields(v: &Json) -> (r: Option<PlanEntry>)
        ensures
            r is Some <==> reads_as_plan_entry_fields(v@),
            r matches Some(x) ==> is_plan_entry_fields_of(v@, x),
    {
        if !v.is_object() {
            return None;
        }
        let tier_id = match read_str(v, "tier_id") {
            Some(y) => y,
            None => return None,
        };
        let display_name = match read_str(v, "display_name") {
            Some(y) => y,
            None => return None,
        };
        let monthly_price_usd = match read_opt_number(v, "monthly_price_usd") {
            Some(y) => y,
            None => return None,
        };
        let features = match read_doc(v, "features") {
            Some(y) => y,
            None => return None,
        };
        let usage_limits = match read_doc(v, "usage_limits") {
            Some(y) => y,
            None => return None,
        };
        let ranks_higher_than_current = match read_bool_or_false(v, "ranks_higher_than_current") {
            Some(y) => y,
            None => return None,
        };
        let is_current = match read_bool_or_false(v, "is_current") {
            Some(y) => y,
            None => return None,
        };
        let diff_vs_current = match read_str_list_or_empty(v, "diff_vs_current") {
            Some(y) => y,
            None => return None,
        };
        let contact_sales = match read_bool_or_false(v, "contact_sales") {
            Some(y) => y,
            None => return None,
        };
        Some(PlanEntry { tier_id, display_name, monthly_price_usd, features, usage_limits, ranks_higher_than_current, is_current, diff_vs_current, contact_sales })
    }

    /// Reads a list of plan tiers: an array whose every item reads as one.
    pub fn list_from_json(v: &Json) -> (r: Option<Vec<PlanEntry>>)
        ensures
            r is Some <==> reads_as_plan_entry_items(v@),
            r matches Some(l) ==> is_plan_entry_items_of(v@, l@),
    {
        match v {
            Json::Array(items) => {
                let ghost whole = v@;
                let mut out: Vec<PlanEntry> = Vec::new();
                let mut i: usize = 0;
                while i < items.len()
                    invariant
                        i <= items.len(),
                        whole == v@,
                        whole == crate::json::json_view(Json::Array(*items)),
                        out@.len() == i,
                        forall|k: int| 0 <= k < i ==> is_plan_entry_of(whole->Array_0[k], #[trigger] out@[k]),
                    decreases items.len() - i,
                {
                    assert(whole->Array_0[i as int] == items@[i as int]@);
                    match PlanEntry::from_json(&items[i]) {
                        Some(a) => out.push(a),
                        None => return None,
                    }
                    i = i + 1;
                }
                assert forall|k: int| 0 <= k < whole->Array_0.len() implies reads_as_plan_entry(
                    #[trigger] whole->Array_0[k],
                ) by {
                    assert(is_plan_entry_of(whole->Array_0[k], out@[k]));
                }
                Some(out)
            },
            _ => None,
        }
    }
}
/// The plan matrix, with the caller's current plan.
#[derive(Debug)]
pub struct PlanDetails {
    pub current_plan: Option<String>,
    pub plans: Vec<PlanEntry>,
    pub as_of: String,
}

/// Whether `x` is what the object `v` reads as: the tiers and the
/// stamp required, the current plan optional.
pub open spec fn is_plan_details_fields_of(v: JsonValue, x: PlanDetails) -> bool {
    &&& is_object(v)
    &&& field_opt_str(v, "current_plan"@) == Some(opt_string(x.current_plan))
    &&& json_get(v, "plans"@) matches Some(y) && is_plan_entry_items_of(y, x.plans@)
    &&& json_str_member(v, "as_of"@) == Some(x.as_of@)
}

/// Whether the object `v` reads as a plan matrix.
pub open spec fn reads_as_plan_details_fields(v: JsonValue) -> bool {
    &&& is_object(v)
    &&& field_opt_str(v, "current_plan"@) is Some
    &&& json_get(v, "plans"@) matches Some(y) && reads_as_plan_entry_items(y)
    &&& json_str_member(v, "as_of"@) is Some
}

/// The field names of a `PlanDetails`, in declaration order.
pub open spec fn plan_details_keys() -> Seq<Seq<char>> {
    seq!["current_plan"@, "plans"@, "as_of"@]
}

/// Which fields of a `PlanDetails` may be left out.
pub open spec fn plan_details_defaults() -> Seq<bool> {
    seq![false, false, false]
}

/// Whether `x` is what the record document `v` (an object, or an array of
/// the fields in order) reads as.
pub open spec fn is_plan_details_of(v: JsonValue, x: PlanDetails) -> bool {
    record_of(v, plan_details_keys(), plan_details_defaults()) matches Some(o) && is_plan_details_fields_of(o, x)
}

/// Whether the record document `v` reads as a `PlanDetails`.
pub open spec fn reads_as_plan_details(v: JsonValue) -> bool {
    record_of(v, plan_details_keys(), plan_details_defaults()) matches Some(o) && reads_as_plan_details_fields(o)
}

impl PlanDetails {
    /// Reads a `PlanDetails` out of a document: an object, or an array of the
    /// fields in declaration order.
    pub fn from_json(v: &Json) -> (r: Option<PlanDetails>)
        ensures
            r is Some <==> reads_as_plan_details(v@),
            r matches Some(x) ==> is_plan_details_of(v@, x),
    {
        let mut keys: Vec<&str> = Vec::new();
        let mut defaults: Vec<bool> = Vec::new();
        keys.push("current_plan");
        defaults.push(false);
        keys.push("plans");
        defaults.push(false);
        keys.push("as_of");
        defaults.push(false);
        proof {
            assert(keys_view(keys@) =~= plan_details_keys());
            assert(defaults@ =~= plan_details_defaults());
        }
        match read_record(v, &keys, &defaults) {
            Some(doc) => Self::from_fields(&doc),
            None => None,
        }
    }

    /// Reads the record out of the object it stands for.
    fn from_fields(v: &Json) -> (r: Option<PlanDetails>)
        ensures
            r is Some <==> reads_as_plan_details_fields(v@),
            r matches Some(x) ==> is_plan_details_fields_of(v@, x),
    {
        if !v.is_object() {
            return None;
        }
        let current_plan = match read_opt_str(v, "current_plan") {
            Some(y) => y,
            None => return None,
        };
        let plans = match v.get("plans") {
            Some(y) => match PlanEntry::list_from_json(y) {
                Some(l) => l,
                None => return None,
            },
            None => return None,
        };
        let as_of = match read_str(v, "as_of") {
            Some(y) => y,
            None => return None,
        };
        Some(PlanDetails { current_plan, plans, as_of })
    }
}
impl GatingService {
    /// The plan details, of one tenant when given.
    pub fn get_plan_details(&self, tenant_id: Option<&str>) -> (r: ApiRequest)
        ensures
            r@ == get_request("/platform/gating/plan-details"@, opt_pair("tenant_id"@, opt_str(tenant_id))),
    {
        let mut q = Query::new();
        q.push_opt("tenant_id", tenant_id);
        assert(q@ =~= opt_pair("tenant_id"@, opt_str(tenant_id)));
        ApiRequest::get("/platform/gating/plan-details".to_owned(), q)
    }
}

} // verus!
