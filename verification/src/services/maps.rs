//! Maps: geocoding, directions and delivery-zone checks.

use vstd::prelude::*;
use crate::decode::{keys_view, read_record, record_of};
use crate::http::{json_request, ApiRequest, HttpMethod};
use crate::decode::{
    field_bool, field_i64, field_number, field_opt_i32, field_opt_i64, field_opt_str, read_bool, read_i64,
    read_number, read_opt_i32, read_opt_i64, read_opt_str, read_str,
};
use crate::json::{
    is_object, json_get, json_str_member, number_view, object_of, opt_json_member, opt_string,
    opt_string_member, text_member, Json, JsonNumber, JsonValue, Members,
};

verus! {

/// Plans the calls of the maps service.
pub struct MapsService;

/// An address to geocode.
#[derive(Debug, Clone)]
pub struct GeocodeRequest {
    pub address: String,
}

/// One step of a route.
#[derive(Debug, Clone)]
pub struct RouteStep {
    pub html_instructions: String,
    pub distance_text: String,
    pub duration_text: String,
}

/// A route to plan; the travel mode is sent only when set.
#[derive(Debug, Clone)]
pub struct DirectionsRequest {
    pub origin: String,
    pub destination: String,
    pub mode: Option<String>,
}

/// A planned route.
#[derive(Debug, Clone)]
pub struct DirectionsResponse {
    pub distance_text: String,
    pub distance_meters: i64,
    pub duration_text: String,
    pub duration_seconds: i64,
    pub start_address: String,
    pub end_address: String,
    pub steps: Vec<RouteStep>,
}

/// A point or address to check against the delivery zones. Coordinates
/// are carried as the JSON values they are sent as; each field is sent
/// only when set.
#[derive(Debug, Default)]
pub struct ValidateDeliveryZoneRequest {
    pub lat: Option<Json>,
    pub lng: Option<Json>,
    pub address: Option<String>,
    pub location_id: Option<String>,
}

pub open spec fn directions_body(req: DirectionsRequest) -> JsonValue {
    object_of(
        seq![text_member("origin"@, req.origin@), text_member("destination"@, req.destination@)]
            + opt_string_member("mode"@, req.mode),
    )
}

/// What `directions_body` builds reads back field by field: each value the
/// arguments give is found under its own name, an optional one only when
/// it is set, and a list as the same items in the same order.
pub proof fn lemma_directions_body_reads_back(req: DirectionsRequest)
    ensures
        crate::json::json_str_member(directions_body(req), "origin"@) == Some(req.origin@),
        crate::json::json_str_member(directions_body(req), "destination"@) == Some(req.destination@),
        crate::decode::field_opt_str(directions_body(req), "mode"@) == Some(crate::json::opt_string(req.mode)),
{
    assert(crate::json::json_str_member(directions_body(req), "origin"@) == Some(req.origin@)) by {
        broadcast use crate::json::lemma_member_lookup_append, crate::json::lemma_member_lookup_opt;

        lemma_directions_body_keys();
        reveal_with_fuel(crate::json::member_lookup, 3);
    }
    assert(crate::json::json_str_member(directions_body(req), "destination"@) == Some(req.destination@)) by {
        broadcast use crate::json::lemma_member_lookup_append, crate::json::lemma_member_lookup_opt;

        lemma_directions_body_keys();
        reveal_with_fuel(crate::json::member_lookup, 3);
    }
    assert(crate::decode::field_opt_str(directions_body(req), "mode"@) == Some(crate::json::opt_string(req.mode))) by {
        broadcast use crate::json::lemma_member_lookup_append, crate::json::lemma_member_lookup_opt;

        lemma_directions_body_keys();
        reveal_with_fuel(crate::json::member_lookup, 3);
    }
}

/// The field names that `directions_body` uses, told apart.
proof fn lemma_directions_body_keys()
    ensures
        "destination"@.len() == 11,
        "mode"@.len() == 4,
        "origin"@.len() == 6,
{
    reveal_strlit("destination");
    reveal_strlit("mode");
    reveal_strlit("origin");
}

pub open spec fn delivery_zone_body(req: ValidateDeliveryZoneRequest) -> JsonValue {
    object_of(
        opt_json_member("lat"@, req.lat)
            + opt_json_member("lng"@, req.lng)
            + opt_string_member("address"@, req.address)
            + opt_string_member("location_id"@, req.location_id),
    )
}

/// What `delivery_zone_body` builds reads back field by field: each value the
/// arguments give is found under its own name, an optional one only when
/// it is set, and a list as the same items in the same order.
pub proof fn lemma_delivery_zone_body_reads_back(req: ValidateDeliveryZoneRequest)
    ensures
        crate::json::json_get(delivery_zone_body(req), "lat"@) == crate::json::opt_json_view(req.lat),
        crate::json::json_get(delivery_zone_body(req), "lng"@) == crate::json::opt_json_view(req.lng),
        crate::decode::field_opt_str(delivery_zone_body(req), "address"@) == Some(crate::json::opt_string(req.address)),
        crate::decode::field_opt_str(delivery_zone_body(req), "location_id"@) == Some(crate::json::opt_string(req.location_id)),
{
    assert(crate::json::json_get(delivery_zone_body(req), "lat"@) == crate::json::opt_json_view(req.lat)) by {
        broadcast use crate::json::lemma_member_lookup_append, crate::json::lemma_member_lookup_opt;

        lemma_delivery_zone_body_keys();
        reveal_with_fuel(crate::json::member_lookup, 2);
    }
    assert(crate::json::json_get(delivery_zone_body(req), "lng"@) == crate::json::opt_json_view(req.lng)) by {
        broadcast use crate::json::lemma_member_lookup_append, crate::json::lemma_member_lookup_opt;

        lemma_delivery_zone_body_keys();
        reveal_with_fuel(crate::json::member_lookup, 2);
    }
    assert(crate::decode::field_opt_str(delivery_zone_body(req), "address"@) == Some(crate::json::opt_string(req.address))) by {
        broadcast use crate::json::lemma_member_lookup_append, crate::json::lemma_member_lookup_opt;

        lemma_delivery_zone_body_keys();
        reveal_with_fuel(crate::json::member_lookup, 2);
    }
    assert(crate::decode::field_opt_str(delivery_zone_body(req), "location_id"@) == Some(crate::json::opt_string(req.location_id))) by {
        broadcast use crate::json::lemma_member_lookup_append, crate::json::lemma_member_lookup_opt;

        lemma_delivery_zone_body_keys();
        reveal_with_fuel(crate::json::member_lookup, 2);
    }
}

/// The field names that `delivery_zone_body` uses, told apart.
proof fn lemma_delivery_zone_body_keys()
    ensures
        "address"@.len() == 7,
        "lat"@.len() == 3,
        "lat"@[1] == 'a',
        "lng"@.len() == 3,
        "lng"@[1] == 'n',
        "location_id"@.len() == 11,
{
    reveal_strlit("address");
    reveal_strlit("lat");
    reveal_strlit("lng");
    reveal_strlit("location_id");
}

// ---------------------------------------------------------------------------
// Reading responses
// ---------------------------------------------------------------------------

/// A geocoded address. The coordinates are kept as the JSON numbers the
/// server sent; the place is absent for ambiguous or partial matches.
#[derive(Debug, Clone)]
pub struct GeocodeResponse {
    pub formatted: String,
    pub lat: JsonNumber,
    pub lng: JsonNumber,
    pub place_id: Option<String>,
}

/// Whether `x` is what the object `v` reads as: the address and both
/// coordinates required, the place optional.
pub open spec fn is_geocode_response_fields_of(v: JsonValue, x: GeocodeResponse) -> bool {
    &&& is_object(v)
    &&& json_str_member(v, "formatted"@) == Some(x.formatted@)
    &&& field_number(v, "lat"@) == Some(number_view(x.lat))
    &&& field_number(v, "lng"@) == Some(number_view(x.lng))
    &&& field_opt_str(v, "place_id"@) == Some(opt_string(x.place_id))
}

/// Whether the object `v` reads as a geocoding result.
pub open spec fn reads_as_geocode_response_fields(v: JsonValue) -> bool {
    &&& is_object(v)
    &&& json_str_member(v, "formatted"@) is Some
    &&& field_number(v, "lat"@) is Some
    &&& field_number(v, "lng"@) is Some
    &&& field_opt_str(v, "place_id"@) is Some
}

/// The field names of a `GeocodeResponse`, in declaration order.
pub open spec fn geocode_response_keys() -> Seq<Seq<char>> {
    seq!["formatted"@, "lat"@, "lng"@, "place_id"@]
}

/// Which fields of a `GeocodeResponse` may be left out.
pub open spec fn geocode_response_defaults() -> Seq<bool> {
    seq![false, false, false, true]
}

/// Whether `x` is what the record document `v` (an object, or an array of
/// the fields in order) reads as.
pub open spec fn is_geocode_response_of(v: JsonValue, x: GeocodeResponse) -> bool {
    record_of(v, geocode_response_keys(), geocode_response_defaults()) matches Some(o) && is_geocode_response_fields_of(o, x)
}

/// Whether the record document `v` reads as a `GeocodeResponse`.
pub open spec fn reads_as_geocode_response(v: JsonValue) -> bool {
    record_of(v, geocode_response_keys(), geocode_response_defaults()) matches Some(o) && reads_as_geocode_response_fields(o)
}

/// The object that writes each field of a `GeocodeResponse` under its own name.
pub open spec fn geocode_response_object(x: GeocodeResponse) -> JsonValue {
    JsonValue::Object(seq![
        ("formatted"@, JsonValue::Str(x.formatted@)),
        ("lat"@, JsonValue::Number(crate::json::number_view(x.lat))),
        ("lng"@, JsonValue::Number(crate::json::number_view(x.lng))),
        ("place_id"@, crate::json::str_or_null(crate::json::opt_string(x.place_id))),
    ])
}

/// A `GeocodeResponse` whose fields are written under their own names reads back as
/// the same `GeocodeResponse`.
pub proof fn lemma_geocode_response_reads_back(x: GeocodeResponse)
    ensures
        is_geocode_response_of(geocode_response_object(x), x),
{
    let v = geocode_response_object(x);
    assert(json_str_member(v, "formatted"@) == Some(x.formatted@)) by {
        lemma_geocode_response_names();
        reveal_with_fuel(crate::json::member_lookup, 5);
    }
    assert(field_number(v, "lat"@) == Some(number_view(x.lat))) by {
        lemma_geocode_response_names();
        reveal_with_fuel(crate::json::member_lookup, 5);
    }
    assert(field_number(v, "lng"@) == Some(number_view(x.lng))) by {
        lemma_geocode_response_names();
        reveal_with_fuel(crate::json::member_lookup, 5);
    }
    assert(field_opt_str(v, "place_id"@) == Some(opt_string(x.place_id))) by {
        lemma_geocode_response_names();
        reveal_with_fuel(crate::json::member_lookup, 5);
    }
    assert(is_geocode_response_fields_of(v, x));
}

/// The field names of a `GeocodeResponse`, told apart.
proof fn lemma_geocode_response_names()
    ensures
        "formatted"@.len() == 9,
        "lat"@.len() == 3,
        "lat"@[1] == 'a',
        "lng"@.len() == 3,
        "lng"@[1] == 'n',
        "place_id"@.len() == 8,
{
    reveal_strlit("formatted");
    reveal_strlit("lat");
    reveal_strlit("lng");
    reveal_strlit("place_id");
}

impl GeocodeResponse {
    /// Reads a `GeocodeResponse` out of a document: an object, or an array of the
    /// fields in declaration order.
    pub fn from_json(v: &Json) -> (r: Option<GeocodeResponse>)
        ensures
            r is Some <==> reads_as_geocode_response(v@),
            r matches Some(x) ==> is_geocode_response_of(v@, x),
    {
        let mut keys: Vec<&str> = Vec::new();
        let mut defaults: Vec<bool> = Vec::new();
        keys.push("formatted");
        defaults.push(false);
        keys.push("lat");
        defaults.push(false);
        keys.push("lng");
        defaults.push(false);
        keys.push("place_id");
        defaults.push(true);
        proof {
            assert(keys_view(keys@) =~= geocode_response_keys());
            assert(defaults@ =~= geocode_response_defaults());
        }
        match read_record(v, &keys, &defaults) {
            Some(doc) => Self::from_fields(&doc),
            None => None,
        }
    }

    /// Reads the record out of the object it stands for.
    fn from_fields(v: &Json) -> (r: Option<GeocodeResponse>)
        ensures
            r is Some <==> reads_as_geocode_response_fields(v@),
            r matches Some(x) ==> is_geocode_response_fields_of(v@, x),
    {
        if !v.is_object() {
            return None;
        }
        let formatted = match read_str(v, "formatted") {
            Some(y) => y,
            None => return None,
        };
        let lat = match read_number(v, "lat") {
            Some(y) => y,
            None => return None,
        };
        let lng = match read_number(v, "lng") {
            Some(y) => y,
            None => return None,
        };
        let place_id = match read_opt_str(v, "place_id") {
            Some(y) => y,
            None => return None,
        };
        Some(GeocodeResponse { formatted, lat, lng, place_id })
    }
}
/// Whether `x` is what the object `v` reads as.
pub open spec fn is_route_step_fields_of(v: JsonValue, x: RouteStep) -> bool {
    &&& is_object(v)
    &&& json_str_member(v, "html_instructions"@) == Some(x.html_instructions@)
    &&& json_str_member(v, "distance_text"@) == Some(x.distance_text@)
    &&& json_str_member(v, "duration_text"@) == Some(x.duration_text@)
}

/// Whether the object `v` reads as a route step.
pub open spec fn reads_as_route_step_fields(v: JsonValue) -> bool {
    &&& is_object(v)
    &&& json_str_member(v, "html_instructions"@) is Some
    &&& json_str_member(v, "distance_text"@) is Some
    &&& json_str_member(v, "duration_text"@) is Some
}

/// The field names of a `RouteStep`, in declaration order.
pub open spec fn route_step_keys() -> Seq<Seq<char>> {
    seq!["html_instructions"@, "distance_text"@, "duration_text"@]
}

/// Which fields of a `RouteStep` may be left out.
pub open spec fn route_step_defaults() -> Seq<bool> {
    seq![false, false, false]
}

/// Whether `x` is what the record document `v` (an object, or an array of
/// the fields in order) reads as.
pub open spec fn is_route_step_of(v: JsonValue, x: RouteStep) -> bool {
    record_of(v, route_step_keys(), route_step_defaults()) matches Some(o) && is_route_step_fields_of(o, x)
}

/// Whether the record document `v` reads as a `RouteStep`.
pub open spec fn reads_as_route_step(v: JsonValue) -> bool {
    record_of(v, route_step_keys(), route_step_defaults()) matches Some(o) && reads_as_route_step_fields(o)
}

/// The object that writes each field of a `RouteStep` under its own name.
pub open spec fn route_step_object(x: RouteStep) -> JsonValue {
    JsonValue::Object(seq![
        ("html_instructions"@, JsonValue::Str(x.html_instructions@)),
        ("distance_text"@, JsonValue::Str(x.distance_text@)),
        ("duration_text"@, JsonValue::Str(x.duration_text@)),
    ])
}

/// A `RouteStep` whose fields are written under their own names reads back as
/// the same `RouteStep`.
pub proof fn lemma_route_step_reads_back(x: RouteStep)
    ensures
        is_route_step_of(route_step_object(x), x),
{
    let v = route_step_object(x);
    assert(json_str_member(v, "html_instructions"@) == Some(x.html_instructions@)) by {
        lemma_route_step_names();
        reveal_with_fuel(crate::json::member_lookup, 4);
    }
    assert(json_str_member(v, "distance_text"@) == Some(x.distance_text@)) by {
        lemma_route_step_names();
        reveal_with_fuel(crate::json::member_lookup, 4);
    }
    assert(json_str_member(v, "duration_text"@) == Some(x.duration_text@)) by {
        lemma_route_step_names();
        reveal_with_fuel(crate::json::member_lookup, 4);
    }
    assert(is_route_step_fields_of(v, x));
}

/// The field names of a `RouteStep`, told apart.
proof fn lemma_route_step_names()
    ensures
        "distance_text"@.len() == 13,
        "distance_text"@[1] == 'i',
        "duration_text"@.len() == 13,
        "duration_text"@[1] == 'u',
        "html_instructions"@.len() == 17,
{
    reveal_strlit("distance_text");
    reveal_strlit("duration_text");
    reveal_strlit("html_instructions");
}

/// Whether `l` is what the list document `x` reads as, item by item.
pub open spec fn is_route_step_items_of(x: JsonValue, l: Seq<RouteStep>) -> bool {
    &&& x is Array
    &&& l.len() == x->Array_0.len()
    &&& forall|i: int| 0 <= i < l.len() ==> is_route_step_of(x->Array_0[i], #[trigger] l[i])
}

/// Whether `x` is a list whose every item reads as one.
pub open spec fn reads_as_route_step_items(x: JsonValue) -> bool {
    &&& x is Array
    &&& forall|i: int| 0 <= i < x->Array_0.len() ==> reads_as_route_step(#[trigger] x->Array_0[i])
}

impl RouteStep {
    /// Reads a `RouteStep` out of a document: an object, or an array of the
    /// fields in declaration order.
    pub fn from_json(v: &Json) -> (r: Option<RouteStep>)
        ensures
            r is Some <==> reads_as_route_step(v@),
            r matches Some(x) ==> is_route_step_of(v@, x),
    {
        let mut keys: Vec<&str> = Vec::new();
        let mut defaults: Vec<bool> = Vec::new();
        keys.push("html_instructions");
        defaults.push(false);
        keys.push("distance_text");
        defaults.push(false);
        keys.push("duration_text");
        defaults.push(false);
        proof {
            assert(keys_view(keys@) =~= route_step_keys());
            assert(defaults@ =~= route_step_defaults());
        }
        match read_record(v, &keys, &defaults) {
            Some(doc) => Self::from_fields(&doc),
            None => None,
        }
    }

    /// Reads the record out of the object it stands for.
    fn from_fields(v: &Json) -> (r: Option<RouteStep>)
        ensures
            r is Some <==> reads_as_route_step_fields(v@),
            r matches Some(x) ==> is_route_step_fields_of(v@, x),
    {
        if !v.is_object() {
            return None;
        }
        let html_instructions = match read_str(v, "html_instructions") {
            Some(y) => y,
            None => return None,
        };
        let distance_text = match read_str(v, "distance_text") {
            Some(y) => y,
            None => return None,
        };
        let duration_text = match read_str(v, "duration_text") {
            Some(y) => y,
            None => return None,
        };
        Some(RouteStep { html_instructions, distance_text, duration_text })
    }

    /// Reads a list of route steps: an array whose every item reads as one.
    pub fn list_from_json(v: &Json) -> (r: Option<Vec<RouteStep>>)
        ensures
            r is Some <==> reads_as_route_step_items(v@),
            r matches Some(l) ==> is_route_step_items_of(v@, l@),
    {
        match v {
            Json::Array(items) => {
                let ghost whole = v@;
                let mut out: Vec<RouteStep> = Vec::new();
                let mut i: usize = 0;
                while i < items.len()
                    invariant
                        i <= items.len(),
                        whole == v@,
                        whole == crate::json::json_view(Json::Array(*items)),
                        out@.len() == i,
                        forall|k: int| 0 <= k < i ==> is_route_step_of(whole->Array_0[k], #[trigger] out@[k]),
                    decreases items.len() - i,
                {
                    assert(whole->Array_0[i as int] == items@[i as int]@);
                    match RouteStep::from_json(&items[i]) {
                        Some(a) => out.push(a),
                        None => return None,
                    }
                    i = i + 1;
                }
                assert forall|k: int| 0 <= k < whole->Array_0.len() implies reads_as_route_step(
                    #[trigger] whole->Array_0[k],
                ) by {
                    assert(is_route_step_of(whole->Array_0[k], out@[k]));
                }
                Some(out)
            },
            _ => None,
        }
    }
}
/// Whether `x` is what the object `v` reads as: the totals and
/// addresses required, no steps when absent.
pub open spec fn is_directions_response_fields_of(v: JsonValue, x: DirectionsResponse) -> bool {
    &&& is_object(v)
    &&& json_str_member(v, "distance_text"@) == Some(x.distance_text@)
    &&& field_i64(v, "distance_meters"@) == Some(x.distance_meters)
    &&& json_str_member(v, "duration_text"@) == Some(x.duration_text@)
    &&& field_i64(v, "duration_seconds"@) == Some(x.duration_seconds)
    &&& json_str_member(v, "start_address"@) == Some(x.start_address@)
    &&& json_str_member(v, "end_address"@) == Some(x.end_address@)
    &&& match json_get(v, "steps"@) {
        Some(y) => is_route_step_items_of(y, x.steps@),
        None => x.steps@.len() == 0,
    }
}

/// Whether the object `v` reads as a planned route.
pub open spec fn reads_as_directions_response_fields(v: JsonValue) -> bool {
    &&& is_object(v)
    &&& json_str_member(v, "distance_text"@) is Some
    &&& field_i64(v, "distance_meters"@) is Some
    &&& json_str_member(v, "duration_text"@) is Some
    &&& field_i64(v, "duration_seconds"@) is Some
    &&& json_str_member(v, "start_address"@) is Some
    &&& json_str_member(v, "end_address"@) is Some
    &&& match json_get(v, "steps"@) {
        Some(y) => reads_as_route_step_items(y),
        None => true,
    }
}

/// The field names of a `DirectionsResponse`, in declaration order.
pub open spec fn directions_response_keys() -> Seq<Seq<char>> {
    seq!["distance_text"@, "distance_meters"@, "duration_text"@, "duration_seconds"@, "start_address"@, "end_address"@, "steps"@]
}

/// Which fields of a `DirectionsResponse` may be left out.
pub open spec fn directions_response_defaults() -> Seq<bool> {
    seq![false, false, false, false, false, false, true]
}

/// Whether `x` is what the record document `v` (an object, or an array of
/// the fields in order) reads as.
pub open spec fn is_directions_response_of(v: JsonValue, x: DirectionsResponse) -> bool {
    record_of(v, directions_response_keys(), directions_response_defaults()) matches Some(o) && is_directions_response_fields_of(o, x)
}

/// Whether the record document `v` reads as a `DirectionsResponse`.
pub open spec fn reads_as_directions_response(v: JsonValue) -> bool {
    record_of(v, directions_response_keys(), directions_response_defaults()) matches Some(o) && reads_as_directions_response_fields(o)
}

impl DirectionsResponse {
    /// Reads a `DirectionsResponse` out of a document: an object, or an array of the
    /// fields in declaration order.
    pub fn from_json(v: &Json) -> (r: Option<DirectionsResponse>)
        ensures
            r is Some <==> reads_as_directions_response(v@),
            r matches Some(x) ==> is_directions_response_of(v@, x),
    {
        let mut keys: Vec<&str> = Vec::new();
        let mut defaults: Vec<bool> = Vec::new();
        keys.push("distance_text");
        defaults.push(false);
        keys.push("distance_meters");
        defaults.push(false);
        keys.push("duration_text");
        defaults.push(false);
        keys.push("duration_seconds");
        defaults.push(false);
        keys.push("start_address");
        defaults.push(false);
        keys.push("end_address");
        defaults.push(false);
        keys.push("steps");
        defaults.push(true);
        proof {
            assert(keys_view(keys@) =~= directions_response_keys());
            assert(defaults@ =~= directions_response_defaults());
        }
        match read_record(v, &keys, &defaults) {
            Some(doc) => Self::from_fields(&doc),
            None => None,
        }
    }

    /// Reads the record out of the object it stands for.
    fn from_fields(v: &Json) -> (r: Option<DirectionsResponse>)
        ensures
            r is Some <==> reads_as_directions_response_fields(v@),
            r matches Some(x) ==> is_directions_response_fields_of(v@, x),
    {
        if !v.is_object() {
            return None;
        }
        let distance_text = match read_str(v, "distance_text") {
            Some(y) => y,
            None => return None,
        };
        let distance_meters = match read_i64(v, "distance_meters") {
            Some(y) => y,
            None => return None,
        };
        let duration_text = match read_str(v, "duration_text") {
            Some(y) => y,
            None => return None,
        };
        let duration_seconds = match read_i64(v, "duration_seconds") {
            Some(y) => y,
            None => return None,
        };
        let start_address = match read_str(v, "start_address") {
            Some(y) => y,
            None => return None,
        };
        let end_address = match read_str(v, "end_address") {
            Some(y) => y,
            None => return None,
        };
        let steps = match v.get("steps") {
            Some(y) => match RouteStep::list_from_json(y) {
                Some(l) => l,
                None => return None,
            },
            None => Vec::new(),
        };
        Some(DirectionsResponse { distance_text, distance_meters, duration_text, duration_seconds, start_address, end_address, steps })
    }
}
/// Whether a point lies in a delivery zone, with the zone's details when
/// it does. Coordinates are kept as the JSON numbers the server sent;
/// amounts are in the smallest currency unit.
#[derive(Debug, Clone)]
pub struct ValidateDeliveryZoneResponse {
    pub in_zone: bool,
    pub lat: JsonNumber,
    pub lng: JsonNumber,
    pub zone_id: Option<String>,
    pub zone_name: Option<String>,
    pub eta_minutes: Option<i32>,
    pub delivery_fee_cents: Option<i64>,
    pub min_order_cents: Option<i64>,
    pub formatted: Option<String>,
}

/// Whether `x` is what the object `v` reads as: the verdict and the
/// coordinates required, the zone details optional.
pub open spec fn is_validate_delivery_zone_response_fields_of(v: JsonValue, x: ValidateDeliveryZoneResponse) -> bool {
    &&& is_object(v)
    &&& field_bool(v, "in_zone"@) == Some(x.in_zone)
    &&& field_number(v, "lat"@) == Some(number_view(x.lat))
    &&& field_number(v, "lng"@) == Some(number_view(x.lng))
    &&& field_opt_str(v, "zone_id"@) == Some(opt_string(x.zone_id))
    &&& field_opt_str(v, "zone_name"@) == Some(opt_string(x.zone_name))
    &&& field_opt_i32(v, "eta_minutes"@) == Some(x.eta_minutes)
    &&& field_opt_i64(v, "delivery_fee_cents"@) == Some(x.delivery_fee_cents)
    &&& field_opt_i64(v, "min_order_cents"@) == Some(x.min_order_cents)
    &&& field_opt_str(v, "formatted"@) == Some(opt_string(x.formatted))
}

/// Whether the object `v` reads as a delivery-zone verdict.
pub open spec fn reads_as_validate_delivery_zone_response_fields(v: JsonValue) -> bool {
    &&& is_object(v)
    &&& field_bool(v, "in_zone"@) is Some
    &&& field_number(v, "lat"@) is Some
    &&& field_number(v, "lng"@) is Some
    &&& field_opt_str(v, "zone_id"@) is Some
    &&& field_opt_str(v, "zone_name"@) is Some
    &&& field_opt_i32(v, "eta_minutes"@) is Some
    &&& field_opt_i64(v, "delivery_fee_cents"@) is Some
    &&& field_opt_i64(v, "min_order_cents"@) is Some
    &&& field_opt_str(v, "formatted"@) is Some
}

/// The field names of a `ValidateDeliveryZoneResponse`, in declaration order.
pub open spec fn validate_delivery_zone_response_keys() -> Seq<Seq<char>> {
    seq!["in_zone"@, "lat"@, "lng"@, "zone_id"@, "zone_name"@, "eta_minutes"@, "delivery_fee_cents"@, "min_order_cents"@, "formatted"@]
}

/// Which fields of a `ValidateDeliveryZoneResponse` may be left out.
pub open spec fn validate_delivery_zone_response_defaults() -> Seq<bool> {
    seq![false, false, false, true, true, true, true, true, true]
}

/// Whether `x` is what the record document `v` (an object, or an array of
/// the fields in order) reads as.
pub open spec fn is_validate_delivery_zone_response_of(v: JsonValue, x: ValidateDeliveryZoneResponse) -> bool {
    record_of(v, validate_delivery_zone_response_keys(), validate_delivery_zone_response_defaults()) matches Some(o) && is_validate_delivery_zone_response_fields_of(o, x)
}

/// Whether the record document `v` reads as a `ValidateDeliveryZoneResponse`.
pub open spec fn reads_as_validate_delivery_zone_response(v: JsonValue) -> bool {
    record_of(v, validate_delivery_zone_response_keys(), validate_delivery_zone_response_defaults()) matches Some(o) && reads_as_validate_delivery_zone_response_fields(o)
}

impl ValidateDeliveryZoneResponse {
    /// Reads a `ValidateDeliveryZoneResponse` out of a document: an object, or an array of the
    /// fields in declaration order.
    pub fn from_json(v: &Json) -> (r: Option<ValidateDeliveryZoneResponse>)
        ensures
            r is Some <==> reads_as_validate_delivery_zone_response(v@),
            r matches Some(x) ==> is_validate_delivery_zone_response_of(v@, x),
    {
        let mut keys: Vec<&str> = Vec::new();
        let mut defaults: Vec<bool> = Vec::new();
        keys.push("in_zone");
        defaults.push(false);
        keys.push("lat");
        defaults.push(false);
        keys.push("lng");
        defaults.push(false);
        keys.push("zone_id");
        defaults.push(true);
        keys.push("zone_name");
        defaults.push(true);
        keys.push("eta_minutes");
        defaults.push(true);
        keys.push("delivery_fee_cents");
        defaults.push(true);
        keys.push("min_order_cents");
        defaults.push(true);
        keys.push("formatted");
        defaults.push(true);
        proof {
            assert(keys_view(keys@) =~= validate_delivery_zone_response_keys());
            assert(defaults@ =~= validate_delivery_zone_response_defaults());
        }
        match read_record(v, &keys, &defaults) {
            Some(doc) => Self::from_fields(&doc),
            None => None,
        }
    }

    /// Reads the record out of the object it stands for.
    fn from_fields(v: &Json) -> (r: Option<ValidateDeliveryZoneResponse>)
        ensures
            r is Some <==> reads_as_validate_delivery_zone_response_fields(v@),
            r matches Some(x) ==> is_validate_delivery_zone_response_fields_of(v@, x),
    {
        if !v.is_object() {
            return None;
        }
        let in_zone = match read_bool(v, "in_zone") {
            Some(y) => y,
            None => return None,
        };
        let lat = match read_number(v, "lat") {
            Some(y) => y,
            None => return None,
        };
        let lng = match read_number(v, "lng") {
            Some(y) => y,
            None => return None,
        };
        let zone_id = match read_opt_str(v, "zone_id") {
            Some(y) => y,
            None => return None,
        };
        let zone_name = match read_opt_str(v, "zone_name") {
            Some(y) => y,
            None => return None,
        };
        let eta_minutes = match read_opt_i32(v, "eta_minutes") {
            Some(y) => y,
            None => return None,
        };
        let delivery_fee_cents = match read_opt_i64(v, "delivery_fee_cents") {
            Some(y) => y,
            None => return None,
        };
        let min_order_cents = match read_opt_i64(v, "min_order_cents") {
            Some(y) => y,
            None => return None,
        };
        let formatted = match read_opt_str(v, "formatted") {
            Some(y) => y,
            None => return None,
        };
        Some(ValidateDeliveryZoneResponse { in_zone, lat, lng, zone_id, zone_name, eta_minutes, delivery_fee_cents, min_order_cents, formatted })
    }
}
/// The body that [`MapsService::geocode`] sends.
pub open spec fn geocode_body(request: GeocodeRequest) -> JsonValue {
    object_of(seq![text_member("address"@, request.address@)])
}

/// What `geocode_body` builds reads back field by field: each value the
/// arguments give is found under its own name, an optional one only when
/// it is set, and a list as the same items in the same order.
pub proof fn lemma_geocode_body_reads_back(request: GeocodeRequest)
    ensures
        crate::json::json_str_member(geocode_body(request), "address"@) == Some(request.address@),
{
    assert(crate::json::json_str_member(geocode_body(request), "address"@) == Some(request.address@)) by {
        broadcast use crate::json::lemma_member_lookup_append, crate::json::lemma_member_lookup_opt;

        lemma_geocode_body_keys();
        reveal_with_fuel(crate::json::member_lookup, 2);
    }
}

/// The field names that `geocode_body` uses, told apart.
proof fn lemma_geocode_body_keys()
    ensures
        "address"@.len() == 7,
{
    reveal_strlit("address");
}

impl MapsService {
    /// Geocode an address.
    pub fn geocode(&self, request: GeocodeRequest) -> (r: ApiRequest)
        ensures
            r@ == json_request(HttpMethod::Post, "/maps/geocode"@, geocode_body(request)),
    {
        let ghost a = request.address@;
        let mut body = Members::new();
        body.put("address", Json::Str(request.address));
        assert(body@ =~= seq![text_member("address"@, a)]);
        ApiRequest::post("/maps/geocode".to_owned(), body.into_json())
    }

    /// Plan a route.
    pub fn directions(&self, request: DirectionsRequest) -> (r: ApiRequest)
        ensures
            r@ == json_request(HttpMethod::Post, "/maps/directions"@, directions_body(request)),
    {
        let ghost req = request;
        let mut body = Members::new();
        body.put("origin", Json::Str(request.origin));
        body.put("destination", Json::Str(request.destination));
        body.put_opt_string("mode", request.mode);
        assert(body@ =~= directions_body(req)->Object_0);
        ApiRequest::post("/maps/directions".to_owned(), body.into_json())
    }

    /// Check a point or address against the delivery zones.
    pub fn validate_delivery_zone(&self, request: ValidateDeliveryZoneRequest) -> (r: ApiRequest)
        ensures
            r@ == json_request(HttpMethod::Post, "/maps/delivery-zones/validate"@, delivery_zone_body(request)),
    {
        let ghost req = request;
        let mut body = Members::new();
        body.put_opt("lat", request.lat);
        body.put_opt("lng", request.lng);
        body.put_opt_string("address", request.address);
        body.put_opt_string("location_id", request.location_id);
        assert(body@ =~= delivery_zone_body(req)->Object_0);
        ApiRequest::post("/maps/delivery-zones/validate".to_owned(), body.into_json())
    }
}

} // verus!
