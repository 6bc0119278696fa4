//! Instants and identifiers as the wire carries them: RFC 3339 date-times,
//! read with `chrono`, and UUIDs, read with `uuid`.

use vstd::prelude::*;
use crate::json::{json_str_member, Json, JsonValue};

verus! {

/// An instant in UTC: whole seconds since the Unix epoch, and the
/// nanoseconds past that second.
#[derive(Clone, Copy, Debug, PartialEq, Eq, Structural)]
pub struct UtcTime {
    pub secs: i64,
    pub nanos: u32,
}

/// What `chrono` reads an RFC 3339 text as, moved to UTC: the seconds since
/// the epoch and the nanoseconds past them, or `None` when `chrono` rejects
/// the text.
pub uninterp spec fn rfc3339_utc(text: Seq<char>) -> Option<(i64, u32)>;

/// The instant a text denotes, through
/// `str::parse::<chrono::DateTime<chrono::FixedOffset>>` followed by
/// `with_timezone(&Utc)`, `timestamp` and `timestamp_subsec_nanos` — the
/// path by which `chrono` deserializes a `DateTime<Utc>`. The contract
/// names the result; which texts are accepted is `chrono`'s relaxed RFC
/// 3339 grammar, not restated here.
#[verifier::external_body]
fn parse_rfc3339_utc(text: &str) -> (r: Option<UtcTime>)
    ensures
        match r {
            Some(t) => rfc3339_utc(text@) == Some((t.secs, t.nanos)),
            None => rfc3339_utc(text@) is None,
        },
{
    match text.parse::<chrono::DateTime<chrono::FixedOffset>>() {
        Ok(d) => {
            let u = d.with_timezone(&chrono::Utc);
            Some(UtcTime { secs: u.timestamp(), nanos: u.timestamp_subsec_nanos() })
        },
        Err(_) => None,
    }
}

/// The value of a hex digit, in either case.
pub open spec fn hex_char_value(c: char) -> Option<int> {
    if exists|i: int| 0 <= i < 16 && ("0123456789abcdef"@[i] == c || "0123456789ABCDEF"@[i] == c) {
        Some(choose|i: int| 0 <= i < 16 && ("0123456789abcdef"@[i] == c || "0123456789ABCDEF"@[i] == c))
    } else {
        None
    }
}

/// The number a text of hex digits writes, most significant digit first.
pub open spec fn hex_number(s: Seq<char>) -> Option<int>
    decreases s.len(),
{
    if s.len() == 0 {
        Some(0)
    } else {
        match (hex_number(s.drop_last()), hex_char_value(s.last())) {
            (Some(v), Some(d)) => Some(v * 16 + d),
            _ => None,
        }
    }
}

/// The UUID that 32 hex digits write, as a 128-bit number.
pub open spec fn simple_uuid_value(s: Seq<char>) -> Option<u128> {
    if s.len() == 32 {
        match hex_number(s) {
            Some(n) => Some(n as u128),
            None => None,
        }
    } else {
        None
    }
}

/// The UUID of a hyphenated text: groups of 8, 4, 4, 4 and 12 hex digits
/// with a `-` between each two.
pub open spec fn hyphenated_uuid_value(s: Seq<char>) -> Option<u128> {
    if s.len() == 36 && s[8] == '-' && s[13] == '-' && s[18] == '-' && s[23] == '-' {
        simple_uuid_value(
            s.subrange(0, 8) + s.subrange(9, 13) + s.subrange(14, 18) + s.subrange(19, 23) + s.subrange(24, 36),
        )
    } else {
        None
    }
}

/// Whether `p` is `urn:uuid:` in any mix of letter cases.
pub open spec fn is_urn_uuid_prefix(p: Seq<char>) -> bool {
    &&& p.len() == 9
    &&& forall|i: int| 0 <= i < 9 ==> p[i] == "urn:uuid:"@[i] || p[i] == "URN:UUID:"@[i]
}

/// The UUID a text writes, as a 128-bit number: 32 hex digits, the
/// hyphenated form, the hyphenated form in braces, or the hyphenated form
/// after `urn:uuid:`; `None` for any other text.
pub open spec fn uuid_value(s: Seq<char>) -> Option<u128> {
    if s.len() == 32 {
        simple_uuid_value(s)
    } else if s.len() == 36 {
        hyphenated_uuid_value(s)
    } else if s.len() == 38 && s[0] == '{' && s[37] == '}' {
        hyphenated_uuid_value(s.subrange(1, 37))
    } else if s.len() == 45 && is_urn_uuid_prefix(s.subrange(0, 9)) {
        hyphenated_uuid_value(s.subrange(9, 45))
    } else {
        None
    }
}

/// `uuid::Uuid::parse_str`, the result taken as `Uuid::as_u128`: the
/// number that `uuid_value` spells out, or `None` where it refuses the text.
#[verifier::external_body]
fn parse_uuid(text: &str) -> (r: Option<u128>)
    ensures
        r == uuid_value(text@),
{
    uuid::Uuid::parse_str(text).ok().map(|u| u.as_u128())
}

/// A required date-time field: a string that reads as an instant.
pub open spec fn field_utc_time(v: JsonValue, key: Seq<char>) -> Option<(i64, u32)> {
    match json_str_member(v, key) {
        Some(s) => rfc3339_utc(s),
        None => None,
    }
}

/// A required UUID field: a string that reads as a UUID.
pub open spec fn field_uuid(v: JsonValue, key: Seq<char>) -> Option<u128> {
    match json_str_member(v, key) {
        Some(s) => uuid_value(s),
        None => None,
    }
}

/// Reads a required date-time field.
pub fn read_utc_time(v: &Json, key: &str) -> (r: Option<UtcTime>)
    ensures
        match r {
            Some(t) => field_utc_time(v@, key@) == Some((t.secs, t.nanos)),
            None => field_utc_time(v@, key@) is None,
        },
{
    match v.str_member(key) {
        Some(s) => parse_rfc3339_utc(s.as_str()),
        None => None,
    }
}

/// Reads a required UUID field.
pub fn read_uuid(v: &Json, key: &str) -> (r: Option<u128>)
    ensures
        r == field_uuid(v@, key@),
{
    match v.str_member(key) {
        Some(s) => parse_uuid(s.as_str()),
        None => None,
    }
}

} // verus!
