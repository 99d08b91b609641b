//! One-line encoding of a [`Log`] as a JSON object, and decoding back.
//!
//! The object is built and read through serde_json; the library models an
//! object by the text fields and the unsigned-integer fields it holds.

use vstd::prelude::*;
use vstd::string::*;
use crate::record::{Log, LogView};

verus! {

#[verifier::external_type_specification]
#[verifier::external_body]
pub struct ExJsonValue(serde_json::Value);

#[verifier::external_type_specification]
#[verifier::external_body]
#[verifier::reject_recursive_types(K)]
#[verifier::reject_recursive_types(V)]
pub struct ExJsonMap<K, V>(serde_json::Map<K, V>);

/// A JSON object as serde_json holds it.
pub type JsonObject = serde_json::Map<String, serde_json::Value>;

/// The members of an object whose value is a JSON string.
pub uninterp spec fn text_members(m: serde_json::Map<String, serde_json::Value>) -> Map<Seq<char>, Seq<char>>;

/// The members of an object whose value is an integer that `Value::as_u64`
/// reads as a `u64`.
pub uninterp spec fn uint_members(m: serde_json::Map<String, serde_json::Value>) -> Map<Seq<char>, u64>;

/// The keys of all members of an object, whatever their values.
pub uninterp spec fn member_keys(m: serde_json::Map<String, serde_json::Value>) -> Set<Seq<char>>;

/// The text and integer members of the object that serde_json reads from a
/// text, `None` where the text is not one JSON object.
pub uninterp spec fn parsed_members(s: Seq<char>) -> Option<(Map<Seq<char>, Seq<char>>, Map<Seq<char>, u64>)>;

/// The compact JSON text of an object whose members are these text and
/// integer members.
pub uninterp spec fn object_json(text: Map<Seq<char>, Seq<char>>, uint: Map<Seq<char>, u64>) -> Seq<char>;

/// Relies on serde_json::Map::new: a new object has no members.
#[verifier::external_body]
fn empty_object() -> (r: JsonObject)
    ensures
        forall|k: Seq<char>| !member_keys(r).contains(k),
        forall|k: Seq<char>| !text_members(r).contains_key(k),
        forall|k: Seq<char>| !uint_members(r).contains_key(k),
{
    serde_json::Map::new()
}

/// Relies on serde_json::Map::insert with a `Value::String`: the key now
/// holds that text, replacing what it held.
#[verifier::external_body]
fn put_text(m: &mut JsonObject, key: &str, value: &str)
    ensures
        text_members(*final(m)) == text_members(*old(m)).insert(key@, value@),
        uint_members(*final(m)) == uint_members(*old(m)).remove(key@),
        member_keys(*final(m)) == member_keys(*old(m)).insert(key@),
{
    m.insert(key.to_string(), serde_json::Value::String(value.to_string()));
}

/// Relies on serde_json::Map::insert with a number made from a `u64`: the
/// key now holds that number, replacing what it held.
#[verifier::external_body]
fn put_uint(m: &mut JsonObject, key: &str, value: u64)
    ensures
        uint_members(*final(m)) == uint_members(*old(m)).insert(key@, value),
        text_members(*final(m)) == text_members(*old(m)).remove(key@),
        member_keys(*final(m)) == member_keys(*old(m)).insert(key@),
{
    m.insert(key.to_string(), serde_json::Value::from(value));
}

/// Relies on serde_json::Map::get: the text that a key holds, if it holds a string.
#[verifier::external_body]
fn text_at(m: &JsonObject, key: &str) -> (r: Option<String>)
    ensures
        match r {
            Some(s) => text_members(*m).contains_key(key@) && text_members(*m)[key@] == s@,
            None => !text_members(*m).contains_key(key@),
        },
{
    match m.get(key) {
        Some(serde_json::Value::String(s)) => Some(s.clone()),
        _ => None,
    }
}

/// Relies on serde_json::Map::get and Value::as_u64: the number that a key
/// holds, if it holds one that fits in a `u64`.
#[verifier::external_body]
fn uint_at(m: &JsonObject, key: &str) -> (r: Option<u64>)
    ensures
        match r {
            Some(n) => uint_members(*m).contains_key(key@) && uint_members(*m)[key@] == n,
            None => !uint_members(*m).contains_key(key@),
        },
{
    match m.get(key) {
        Some(v) => v.as_u64(),
        None => None,
    }
}

/// Relies on the Display impl of serde_json::Value on an object whose every
/// member is a string or a `u64`: compact JSON text, a function of those
/// members, which escapes control characters inside strings and so holds no
/// line break, and which serde_json::from_str reads back to the same members.
#[verifier::external_body]
fn object_text(m: JsonObject) -> (r: String)
    requires
        forall|k: Seq<char>|
            member_keys(m).contains(k) ==> text_members(m).contains_key(k)
                || uint_members(m).contains_key(k),
    ensures
        r@ == object_json(text_members(m), uint_members(m)),
        !r@.contains('\n'),
        parsed_members(r@) == Some((text_members(m), uint_members(m))),
{
    serde_json::Value::Object(m).to_string()
}

/// Relies on serde_json::from_str for an object: `None` where the text is
/// not one JSON object.
#[verifier::external_body]
fn parse_object(line: &str) -> (r: Option<JsonObject>)
    ensures
        match r {
            Some(m) => parsed_members(line@) == Some((text_members(m), uint_members(m))),
            None => parsed_members(line@) is None,
        },
{
    serde_json::from_str::<JsonObject>(line).ok()
}

/// The text members of the object that encodes `r`.
pub open spec fn record_text_members(r: LogView) -> Map<Seq<char>, Seq<char>> {
    Map::empty().insert("location_id"@, r.location_id).insert("device_id"@, r.device_id).insert(
        "log_type"@,
        r.log_type,
    ).insert("log_message"@, r.log_message)
}

/// The numeric members of the object that encodes `r`.
pub open spec fn record_uint_members(r: LogView) -> Map<Seq<char>, u64> {
    Map::empty().insert("log_level"@, r.log_level as u64)
}

/// The record that an object with these members decodes to: `None` where a
/// text field is missing or the level is missing, not a number, or above `u32::MAX`.
pub open spec fn record_from_members(
    text: Map<Seq<char>, Seq<char>>,
    uint: Map<Seq<char>, u64>,
) -> Option<LogView> {
    if text.contains_key("location_id"@) && text.contains_key("device_id"@) && uint.contains_key(
        "log_level"@,
    ) && uint["log_level"@] <= u32::MAX && text.contains_key("log_type"@) && text.contains_key(
        "log_message"@,
    ) {
        Some(
            LogView {
                location_id: text["location_id"@],
                device_id: text["device_id"@],
                log_level: uint["log_level"@] as u32,
                log_type: text["log_type"@],
                log_message: text["log_message"@],
            },
        )
    } else {
        None
    }
}

/// The line that encodes a record.
pub open spec fn record_line(r: LogView) -> Seq<char> {
    object_json(record_text_members(r), record_uint_members(r))
}

/// The record that a line decodes to, `None` where it is not a JSON object
/// or does not match the record schema.
pub open spec fn decode_line(s: Seq<char>) -> Option<LogView> {
    match parsed_members(s) {
        Some((text, uint)) => record_from_members(text, uint),
        None => None,
    }
}

/// A stored line does not match the record schema.
pub struct DecodeError {
    pub line: String,
}

proof fn lemma_field_keys_distinct()
    ensures
        "location_id"@ != "device_id"@,
        "location_id"@ != "log_type"@,
        "location_id"@ != "log_message"@,
        "location_id"@ != "log_level"@,
        "device_id"@ != "log_type"@,
        "device_id"@ != "log_message"@,
        "device_id"@ != "log_level"@,
        "log_type"@ != "log_message"@,
        "log_type"@ != "log_level"@,
        "log_message"@ != "log_level"@,
{
    reveal_strlit("location_id");
    reveal_strlit("device_id");
    reveal_strlit("log_type");
    reveal_strlit("log_message");
    reveal_strlit("log_level");
    assert("location_id"@[1] != "device_id"@[1]);
    assert("location_id"@[2] != "log_type"@[2]);
    assert("location_id"@[2] != "log_message"@[2]);
    assert("location_id"@[2] != "log_level"@[2]);
    assert("device_id"@[0] != "log_type"@[0]);
    assert("device_id"@[0] != "log_message"@[0]);
    assert("device_id"@[0] != "log_level"@[0]);
    assert("log_type"@[4] != "log_message"@[4]);
    assert("log_type"@[4] != "log_level"@[4]);
    assert("log_message"@.len() != "log_level"@.len());
}

impl Log {
    /// The JSON object holding the record's five fields.
    pub fn to_object(&self) -> (r: JsonObject)
        ensures
            text_members(r) == record_text_members(self@),
            uint_members(r) == record_uint_members(self@),
            forall|k: Seq<char>|
                member_keys(r).contains(k) ==> text_members(r).contains_key(k)
                    || uint_members(r).contains_key(k),
    {
        let mut m = empty_object();
        put_text(&mut m, "location_id", self.location_id.as_str());
        put_text(&mut m, "device_id", self.device_id.as_str());
        put_uint(&mut m, "log_level", self.log_level as u64);
        put_text(&mut m, "log_type", self.log_type.as_str());
        put_text(&mut m, "log_message", self.log_message.as_str());
        proof {
            lemma_field_keys_distinct();
            assert(text_members(m) =~= record_text_members(self@));
            assert(uint_members(m) =~= record_uint_members(self@));
        }
        m
    }

    /// The record as one line of JSON text, without a line break; decoding
    /// the line gives the record back.
    pub fn to_line(&self) -> (r: String)
        ensures
            r@ == record_line(self@),
            !r@.contains('\n'),
            decode_line(r@) == Some(self@),
    {
        let m = self.to_object();
        let r = object_text(m);
        proof {
            lemma_object_round_trip(self@);
        }
        r
    }

    /// Reads a record from the members of a JSON object.
    pub fn from_object(m: &JsonObject) -> (r: Option<Log>)
        ensures
            match r {
                Some(log) => record_from_members(text_members(*m), uint_members(*m)) == Some(log@),
                None => record_from_members(text_members(*m), uint_members(*m)) is None,
            },
    {
        let location_id = match text_at(m, "location_id") {
            Some(s) => s,
            None => return None,
        };
        let device_id = match text_at(m, "device_id") {
            Some(s) => s,
            None => return None,
        };
        let level = match uint_at(m, "log_level") {
            Some(n) => n,
            None => return None,
        };
        if level > u32::MAX as u64 {
            return None;
        }
        let log_type = match text_at(m, "log_type") {
            Some(s) => s,
            None => return None,
        };
        let log_message = match text_at(m, "log_message") {
            Some(s) => s,
            None => return None,
        };
        Some(Log { location_id, device_id, log_level: level as u32, log_type, log_message })
    }

    /// Decodes one stored line; the error carries the line.
    pub fn from_str(json_string: &str) -> (r: Result<Log, DecodeError>)
        ensures
            match r {
                Ok(log) => decode_line(json_string@) == Some(log@),
                Err(e) => decode_line(json_string@) is None && e.line@ == json_string@,
            },
    {
        match parse_object(json_string) {
            Some(m) => match Log::from_object(&m) {
                Some(log) => Ok(log),
                None => Err(DecodeError { line: String::from_str(json_string) }),
            },
            None => Err(DecodeError { line: String::from_str(json_string) }),
        }
    }
}

/// Reading back the object that encodes a record gives that record: every
/// field is present, the level is numeric, and each value is the one written.
pub proof fn lemma_object_round_trip(r: LogView)
    ensures
        record_from_members(record_text_members(r), record_uint_members(r)) == Some(r),
{
    lemma_field_keys_distinct();
}

/// An object that lacks one of the text fields, or whose level is not a
/// number that fits in a `u32`, decodes to nothing.
pub proof fn lemma_missing_field_rejected(
    text: Map<Seq<char>, Seq<char>>,
    uint: Map<Seq<char>, u64>,
)
    requires
        !text.contains_key("location_id"@) || !text.contains_key("device_id"@)
            || !text.contains_key("log_type"@) || !text.contains_key("log_message"@)
            || !uint.contains_key("log_level"@) || uint["log_level"@] > u32::MAX,
    ensures
        record_from_members(text, uint) is None,
{
}

} // verus!
