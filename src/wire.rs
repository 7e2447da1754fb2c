use vstd::prelude::*;
use vstd::string::*;
use crate::error::CaptureError;
use crate::event::{Event, Timestamp};
use crate::properties::{Entry, Properties};

verus! {

/// serde_json's error type, as returned by serde_json::to_string.
#[verifier::external_type_specification]
#[verifier::external_body]
pub struct ExJsonError(serde_json::Error);

/// The lower-case hexadecimal digit of `n`, for `n < 16`.
pub open spec fn hex_digit(n: u32) -> char {
    seq!['0', '1', '2', '3', '4', '5', '6', '7', '8', '9', 'a', 'b', 'c', 'd', 'e', 'f'][n as int]
}

/// How serde_json writes one character inside a string literal: quote and
/// backslash escaped by a backslash, the control characters that have a short
/// escape by it, the other characters below U+0020 as `\u00XX`, the rest as is.
pub open spec fn escape_char(c: char) -> Seq<char> {
    if c == '"' {
        seq!['\\', '"']
    } else if c == '\\' {
        seq!['\\', '\\']
    } else if c == '\u{8}' {
        seq!['\\', 'b']
    } else if c == '\t' {
        seq!['\\', 't']
    } else if c == '\n' {
        seq!['\\', 'n']
    } else if c == '\u{c}' {
        seq!['\\', 'f']
    } else if c == '\r' {
        seq!['\\', 'r']
    } else if (c as u32) < 0x20 {
        seq!['\\', 'u', '0', '0', hex_digit((c as u32) / 16), hex_digit((c as u32) % 16)]
    } else {
        seq![c]
    }
}

/// The characters of `s`, each escaped.
pub open spec fn escaped(s: Seq<char>) -> Seq<char>
    decreases s.len(),
{
    if s.len() == 0 {
        Seq::empty()
    } else {
        escaped(s.drop_last()) + escape_char(s.last())
    }
}

/// The JSON string literal that serde_json writes for the text `s`.
pub open spec fn json_string_of(s: Seq<char>) -> Seq<char> {
    seq!['"'] + escaped(s) + seq!['"']
}

/// The JSON form that chrono and serde_json give the UTC date and time `secs`
/// seconds and `nanos` nanoseconds past the Unix epoch; `None` where chrono cannot
/// represent that point in time.
pub uninterp spec fn timestamp_json_of(secs: i64, nanos: u32) -> Option<Seq<char>>;

/// Relies on serde_json::to_string on a `str`: the JSON string literal for the
/// text. A `str` serialises without error and the output goes to a `Vec`, whose
/// writes do not fail, so the call always succeeds.
#[verifier::external_body]
fn json_string(s: &str) -> (r: Result<String, serde_json::Error>)
    ensures
        r is Ok,
        r->Ok_0@ == json_string_of(s@),
{
    serde_json::to_string(s)
}

/// Relies on chrono::DateTime::from_timestamp, which gives `None` for a point in
/// time out of chrono's range, and on serde_json::to_string on the NaiveDateTime
/// of that instant.
#[verifier::external_body]
pub(crate) fn timestamp_json(secs: i64, nanos: u32) -> (r: Option<String>)
    ensures
        match r {
            Some(t) => timestamp_json_of(secs, nanos) == Some(t@),
            None => timestamp_json_of(secs, nanos) is None,
        },
{
    let instant = chrono::DateTime::from_timestamp(secs, nanos)?;
    serde_json::to_string(&instant.naive_utc()).ok()
}

/// The members of a JSON object: each pair of encoded key and value joined by
/// `:`, the pairs separated by `,`.
pub open spec fn members_text(m: Seq<Entry>) -> Seq<char>
    decreases m.len(),
{
    if m.len() == 0 {
        Seq::empty()
    } else if m.len() == 1 {
        m[0].0 + ":"@ + m[0].1
    } else {
        members_text(m.drop_last()) + ","@ + m.last().0 + ":"@ + m.last().1
    }
}

/// The envelope, from the JSON texts of its parts: the API key, the event name,
/// the distinct id, the members of the property object and the timestamp (`null`
/// when absent). The fields stand in this order, with no whitespace.
pub open spec fn envelope_text(
    api_key: Seq<char>,
    event: Seq<char>,
    distinct_id: Seq<char>,
    members: Seq<char>,
    timestamp: Option<Seq<char>>,
) -> Seq<char> {
    "{\"api_key\":"@ + api_key + ",\"event\":"@ + event + ",\"properties\":{\"distinct_id\":"@
        + distinct_id + ",\"properties\":{"@ + members + "}},\"timestamp\":"@ + match timestamp {
        Some(t) => t,
        None => "null"@,
    } + "}"@
}

/// Each key and value replaced by its JSON string literal.
pub open spec fn encoded_entries(e: Seq<Entry>) -> Seq<Entry> {
    e.map_values(|p: Entry| (json_string_of(p.0), json_string_of(p.1)))
}

/// Joins already encoded keys and values into the members of a JSON object.
pub fn frame_members(members: &Vec<(String, String)>) -> (r: String)
    ensures
        r@ == members_text(crate::properties::entries_of(members@)),
{
    let ghost e = crate::properties::entries_of(members@);
    let mut acc = String::new();
    let mut i: usize = 0;
    while i < members.len()
        invariant
            i <= members.len(),
            e == crate::properties::entries_of(members@),
            acc@ == members_text(e.take(i as int)),
        decreases members.len() - i,
    {
        if i > 0 {
            acc.append(",");
        }
        acc.append(members[i].0.as_str());
        acc.append(":");
        acc.append(members[i].1.as_str());
        assert(e.take(i + 1).drop_last() =~= e.take(i as int));
        i = i + 1;
    }
    assert(e.take(i as int) =~= e);
    acc
}

/// Frames the envelope from the JSON texts of its parts.
pub fn frame_envelope(
    api_key: &str,
    event: &str,
    distinct_id: &str,
    members: &str,
    timestamp: Option<&str>,
) -> (r: String)
    ensures
        r@ == envelope_text(
            api_key@,
            event@,
            distinct_id@,
            members@,
            match timestamp {
                Some(t) => Some(t@),
                None => None,
            },
        ),
{
    let mut acc = String::from_str("{\"api_key\":");
    acc.append(api_key);
    acc.append(",\"event\":");
    acc.append(event);
    acc.append(",\"properties\":{\"distinct_id\":");
    acc.append(distinct_id);
    acc.append(",\"properties\":{");
    acc.append(members);
    acc.append("}},\"timestamp\":");
    match timestamp {
        Some(t) => acc.append(t),
        None => acc.append("null"),
    }
    acc.append("}");
    acc
}

/// Encodes each key and value of the properties as a JSON string literal.
fn encode_entries(p: &Properties) -> (r: Result<Vec<(String, String)>, CaptureError>)
    ensures
        r is Ok,
        crate::properties::entries_of(r->Ok_0@) == encoded_entries(p.entries()),
{
    let pairs = p.pairs();
    let ghost e = p.entries();
    let mut out: Vec<(String, String)> = Vec::new();
    let mut i: usize = 0;
    while i < pairs.len()
        invariant
            i <= pairs.len(),
            e == crate::properties::entries_of(pairs@),
            e.len() == pairs.len(),
            out@.len() == i,
            crate::properties::entries_of(out@) == encoded_entries(e).take(i as int),
        decreases pairs.len() - i,
    {
        let k = match json_string(pairs[i].0.as_str()) {
            Ok(k) => k,
            Err(_) => return Err(CaptureError::Encoding),
        };
        let v = match json_string(pairs[i].1.as_str()) {
            Ok(v) => v,
            Err(_) => return Err(CaptureError::Encoding),
        };
        let ghost kv = (k@, v@);
        assert(e[i as int] == (pairs@[i as int].0@, pairs@[i as int].1@));
        assert(encoded_entries(e)[i as int] == kv);
        let ghost before = out@;
        out.push((k, v));
        assert forall|j: int| 0 <= j < i + 1 implies #[trigger] crate::properties::entries_of(
            out@,
        )[j] == encoded_entries(e)[j] by {
            if j < i {
                assert(out@[j] == before[j]);
                assert(crate::properties::entries_of(before)[j] == encoded_entries(e).take(
                    i as int,
                )[j]);
            }
        }
        assert(crate::properties::entries_of(out@) =~= encoded_entries(e).take(i + 1));
        i = i + 1;
    }
    assert(encoded_entries(e).take(i as int) =~= encoded_entries(e));
    Ok(out)
}

/// The JSON text of the envelope of an event with the given name, properties and
/// timestamp under `api_key`.
pub open spec fn wire_text_of(
    api_key: Seq<char>,
    name: Seq<char>,
    properties: Properties,
    timestamp: Option<Timestamp>,
) -> Seq<char> {
    envelope_text(
        json_string_of(api_key),
        json_string_of(name),
        json_string_of(properties.distinct_id()),
        members_text(encoded_entries(properties.entries())),
        match timestamp {
            Some(t) => timestamp_json_of(t.secs(), t.nanos()),
            None => None,
        },
    )
}

/// The envelope sent for one event: the API key alongside the event's fields.
#[derive(Debug)]
pub struct InnerEvent {
    api_key: String,
    event: String,
    properties: Properties,
    timestamp: Option<Timestamp>,
}

impl InnerEvent {
    pub closed spec fn api_key(&self) -> Seq<char> {
        self.api_key@
    }

    pub closed spec fn name(&self) -> Seq<char> {
        self.event@
    }

    pub closed spec fn properties(&self) -> Properties {
        self.properties
    }

    pub closed spec fn timestamp(&self) -> Option<Timestamp> {
        self.timestamp
    }

    /// The JSON text of the envelope.
    pub open spec fn wire_text(&self) -> Seq<char> {
        wire_text_of(self.api_key(), self.name(), self.properties(), self.timestamp())
    }

    /// The envelope of `event` under `api_key`.
    pub fn new(event: Event, api_key: String) -> (r: InnerEvent)
        ensures
            r.api_key() == api_key@,
            r.name() == event.name(),
            r.properties() == event.properties(),
            r.timestamp() == event.timestamp(),
    {
        let (name, properties, timestamp) = event.into_parts();
        InnerEvent { api_key, event: name, properties, timestamp }
    }

    /// Serialises the envelope as compact JSON: `api_key`, `event`, `properties`
    /// (with `distinct_id` and the property object) and `timestamp`, in this order.
    pub fn to_json(&self) -> (r: Result<String, CaptureError>)
        ensures
            r is Ok,
            r->Ok_0@ == self.wire_text(),
    {
        let ts = match self.timestamp {
            Some(t) => Some(t.to_json()),
            None => None,
        };
        let api_key = match json_string(self.api_key.as_str()) {
            Ok(s) => s,
            Err(_) => return Err(CaptureError::Encoding),
        };
        let event = match json_string(self.event.as_str()) {
            Ok(s) => s,
            Err(_) => return Err(CaptureError::Encoding),
        };
        let distinct_id = match json_string(self.properties.distinct_id_str()) {
            Ok(s) => s,
            Err(_) => return Err(CaptureError::Encoding),
        };
        let entries = encode_entries(&self.properties)?;
        let members = frame_members(&entries);
        let r = match ts {
            Some(t) => frame_envelope(
                api_key.as_str(),
                event.as_str(),
                distinct_id.as_str(),
                members.as_str(),
                Some(t.as_str()),
            ),
            None => frame_envelope(
                api_key.as_str(),
                event.as_str(),
                distinct_id.as_str(),
                members.as_str(),
                None,
            ),
        };
        Ok(r)
    }
}

} // verus!
