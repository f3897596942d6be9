use vstd::prelude::*;
use vstd::string::StrSliceExecFns;
use vstd::utf8::{decode_utf8, valid_utf8};

use crate::song::{song_from_event, song_of_event, EventData, IncomingEvent, SongData, SongInfo};

verus! {

// ---------------------------------------------------------------------------
// Trusted boundary: UTF-8 decoding, Unicode whitespace, JSON payload decoding.
// ---------------------------------------------------------------------------

/// Relies on `String::from_utf8`: it succeeds exactly on valid UTF-8 input and
/// returns the text those bytes encode.
#[verifier::external_body]
fn bytes_to_string(bytes: &[u8]) -> (r: Option<String>)
    ensures
        r is Some <==> valid_utf8(bytes@),
        r matches Some(s) ==> s@ == decode_utf8(bytes@),
{
    String::from_utf8(bytes.to_vec()).ok()
}

/// Whether a character has the Unicode `White_Space` property; the property of
/// the character alone.
pub uninterp spec fn is_unicode_whitespace(c: char) -> bool;

/// Relies on `char::is_whitespace`: true exactly for characters with the
/// Unicode `White_Space` property.
#[verifier::external_body]
fn is_whitespace_char(c: char) -> (r: bool)
    ensures
        r == is_unicode_whitespace(c),
{
    c.is_whitespace()
}

/// What the JSON decoder yields for an event payload: the optional string
/// members "title" and "artist" of a JSON object, or nothing when the text is
/// not such an object. The result depends on the text alone.
pub uninterp spec fn json_event_of(text: Seq<char>) -> Option<EventData>;

/// The view of an optional decoded frame.
pub open spec fn opt_event_view(e: Option<IncomingEvent>) -> Option<EventData> {
    match e {
        Some(ev) => Some(ev@),
        None => None,
    }
}

/// Relies on `serde_json::from_str`: parses the payload as a JSON object and
/// takes its "title" and "artist" members, each of which must be a string or
/// null (an absent or null member is an absent field; any other value, or a
/// payload that is not a JSON object, fails the whole frame). A duplicated
/// member keeps its last occurrence, as `serde_json::Map` does.
#[verifier::external_body]
fn decode_event_json(text: &str) -> (r: Option<IncomingEvent>)
    ensures
        opt_event_view(r) == json_event_of(text@),
{
    let mut object: serde_json::Map<String, serde_json::Value> = serde_json::from_str(text).ok()?;
    let title = match object.remove("title") {
        None | Some(serde_json::Value::Null) => None,
        Some(serde_json::Value::String(t)) => Some(t),
        Some(_) => return None,
    };
    let artist = match object.remove("artist") {
        None | Some(serde_json::Value::Null) => None,
        Some(serde_json::Value::String(a)) => Some(a),
        Some(_) => return None,
    };
    Some(IncomingEvent { title, artist })
}

// ---------------------------------------------------------------------------
// Framing: "data: <json>" lines, parsed one chunk at a time.
// ---------------------------------------------------------------------------

/// The prefix that marks an event line.
pub open spec fn data_prefix() -> Seq<char> {
    "data: "@
}

/// Whether the text begins with the event-line prefix.
pub open spec fn begins_with_data_spec(s: Seq<char>) -> bool {
    s.len() >= 6 && s.subrange(0, 6) == data_prefix()
}

/// The text without leading whitespace.
pub open spec fn trim_start_spec(s: Seq<char>) -> Seq<char>
    decreases s.len(),
{
    if s.len() > 0 && is_unicode_whitespace(s[0]) {
        trim_start_spec(s.skip(1))
    } else {
        s
    }
}

/// The text without trailing whitespace.
pub open spec fn trim_end_spec(s: Seq<char>) -> Seq<char>
    decreases s.len(),
{
    if s.len() > 0 && is_unicode_whitespace(s[s.len() - 1]) {
        trim_end_spec(s.take(s.len() - 1))
    } else {
        s
    }
}

/// The text without leading or trailing whitespace.
pub open spec fn trim_spec(s: Seq<char>) -> Seq<char> {
    trim_end_spec(trim_start_spec(s))
}

/// What one chunk of text yields: the decoded payload of an event line, or
/// nothing for other lines and for payloads that fail to decode. Exactly one
/// prefix is removed, and only whitespace is trimmed before the JSON parse.
pub open spec fn text_event(s: Seq<char>) -> Option<EventData> {
    if begins_with_data_spec(s) {
        json_event_of(trim_spec(s.skip(6)))
    } else {
        None
    }
}

/// The outcome of one raw transport chunk.
pub enum ChunkOutcome {
    /// The chunk was not valid UTF-8; the connection is treated as failed.
    Invalid,
    /// No event: a keep-alive/comment line, a partial frame, or a payload
    /// that failed to decode. Silently skipped.
    Ignored,
    /// One decoded update, already defaulted to a full snapshot value.
    Update(SongInfo),
}

/// Mathematical model of a `ChunkOutcome`.
pub ghost enum ChunkOutcomeData {
    Invalid,
    Ignored,
    Update(SongData),
}

impl View for ChunkOutcome {
    type V = ChunkOutcomeData;

    open spec fn view(&self) -> ChunkOutcomeData {
        match self {
            ChunkOutcome::Invalid => ChunkOutcomeData::Invalid,
            ChunkOutcome::Ignored => ChunkOutcomeData::Ignored,
            ChunkOutcome::Update(s) => ChunkOutcomeData::Update(s@),
        }
    }
}

/// What a raw chunk yields once decoded and framed.
pub open spec fn chunk_outcome_spec(bytes: Seq<u8>) -> ChunkOutcomeData {
    if !valid_utf8(bytes) {
        ChunkOutcomeData::Invalid
    } else {
        match text_event(decode_utf8(bytes)) {
            Some(d) => ChunkOutcomeData::Update(song_of_event(d)),
            None => ChunkOutcomeData::Ignored,
        }
    }
}

/// Law: a chunk whose text does not begin with the event-line prefix yields
/// no decoded event; it is never an update.
pub proof fn lemma_non_data_chunk_yields_no_event(bytes: Seq<u8>)
    requires
        valid_utf8(bytes) ==> !begins_with_data_spec(decode_utf8(bytes)),
    ensures
        !(chunk_outcome_spec(bytes) is Update),
{
}

/// Checks for the event-line prefix.
fn begins_with_data(s: &str) -> (r: bool)
    ensures
        r == begins_with_data_spec(s@),
{
    proof {
        reveal_strlit("data: ");
    }
    if s.unicode_len() < 6 {
        return false;
    }
    let r = s.get_char(0) == 'd' && s.get_char(1) == 'a' && s.get_char(2) == 't'
        && s.get_char(3) == 'a' && s.get_char(4) == ':' && s.get_char(5) == ' ';
    proof {
        if r {
            assert(s@.subrange(0, 6) =~= data_prefix());
        }
        if s@.subrange(0, 6) == data_prefix() {
            assert(s@[0] == s@.subrange(0, 6)[0]);
            assert(s@[1] == s@.subrange(0, 6)[1]);
            assert(s@[2] == s@.subrange(0, 6)[2]);
            assert(s@[3] == s@.subrange(0, 6)[3]);
            assert(s@[4] == s@.subrange(0, 6)[4]);
            assert(s@[5] == s@.subrange(0, 6)[5]);
        }
    }
    r
}

/// Removes leading and trailing whitespace.
fn trim_str<'a>(s: &'a str) -> (r: &'a str)
    ensures
        r@ == trim_spec(s@),
{
    let mut rest = s;
    while rest.unicode_len() > 0 && is_whitespace_char(rest.get_char(0))
        invariant
            trim_start_spec(rest@) == trim_start_spec(s@),
        decreases rest@.len(),
    {
        let ghost before: Seq<char> = rest@;
        let n = rest.unicode_len();
        rest = rest.substring_char(1, n);
        proof {
            assert(rest@ =~= before.skip(1));
        }
    }
    let mut out = rest;
    while out.unicode_len() > 0 && is_whitespace_char(out.get_char(out.unicode_len() - 1))
        invariant
            rest@ == trim_start_spec(s@),
            trim_end_spec(out@) == trim_end_spec(rest@),
        decreases out@.len(),
    {
        let ghost before: Seq<char> = out@;
        let n = out.unicode_len();
        out = out.substring_char(0, n - 1);
        proof {
            assert(out@ =~= before.take(before.len() - 1));
        }
    }
    out
}

/// Extracts the decoded event carried by one chunk of text, if any: the JSON
/// payload after an event line's single prefix, with other lines and
/// malformed payloads yielding none.
pub fn parse_event_text(s: &str) -> (r: Option<IncomingEvent>)
    ensures
        opt_event_view(r) == text_event(s@),
{
    if !begins_with_data(s) {
        return None;
    }
    let n = s.unicode_len();
    let stripped = s.substring_char(6, n);
    proof {
        assert(stripped@ =~= s@.skip(6));
    }
    let payload = trim_str(stripped);
    decode_event_json(payload)
}

/// Processes one raw transport chunk: decodes it as UTF-8, frames it, and
/// converts a decoded event into the full snapshot value.
pub fn process_chunk(chunk: &[u8]) -> (r: ChunkOutcome)
    ensures
        r@ == chunk_outcome_spec(chunk@),
{
    let text = match bytes_to_string(chunk) {
        Some(t) => t,
        None => {
            return ChunkOutcome::Invalid;
        },
    };
    match parse_event_text(text.as_str()) {
        Some(e) => ChunkOutcome::Update(song_from_event(e)),
        None => ChunkOutcome::Ignored,
    }
}

} // verus!
