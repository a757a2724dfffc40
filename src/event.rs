//! The event decoder: turns the payload of one frame into exactly one event.
//!
//! A payload is first read as a completion chunk (the success schema); only
//! when it is not one is it read as an error report (the error schema). A
//! payload that is not JSON at all, or that is JSON of neither shape, is a
//! decode failure.
use crate::json::{json_node_of, parse_json_node, JsonNode};
use vstd::prelude::*;
use vstd::string::*;

verus! {

/// Why a payload could not be decoded.
#[derive(Debug, Clone, Copy, PartialEq, Eq, Structural)]
pub enum DecodeCause {
    /// The payload is not well-formed JSON.
    Syntax,
    /// The payload is JSON, but neither a completion chunk nor an error report.
    Schema,
}

/// What one frame's payload means.
#[derive(Debug, PartialEq, Eq)]
pub enum Event {
    /// A completion chunk; `text` is its content delta, if it carries one.
    ContentDelta { text: Option<String> },
    /// An error report from the server, with its declared type and message.
    ServerError { kind: Option<String>, message: Option<String> },
    /// A payload that could not be decoded.
    DecodeFailure { raw: Vec<u8>, cause: DecodeCause },
}

/// The mathematical value of an [`Event`].
pub enum EventView {
    ContentDelta { text: Option<Seq<char>> },
    ServerError { kind: Option<Seq<char>>, message: Option<Seq<char>> },
    DecodeFailure { raw: Seq<u8>, cause: DecodeCause },
}

pub open spec fn opt_view(o: Option<String>) -> Option<Seq<char>> {
    match o {
        Some(s) => Some(s@),
        None => None,
    }
}

impl View for Event {
    type V = EventView;

    open spec fn view(&self) -> EventView {
        match self {
            Event::ContentDelta { text } => EventView::ContentDelta { text: opt_view(*text) },
            Event::ServerError { kind, message } => EventView::ServerError {
                kind: opt_view(*kind),
                message: opt_view(*message),
            },
            Event::DecodeFailure { raw, cause } => EventView::DecodeFailure { raw: raw@, cause: *cause },
        }
    }
}

/// The JSON text of the first member of an object named `key`.
pub open spec fn field(entries: Seq<(String, Vec<u8>)>, key: Seq<char>) -> Option<Seq<u8>>
    decreases entries.len(),
{
    if entries.len() == 0 {
        None
    } else if entries[0].0@ == key {
        Some(entries[0].1@)
    } else {
        field(entries.drop_first(), key)
    }
}

/// The parsed value of member `key`: `None` when the object has no such member.
pub open spec fn field_node(entries: Seq<(String, Vec<u8>)>, key: Seq<char>) -> Option<Option<JsonNode>> {
    match field(entries, key) {
        Some(t) => Some(json_node_of(t)),
        None => None,
    }
}

/// A member that must be present and a string.
pub open spec fn is_text(f: Option<Option<JsonNode>>) -> bool {
    f matches Some(Some(JsonNode::Str(_)))
}

/// A member that may be absent or null, and is a string otherwise.
pub open spec fn is_optional_text(f: Option<Option<JsonNode>>) -> bool {
    match f {
        None => true,
        Some(Some(JsonNode::Null)) => true,
        Some(Some(JsonNode::Str(_))) => true,
        _ => false,
    }
}

pub open spec fn text_of(f: Option<Option<JsonNode>>) -> Option<Seq<char>> {
    match f {
        Some(Some(JsonNode::Str(s))) => Some(s@),
        _ => None,
    }
}

/// A member that must be an integer that fits `i64`.
pub open spec fn is_i64(f: Option<Option<JsonNode>>) -> bool {
    f matches Some(Some(JsonNode::Number(Some(_), _)))
}

/// A member that must be an integer that fits `u64`.
pub open spec fn is_u64(f: Option<Option<JsonNode>>) -> bool {
    f matches Some(Some(JsonNode::Number(_, Some(_))))
}

/// `{content?: string, role?: string}`
pub open spec fn delta_fits(f: Option<Option<JsonNode>>) -> bool {
    match f {
        Some(Some(JsonNode::Object(d))) => is_optional_text(field_node(d@, "content"@))
            && is_optional_text(field_node(d@, "role"@)),
        _ => false,
    }
}

pub open spec fn delta_text(f: Option<Option<JsonNode>>) -> Option<Seq<char>> {
    match f {
        Some(Some(JsonNode::Object(d))) => text_of(field_node(d@, "content"@)),
        _ => None,
    }
}

/// `{delta, index: integer, finish_reason?: string}`
pub open spec fn choice_fits(item: Seq<u8>) -> bool {
    match json_node_of(item) {
        Some(JsonNode::Object(c)) => delta_fits(field_node(c@, "delta"@))
            && is_u64(field_node(c@, "index"@))
            && is_optional_text(field_node(c@, "finish_reason"@)),
        _ => false,
    }
}

/// An array of choices, each of which fits.
pub open spec fn choices_fit(f: Option<Option<JsonNode>>) -> bool {
    match f {
        Some(Some(JsonNode::Array(items))) => forall|i: int|
            0 <= i < items@.len() ==> choice_fits(#[trigger] items@[i]@),
        _ => false,
    }
}

/// The full chunk envelope: `{id, object, created, model, choices: [choice]}`.
pub open spec fn envelope_fits(e: Seq<(String, Vec<u8>)>) -> bool {
    &&& is_text(field_node(e, "id"@))
    &&& is_text(field_node(e, "object"@))
    &&& is_i64(field_node(e, "created"@))
    &&& is_text(field_node(e, "model"@))
    &&& choices_fit(field_node(e, "choices"@))
}

/// The content of the first choice's delta.
pub open spec fn envelope_text(e: Seq<(String, Vec<u8>)>) -> Option<Seq<char>> {
    match field_node(e, "choices"@) {
        Some(Some(JsonNode::Array(items))) => if items@.len() > 0 {
            match json_node_of(items@[0]@) {
                Some(JsonNode::Object(c)) => delta_text(field_node(c@, "delta"@)),
                _ => None,
            }
        } else {
            None
        },
        _ => None,
    }
}

/// A single choice on its own: `{delta, finish_reason?: string}`.
pub open spec fn single_choice_fits(e: Seq<(String, Vec<u8>)>) -> bool {
    delta_fits(field_node(e, "delta"@)) && is_optional_text(field_node(e, "finish_reason"@))
}

/// The success schema: a JSON object that is a chunk envelope or a single choice.
pub open spec fn fits_success(payload: Seq<u8>) -> bool {
    match json_node_of(payload) {
        Some(JsonNode::Object(e)) => envelope_fits(e@) || single_choice_fits(e@),
        _ => false,
    }
}

/// The delta text of a payload that fits the success schema.
pub open spec fn success_text(payload: Seq<u8>) -> Option<Seq<char>> {
    match json_node_of(payload) {
        Some(JsonNode::Object(e)) => if envelope_fits(e@) {
            envelope_text(e@)
        } else {
            delta_text(field_node(e@, "delta"@))
        },
        _ => None,
    }
}

/// `{message?, type?, param?, code?}`, each a string when present.
pub open spec fn error_body_fits(f: Option<Option<JsonNode>>) -> bool {
    match f {
        Some(Some(JsonNode::Object(b))) => {
            &&& is_optional_text(field_node(b@, "message"@))
            &&& is_optional_text(field_node(b@, "type"@))
            &&& is_optional_text(field_node(b@, "param"@))
            &&& is_optional_text(field_node(b@, "code"@))
        },
        _ => false,
    }
}

/// The error schema: `{error: {message?, type?, param?, code?}}`.
pub open spec fn fits_error(payload: Seq<u8>) -> bool {
    match json_node_of(payload) {
        Some(JsonNode::Object(e)) => error_body_fits(field_node(e@, "error"@)),
        _ => false,
    }
}

/// A member of the error body of a payload.
pub open spec fn error_member(payload: Seq<u8>, key: Seq<char>) -> Option<Seq<char>> {
    match json_node_of(payload) {
        Some(JsonNode::Object(e)) => match field_node(e@, "error"@) {
            Some(Some(JsonNode::Object(b))) => text_of(field_node(b@, key)),
            _ => None,
        },
        _ => None,
    }
}

/// The one event that a payload decodes to.
pub open spec fn event_of(payload: Seq<u8>) -> EventView {
    if json_node_of(payload) is None {
        EventView::DecodeFailure { raw: payload, cause: DecodeCause::Syntax }
    } else if fits_success(payload) {
        EventView::ContentDelta { text: success_text(payload) }
    } else if fits_error(payload) {
        EventView::ServerError {
            kind: error_member(payload, "type"@),
            message: error_member(payload, "message"@),
        }
    } else {
        EventView::DecodeFailure { raw: payload, cause: DecodeCause::Schema }
    }
}

/// Finds member `key` of an object and parses its value.
fn member(entries: &Vec<(String, Vec<u8>)>, key: &str) -> (r: Option<Option<JsonNode>>)
    ensures
        r == field_node(entries@, key@),
{
    let k = String::from_str(key);
    let mut i: usize = 0;
    assert(entries@.subrange(0, entries@.len() as int) =~= entries@);
    while i < entries.len()
        invariant
            i <= entries@.len(),
            k@ == key@,
            field(entries@, key@) == field(entries@.subrange(i as int, entries@.len() as int), key@),
        decreases entries@.len() - i,
    {
        let ghost rest = entries@.subrange(i as int, entries@.len() as int);
        assert(rest.drop_first() =~= entries@.subrange(i + 1, entries@.len() as int));
        if entries[i].0 == k {
            return Some(parse_json_node(entries[i].1.as_slice()));
        }
        i += 1;
    }
    None
}

fn check_text(f: &Option<Option<JsonNode>>) -> (r: bool)
    ensures
        r == is_text(*f),
{
    match f {
        Some(Some(JsonNode::Str(_))) => true,
        _ => false,
    }
}

fn check_optional_text(f: &Option<Option<JsonNode>>) -> (r: bool)
    ensures
        r == is_optional_text(*f),
{
    match f {
        None => true,
        Some(Some(JsonNode::Null)) => true,
        Some(Some(JsonNode::Str(_))) => true,
        _ => false,
    }
}

fn take_text(f: Option<Option<JsonNode>>) -> (r: Option<String>)
    ensures
        opt_view(r) == text_of(f),
{
    match f {
        Some(Some(JsonNode::Str(s))) => Some(s),
        _ => None,
    }
}

/// Checks a delta object and takes its content.
fn check_delta(f: Option<Option<JsonNode>>) -> (r: (bool, Option<String>))
    ensures
        r.0 == delta_fits(f),
        opt_view(r.1) == delta_text(f),
{
    match f {
        Some(Some(JsonNode::Object(d))) => {
            let content = member(&d, "content");
            let role = member(&d, "role");
            let fits = check_optional_text(&content) && check_optional_text(&role);
            (fits, take_text(content))
        },
        _ => (false, None),
    }
}

fn check_choice(item: &Vec<u8>) -> (r: bool)
    ensures
        r == choice_fits(item@),
{
    match parse_json_node(item.as_slice()) {
        Some(JsonNode::Object(c)) => {
            let (delta_ok, _) = check_delta(member(&c, "delta"));
            let index = member(&c, "index");
            let index_ok = match index {
                Some(Some(JsonNode::Number(_, Some(_)))) => true,
                _ => false,
            };
            delta_ok && index_ok && check_optional_text(&member(&c, "finish_reason"))
        },
        _ => false,
    }
}

fn check_all_choices(items: &Vec<Vec<u8>>) -> (r: bool)
    ensures
        r == forall|j: int| 0 <= j < items@.len() ==> choice_fits(#[trigger] items@[j]@),
{
    let mut i: usize = 0;
    while i < items.len()
        invariant
            i <= items@.len(),
            forall|j: int| 0 <= j < i ==> choice_fits(#[trigger] items@[j]@),
        decreases items@.len() - i,
    {
        if !check_choice(&items[i]) {
            assert(!choice_fits(items@[i as int]@));
            return false;
        }
        i += 1;
    }
    true
}

fn check_choices(f: &Option<Option<JsonNode>>) -> (r: bool)
    ensures
        r == choices_fit(*f),
{
    match f {
        Some(Some(JsonNode::Array(items))) => check_all_choices(items),
        _ => false,
    }
}

fn check_envelope(e: &Vec<(String, Vec<u8>)>) -> (r: bool)
    ensures
        r == envelope_fits(e@),
{
    let created_ok = match member(e, "created") {
        Some(Some(JsonNode::Number(Some(_), _))) => true,
        _ => false,
    };
    check_text(&member(e, "id")) && check_text(&member(e, "object")) && created_ok
        && check_text(&member(e, "model")) && check_choices(&member(e, "choices"))
}

fn take_envelope_text(e: &Vec<(String, Vec<u8>)>) -> (r: Option<String>)
    ensures
        opt_view(r) == envelope_text(e@),
{
    match member(e, "choices") {
        Some(Some(JsonNode::Array(items))) => {
            if items.len() > 0 {
                match parse_json_node(items[0].as_slice()) {
                    Some(JsonNode::Object(c)) => check_delta(member(&c, "delta")).1,
                    _ => None,
                }
            } else {
                None
            }
        },
        _ => None,
    }
}

/// Reads the error body of an object: whether it fits, its type and its message.
fn check_error(e: &Vec<(String, Vec<u8>)>) -> (r: (bool, Option<String>, Option<String>))
    ensures
        r.0 == error_body_fits(field_node(e@, "error"@)),
        opt_view(r.1) == (match field_node(e@, "error"@) {
            Some(Some(JsonNode::Object(b))) => text_of(field_node(b@, "type"@)),
            _ => None,
        }),
        opt_view(r.2) == (match field_node(e@, "error"@) {
            Some(Some(JsonNode::Object(b))) => text_of(field_node(b@, "message"@)),
            _ => None,
        }),
{
    match member(e, "error") {
        Some(Some(JsonNode::Object(b))) => {
            let message = member(&b, "message");
            let kind = member(&b, "type");
            let fits = check_optional_text(&message) && check_optional_text(&kind)
                && check_optional_text(&member(&b, "param"))
                && check_optional_text(&member(&b, "code"));
            (fits, take_text(kind), take_text(message))
        },
        _ => (false, None, None),
    }
}

/// Decodes one frame's payload. The success schema is tried first, then the
/// error schema; a payload that fits neither is a decode failure.
pub fn decode_payload(payload: Vec<u8>) -> (r: Event)
    ensures
        r@ == event_of(payload@),
{
    match parse_json_node(payload.as_slice()) {
        None => Event::DecodeFailure { raw: payload, cause: DecodeCause::Syntax },
        Some(JsonNode::Object(e)) => {
            if check_envelope(&e) {
                Event::ContentDelta { text: take_envelope_text(&e) }
            } else {
                let (delta_ok, text) = check_delta(member(&e, "delta"));
                if delta_ok && check_optional_text(&member(&e, "finish_reason")) {
                    Event::ContentDelta { text }
                } else {
                    let (fits, kind, message) = check_error(&e);
                    if fits {
                        Event::ServerError { kind, message }
                    } else {
                        Event::DecodeFailure { raw: payload, cause: DecodeCause::Schema }
                    }
                }
            }
        },
        Some(_) => Event::DecodeFailure { raw: payload, cause: DecodeCause::Schema },
    }
}


/// A payload yields a content delta exactly when it fits the success schema,
/// and a server error exactly when it fits the error schema but not the
/// success schema: never both from one frame.
pub proof fn lemma_one_event_per_payload(payload: Seq<u8>)
    ensures
        (event_of(payload) is ContentDelta) == fits_success(payload),
        (event_of(payload) is ServerError) == (!fits_success(payload) && fits_error(payload)),
        !(event_of(payload) is ContentDelta && event_of(payload) is ServerError),
{
}

} // verus!
