//! Upstream HTTP replies: status handling and the server-sent-event decoder
//! that turns a streamed reply into one JSON value.
use vstd::prelude::*;

use crate::error::GrokSearchError;
use crate::json::{
    find_member, insert_member, items_view, lemma_items_view, lemma_members_insert_get,
    lemma_object_get_absent, lemma_object_get_at, member_index, members_insert,
    members_view, Json, JsonV,
};
use crate::text::{
    append, ascii_lower, has_prefix, join, join_with, lines, lines_of, owned, starts_with,
    str_eq, strip_prefix, to_ascii_lowercase, trim, trim_end_char, trim_end_matches,
    trim_start, trim_start_ws, trim_ws, utf8_decode,
};

verus! {

// ---------------------------------------------------------------------------
// Status handling
// ---------------------------------------------------------------------------

/// A successful reply whose content type (in any ASCII case) starts with
/// `text/event-stream` is read as a stream of events.
pub open spec fn spec_is_stream(success: bool, content_type: Seq<char>) -> bool {
    success && has_prefix(ascii_lower(content_type), "text/event-stream"@)
}

pub fn is_event_stream(success: bool, content_type: &str) -> (r: bool)
    ensures
        r == spec_is_stream(success, content_type@),
{
    if !success {
        return false;
    }
    let l = to_ascii_lowercase(content_type);
    starts_with(l.as_str(), "text/event-stream")
}

/// The error for a reply that is not a success: the provider, the status
/// line and the body text.
pub fn status_error(label: &str, status: &str, body: &str) -> (e: GrokSearchError)
    ensures
        e is Provider,
        e->Provider_0@ == label@ + " returned HTTP "@ + status@ + ": "@ + body@,
{
    let mut m = owned(label);
    append(&mut m, " returned HTTP ");
    append(&mut m, status);
    append(&mut m, ": ");
    append(&mut m, body);
    GrokSearchError::Provider(m)
}

// ---------------------------------------------------------------------------
// Event framing
// ---------------------------------------------------------------------------

pub open spec fn occurs_at(h: Seq<u8>, n: Seq<u8>, i: int) -> bool {
    0 <= i && i + n.len() <= h.len() && h.subrange(i, i + n.len()) == n
}

/// The first position at or after `i` where `n` occurs in `h`.
pub open spec fn find_from(h: Seq<u8>, n: Seq<u8>, i: int) -> Option<int>
    decreases h.len() - i,
{
    if i < 0 || i >= h.len() || i + n.len() > h.len() {
        None
    } else if occurs_at(h, n, i) {
        Some(i)
    } else {
        find_from(h, n, i + 1)
    }
}

/// The first position where `needle` occurs in `haystack`.
pub fn find_bytes(haystack: &[u8], needle: &[u8]) -> (r: Option<usize>)
    requires
        needle@.len() > 0,
    ensures
        match r {
            Some(i) => find_from(haystack@, needle@, 0) == Some(i as int),
            None => find_from(haystack@, needle@, 0) is None,
        },
{
    let n = needle.len();
    if n > haystack.len() {
        return None;
    }
    let hl = haystack.len();
    let mut i: usize = 0;
    while i <= haystack.len() - n
        invariant
            hl == haystack@.len(),
            n == needle@.len(),
            n > 0,
            n <= haystack@.len(),
            i <= haystack@.len(),
            find_from(haystack@, needle@, 0) == find_from(haystack@, needle@, i as int),
        decreases haystack@.len() - i,
    {
        let mut j: usize = 0;
        while j < n && haystack[i + j] == needle[j]
            invariant
                hl == haystack@.len(),
                i <= haystack@.len() - n,
                n == needle@.len(),
                i + n <= haystack@.len(),
                j <= n,
                forall|k: int| 0 <= k < j ==> haystack@[i + k] == needle@[k],
            decreases n - j,
        {
            j += 1;
        }
        if j == n {
            assert(haystack@.subrange(i as int, i + n) =~= needle@);
            assert(occurs_at(haystack@, needle@, i as int));
            assert(find_from(haystack@, needle@, i as int) == Some(i as int));
            return Some(i);
        }
        assert(haystack@.subrange(i as int, i + n)[j as int] != needle@[j as int]);
        i += 1;
    }
    None
}

/// The first complete event of `buf` and what follows its blank line: a
/// `\n\n` separator is looked for first, then `\r\n\r\n`.
pub open spec fn spec_split_event(buf: Seq<u8>) -> Option<(Seq<u8>, Seq<u8>)> {
    match find_from(buf, seq![10u8, 10u8], 0) {
        Some(i) => Some((buf.subrange(0, i), buf.subrange(i + 2, buf.len() as int))),
        None => match find_from(buf, seq![13u8, 10u8, 13u8, 10u8], 0) {
            Some(i) => Some((buf.subrange(0, i), buf.subrange(i + 4, buf.len() as int))),
            None => None,
        },
    }
}

proof fn lemma_find_in_bounds(h: Seq<u8>, n: Seq<u8>, i: int)
    ensures
        find_from(h, n, i) matches Some(k) ==> i <= k && k + n.len() <= h.len(),
    decreases h.len() - i,
{
    if !(i < 0 || i >= h.len() || i + n.len() > h.len()) && !occurs_at(h, n, i) {
        lemma_find_in_bounds(h, n, i + 1);
    }
}

/// Splits off the first complete event.
pub fn split_sse_event(buffer: &[u8]) -> (r: Option<(Vec<u8>, Vec<u8>)>)
    ensures
        match spec_split_event(buffer@) {
            Some((e, rest)) => r matches Some(p) && p.0@ == e && p.1@ == rest,
            None => r is None,
        },
{
    let blen = buffer.len();
    let mut lf: Vec<u8> = Vec::new();
    lf.push(10u8);
    lf.push(10u8);
    let mut crlf: Vec<u8> = Vec::new();
    crlf.push(13u8);
    crlf.push(10u8);
    crlf.push(13u8);
    crlf.push(10u8);
    assert(lf@ =~= seq![10u8, 10u8]);
    assert(crlf@ =~= seq![13u8, 10u8, 13u8, 10u8]);
    proof {
        lemma_find_in_bounds(buffer@, lf@, 0);
        lemma_find_in_bounds(buffer@, crlf@, 0);
    }
    if let Some(index) = find_bytes(buffer, lf.as_slice()) {
        assert(find_from(buffer@, lf@, 0) == Some(index as int));
        assert(index + 2 <= buffer@.len());
        return Some((slice_to_vec(buffer, 0, index), slice_to_vec(buffer, index + 2, buffer.len())));
    }
    if let Some(index) = find_bytes(buffer, crlf.as_slice()) {
        return Some((slice_to_vec(buffer, 0, index), slice_to_vec(buffer, index + 4, buffer.len())));
    }
    None
}

fn slice_to_vec(b: &[u8], from: usize, to: usize) -> (r: Vec<u8>)
    requires
        from <= to <= b@.len(),
    ensures
        r@ == b@.subrange(from as int, to as int),
{
    let mut r: Vec<u8> = Vec::new();
    let mut i = from;
    while i < to
        invariant
            from <= i <= to <= b@.len(),
            r@ == b@.subrange(from as int, i as int),
        decreases to - i,
    {
        r.push(b[i]);
        i += 1;
        assert(r@ =~= b@.subrange(from as int, i as int));
    }
    r
}

/// An event: its name and its data lines joined by newlines.
#[derive(Debug)]
pub struct SseEvent {
    pub name: Option<String>,
    pub data: Option<String>,
}

/// A line with its carriage returns removed at the end.
pub open spec fn clean_line(l: Seq<char>) -> Seq<char> {
    trim_end_char(l, '\r')
}

/// The name of the last `event:` line, leading whitespace removed.
pub open spec fn event_name(ls: Seq<Seq<char>>) -> Option<Seq<char>>
    decreases ls.len(),
{
    if ls.len() == 0 {
        None
    } else {
        let l = clean_line(ls.last());
        if has_prefix(l, "event:"@) {
            Some(trim_start_ws(l.subrange(6, l.len() as int)))
        } else {
            event_name(ls.drop_last())
        }
    }
}

/// The payloads of the `data:` lines, leading whitespace removed.
pub open spec fn data_lines(ls: Seq<Seq<char>>) -> Seq<Seq<char>>
    decreases ls.len(),
{
    if ls.len() == 0 {
        Seq::empty()
    } else {
        let l = clean_line(ls.last());
        if !has_prefix(l, "event:"@) && has_prefix(l, "data:"@) {
            data_lines(ls.drop_last()).push(trim_start_ws(l.subrange(5, l.len() as int)))
        } else {
            data_lines(ls.drop_last())
        }
    }
}

/// The event a block of text holds.
pub open spec fn spec_event(text: Seq<char>) -> (Option<Seq<char>>, Option<Seq<char>>) {
    let ls = lines_of(text);
    let d = data_lines(ls);
    (event_name(ls), if d.len() == 0 {
        None
    } else {
        Some(join_with(d, "\n"@))
    })
}

pub open spec fn event_view(e: SseEvent) -> (Option<Seq<char>>, Option<Seq<char>>) {
    (crate::config::opt_str(e.name), crate::config::opt_str(e.data))
}

/// Decodes one event block; bytes that are not UTF-8 are a parse error.
pub fn parse_sse_event(event: &[u8], label: &str) -> (r: Result<SseEvent, GrokSearchError>)
    ensures
        vstd::utf8::valid_utf8(event@) <==> r is Ok,
        r matches Ok(e) ==> event_view(e) == spec_event(vstd::utf8::decode_utf8(event@)),
        r matches Err(e) ==> e is Parse && has_prefix(e->Parse_0@, "invalid "@ + label@ + " SSE UTF-8: "@),
{
    let text = match utf8_decode(event) {
        Ok(t) => t,
        Err(msg) => {
            let mut m = owned("invalid ");
            append(&mut m, label);
            append(&mut m, " SSE UTF-8: ");
            let ghost p = m@;
            append(&mut m, msg.as_str());
            assert(m@.subrange(0, p.len() as int) =~= p);
            return Err(GrokSearchError::Parse(m));
        },
    };
    let ls = lines(text.as_str());
    let ghost lv = lines_of(text@);
    let mut name: Option<String> = None;
    let mut data: Vec<String> = Vec::new();
    let mut i: usize = 0;
    proof {
        reveal_strlit("event:");
        reveal_strlit("data:");
    }
    while i < ls.len()
        invariant
            i <= ls@.len(),
            ls@.len() == lv.len(),
            forall|k: int| 0 <= k < ls@.len() ==> #[trigger] ls@[k]@ == lv[k],
            crate::config::opt_str(name) == event_name(lv.take(i as int)),
            data@.map_values(|d: String| d@) == data_lines(lv.take(i as int)),
        decreases ls@.len() - i,
    {
        assert(lv.take(i + 1).drop_last() =~= lv.take(i as int));
        assert(lv.take(i + 1).last() == lv[i as int]);
        proof {
            reveal_strlit("event:");
            reveal_strlit("data:");
        }
        let line = trim_end_matches(ls[i].as_str(), '\r');
        if let Some(rest) = strip_prefix(line.as_str(), "event:") {
            name = Some(trim_start(rest.as_str()));
        } else if let Some(rest) = strip_prefix(line.as_str(), "data:") {
            let ghost before = data@;
            data.push(trim_start(rest.as_str()));
            assert(data@.map_values(|d: String| d@) =~= before.map_values(|d: String| d@).push(
                data@.last()@,
            ));
        }
        i += 1;
    }
    assert(lv.take(lv.len() as int) =~= lv);
    let data = if data.len() == 0 {
        None
    } else {
        Some(join(&data, "\n"))
    };
    Ok(SseEvent { name, data })
}

/// Event names that end a stream.
pub open spec fn completion_name(n: Seq<char>) -> bool {
    n == "done"@ || n == "end"@ || n == "complete"@ || n == "completed"@ || n
        == "response.completed"@
}

pub fn is_completion_event_name(name: &str) -> (r: bool)
    ensures
        r == completion_name(name@),
{
    str_eq(name, "done") || str_eq(name, "end") || str_eq(name, "complete") || str_eq(
        name,
        "completed",
    ) || str_eq(name, "response.completed")
}

// ---------------------------------------------------------------------------
// Stream content
// ---------------------------------------------------------------------------

/// One step of a JSON pointer through an object member.
pub open spec fn ptr_key(v: Option<JsonV>, k: Seq<char>) -> Option<JsonV> {
    match v {
        Some(JsonV::Object(_)) => v->0.get(k),
        _ => None,
    }
}

/// The pointer step `0`: member `"0"` of an object, or the first element
/// of an array.
pub open spec fn ptr_zero(v: Option<JsonV>) -> Option<JsonV> {
    match v {
        Some(JsonV::Object(_)) => v->0.get("0"@),
        Some(JsonV::Array(a)) => if a.len() > 0 {
            Some(a[0])
        } else {
            None
        },
        _ => None,
    }
}

/// `/choices/0/{k}`.
pub open spec fn choice_ptr(v: JsonV, k: Seq<char>) -> Option<JsonV> {
    ptr_key(ptr_zero(ptr_key(Some(v), "choices"@)), k)
}

/// The text of a content part: `text`, else `content` when `text` is absent.
pub open spec fn part_text(p: JsonV) -> Seq<char> {
    let x = match p.get("text"@) {
        Some(t) => Some(t),
        None => p.get("content"@),
    };
    match x {
        Some(JsonV::Str(s)) => s,
        _ => Seq::empty(),
    }
}

pub open spec fn parts_text(ps: Seq<JsonV>) -> Seq<char>
    decreases ps.len(),
{
    if ps.len() == 0 {
        Seq::empty()
    } else {
        parts_text(ps.drop_last()) + part_text(ps.last())
    }
}

/// Responses text carried by a delta event.
pub open spec fn output_delta(v: JsonV) -> Seq<char> {
    if v.get("type"@) == Some(JsonV::Str("response.output_text.delta"@)) {
        match v.get("delta"@) {
            Some(JsonV::Str(d)) => d,
            _ => Seq::empty(),
        }
    } else {
        Seq::empty()
    }
}

/// Chat-completions text carried by a delta event.
pub open spec fn chat_delta(v: JsonV) -> Seq<char> {
    match ptr_key(choice_ptr(v, "delta"@), "content"@) {
        Some(JsonV::Str(t)) => t,
        Some(JsonV::Array(ps)) => parts_text(ps),
        _ => Seq::empty(),
    }
}

fn get_key<'a>(v: Option<&'a Json>, k: &str) -> (r: Option<&'a Json>)
    ensures
        crate::json::opt_view(r) == ptr_key(crate::json::opt_view(v), k@),
{
    match v {
        Some(x) => {
            if x.is_object() {
                x.get(k)
            } else {
                None
            }
        },
        None => None,
    }
}

fn get_zero<'a>(v: Option<&'a Json>) -> (r: Option<&'a Json>)
    ensures
        crate::json::opt_view(r) == ptr_zero(crate::json::opt_view(v)),
{
    match v {
        Some(x) => match x {
            Json::Object(_) => x.get("0"),
            Json::Array(a) => {
                proof {
                    lemma_items_view(a@);
                }
                if a.len() > 0 {
                    Some(&a[0])
                } else {
                    None
                }
            },
            _ => None,
        },
        None => None,
    }
}

fn choice<'a>(v: &'a Json, k: &str) -> (r: Option<&'a Json>)
    ensures
        crate::json::opt_view(r) == choice_ptr(v@, k@),
{
    get_key(get_zero(get_key(Some(v), "choices")), k)
}

fn part_str(p: &Json) -> (r: String)
    ensures
        r@ == part_text(p@),
{
    let x = match p.get("text") {
        Some(t) => Some(t),
        None => p.get("content"),
    };
    match x {
        Some(v) => match v.as_str() {
            Some(s) => owned(s),
            None => String::new(),
        },
        None => String::new(),
    }
}

/// Appends the text deltas of one stream event.
pub fn collect_stream_delta(value: &Json, output_text: &mut String, chat_content: &mut String)
    ensures
        final(output_text)@ == old(output_text)@ + output_delta(value@),
        final(chat_content)@ == old(chat_content)@ + chat_delta(value@),
{
    let is_delta = match value.get("type") {
        Some(t) => match t.as_str() {
            Some(s) => str_eq(s, "response.output_text.delta"),
            None => false,
        },
        None => false,
    };
    let ghost o0 = output_text@;
    if is_delta {
        match value.get("delta") {
            Some(d) => match d.as_str() {
                Some(s) => append(output_text, s),
                None => {},
            },
            None => {},
        }
    }
    assert(output_text@ =~= o0 + output_delta(value@));
    let ghost c0 = chat_content@;
    match get_key(choice(value, "delta"), "content") {
        Some(Json::Str(text)) => append(chat_content, text.as_str()),
        Some(Json::Array(parts)) => {
            proof {
                lemma_items_view(parts@);
            }
            let ghost ps = items_view(parts@);
            let mut i: usize = 0;
            while i < parts.len()
                invariant
                    i <= parts@.len(),
                    ps.len() == parts@.len(),
                    forall|k: int| 0 <= k < parts@.len() ==> #[trigger] ps[k] == parts@[k]@,
                    chat_content@ == c0 + parts_text(ps.take(i as int)),
                decreases parts@.len() - i,
            {
                let t = part_str(&parts[i]);
                append(chat_content, t.as_str());
                assert(ps.take(i + 1).drop_last() =~= ps.take(i as int));
                assert(ps.take(i + 1).last() == parts@[i as int]@);
                i += 1;
            }
            assert(ps.take(ps.len() as int) =~= ps);
        },
        _ => {},
    }
    assert(chat_content@ =~= c0 + chat_delta(value@));
}


// ---------------------------------------------------------------------------
// Final value of a stream
// ---------------------------------------------------------------------------

/// The view of an optional owned value.
pub open spec fn opt_json(o: Option<Json>) -> Option<JsonV> {
    match o {
        Some(j) => Some(j@),
        None => None,
    }
}

/// The members of an object value; nothing for any other value.
pub open spec fn members_or_empty(v: Option<JsonV>) -> Seq<(Seq<char>, JsonV)> {
    match v {
        Some(JsonV::Object(m)) => m,
        _ => Seq::empty(),
    }
}

/// Copies member `key` of an object delta into a message that lacks it.
pub open spec fn carry_over(msg: Seq<(Seq<char>, JsonV)>, delta: Option<JsonV>, key: Seq<char>) -> Seq<
    (Seq<char>, JsonV),
> {
    match delta {
        Some(d) => if d is Object && member_index(msg, key) is None && d.get(key) is Some {
            members_insert(msg, key, d.get(key)->0)
        } else {
            msg
        },
        None => msg,
    }
}

/// A chat-completions reply rebuilt from the last event and the streamed
/// content: the last event (when it is an object) with `choices` replaced by
/// one choice whose message keeps the last message's members, takes
/// `annotations` and `citations` from the last delta where the message has
/// none, and holds the whole content.
pub open spec fn spec_synthesize(last: Option<JsonV>, chat: Seq<char>) -> JsonV {
    let raw = members_or_empty(last);
    let rawv = JsonV::Object(raw);
    let delta = choice_ptr(rawv, "delta"@);
    let msg0 = members_or_empty(choice_ptr(rawv, "message"@));
    let msg1 = carry_over(carry_over(msg0, delta, "annotations"@), delta, "citations"@);
    let msg = members_insert(msg1, "content"@, JsonV::Str(chat));
    let choice = JsonV::Object(seq![("message"@, JsonV::Object(msg))]);
    JsonV::Object(members_insert(raw, "choices"@, JsonV::Array(seq![choice])))
}

fn copy_member(msg: &mut Vec<(String, Json)>, delta: Option<&Json>, key: &str)
    ensures
        members_view(final(msg)@) == carry_over(
            members_view(old(msg)@),
            crate::json::opt_view(delta),
            key@,
        ),
{
    if let Some(d) = delta {
        if d.is_object() && find_member(msg, key).is_none() {
            if let Some(v) = d.get(key) {
                insert_member(msg, key, v.duplicate());
            }
        }
    }
}

fn synthesize_chat_json(last_json: Option<Json>, chat_content: String) -> (r: Json)
    ensures
        r@ == spec_synthesize(opt_json(last_json), chat_content@),
{
    let raw_members: Vec<(String, Json)> = match last_json {
        Some(Json::Object(m)) => m,
        _ => Vec::new(),
    };
    let raw = Json::Object(raw_members);
    let mut msg: Vec<(String, Json)> = match choice(&raw, "message") {
        Some(m) => match m.duplicate() {
            Json::Object(v) => v,
            _ => Vec::new(),
        },
        None => Vec::new(),
    };
    let delta = choice(&raw, "delta");
    copy_member(&mut msg, delta, "annotations");
    copy_member(&mut msg, delta, "citations");
    insert_member(&mut msg, "content", Json::Str(chat_content));
    let mut one: Vec<(String, Json)> = Vec::new();
    one.push((owned("message"), Json::Object(msg)));
    let mut choices: Vec<Json> = Vec::new();
    choices.push(Json::Object(one));
    assert(members_view(one@) =~= members_view(one@.drop_last()).push((one@[0].0@, one@[0].1@)));
    assert(items_view(choices@) =~= items_view(choices@.drop_last()).push(choices@[0]@));
    let mut out = match raw {
        Json::Object(m) => m,
        _ => Vec::new(),
    };
    insert_member(&mut out, "choices", Json::Array(choices));
    Json::Object(out)
}

/// What a finished stream stands for: the Responses text when any was
/// streamed, else the rebuilt chat reply when chat content was streamed,
/// else the last JSON event; `None` when there is none of these.
pub open spec fn spec_finish(last: Option<JsonV>, out: Seq<char>, chat: Seq<char>) -> Option<JsonV> {
    if out.len() > 0 {
        Some(JsonV::Object(seq![("output_text"@, JsonV::Str(out))]))
    } else if chat.len() > 0 {
        Some(spec_synthesize(last, chat))
    } else {
        last
    }
}

/// The message of a stream that ended without any JSON data.
pub open spec fn no_data_message(label: Seq<char>) -> Seq<char> {
    label + " SSE stream ended without JSON data"@
}

/// `{"output_text": text}`.
fn output_text_json(text: String) -> (r: Json)
    ensures
        r@ == JsonV::Object(seq![("output_text"@, JsonV::Str(text@))]),
{
    let mut m: Vec<(String, Json)> = Vec::new();
    m.push((owned("output_text"), Json::Str(text)));
    assert(members_view(m@) =~= members_view(m@.drop_last()).push((m@[0].0@, m@[0].1@)));
    Json::Object(m)
}

/// The value a finished stream yields.
pub fn finish_sse_json(
    label: &str,
    last_json: Option<Json>,
    output_text: String,
    chat_content: String,
) -> (r: Result<Json, GrokSearchError>)
    ensures
        match spec_finish(opt_json(last_json), output_text@, chat_content@) {
            Some(v) => r matches Ok(j) && j@ == v,
            None => r matches Err(e) && e is Parse && e->Parse_0@ == no_data_message(label@),
        },
{
    if !output_text.as_str().is_empty() {
        return Ok(output_text_json(output_text));
    }
    if !chat_content.as_str().is_empty() {
        return Ok(synthesize_chat_json(last_json, chat_content));
    }
    match last_json {
        Some(v) => Ok(v),
        None => {
            let mut m = owned(label);
            append(&mut m, " SSE stream ended without JSON data");
            Err(GrokSearchError::Parse(m))
        },
    }
}


// ---------------------------------------------------------------------------
// The stream reader
// ---------------------------------------------------------------------------

pub proof fn lemma_split_shorter(buf: Seq<u8>)
    ensures
        spec_split_event(buf) matches Some((e, rest)) ==> rest.len() < buf.len(),
{
    lemma_find_in_bounds(buf, seq![10u8, 10u8], 0);
    lemma_find_in_bounds(buf, seq![13u8, 10u8, 13u8, 10u8], 0);
}

/// What scanning the buffered bytes finds next.
pub enum ScanV {
    /// No complete event is buffered.
    NeedMore,
    /// An event that is not UTF-8.
    BadUtf8,
    /// An event that ends the stream.
    Finish,
    /// The trimmed data of an event, to be read as JSON.
    Data(Seq<char>),
}

/// Scans events off the front of `buf`: events without data or with blank
/// data are skipped; a completion-named event without data, or the data
/// `[DONE]`, ends the stream. Returns what was found and the bytes left.
pub open spec fn spec_scan(buf: Seq<u8>) -> (ScanV, Seq<u8>)
    decreases buf.len(),
{
    match spec_split_event(buf) {
        None => (ScanV::NeedMore, buf),
        Some((e, rest)) => {
            proof {
                lemma_split_shorter(buf);
            }
            if !vstd::utf8::valid_utf8(e) {
                (ScanV::BadUtf8, rest)
            } else {
                let ev = spec_event(vstd::utf8::decode_utf8(e));
                if ev.0 matches Some(n) && completion_name(n) && ev.1 is None {
                    (ScanV::Finish, rest)
                } else {
                    match ev.1 {
                        None => spec_scan(rest),
                        Some(d) => {
                            let t = trim_ws(d);
                            if t.len() == 0 {
                                spec_scan(rest)
                            } else if t == "[DONE]"@ {
                                (ScanV::Finish, rest)
                            } else {
                                (ScanV::Data(t), rest)
                            }
                        },
                    }
                }
            }
        },
    }
}

/// One step of reading a stream.
#[derive(Debug)]
pub enum SseStep {
    /// No complete event is buffered: more bytes are needed.
    NeedMore,
    /// The trimmed data of an event; the caller reads it as JSON and hands
    /// the value to [`SseReader::absorb`].
    Data(String),
    /// The stream is over, with this result.
    Done(Result<Json, GrokSearchError>),
}

/// The state of a stream being read: unread bytes, the text streamed so
/// far in either API shape, and the last JSON event.
#[derive(Debug)]
pub struct SseReader {
    pub buffer: Vec<u8>,
    pub output_text: String,
    pub chat_content: String,
    pub last_json: Option<Json>,
}

/// A step that ends the stream carries the result of [`finish_sse_json`]
/// on the state.
pub open spec fn finished_with(
    r: Result<Json, GrokSearchError>,
    label: Seq<char>,
    last: Option<JsonV>,
    out: Seq<char>,
    chat: Seq<char>,
) -> bool {
    match spec_finish(last, out, chat) {
        Some(v) => r matches Ok(j) && j@ == v,
        None => r matches Err(e) && e is Parse && e->Parse_0@ == no_data_message(label),
    }
}

fn copy_json(o: &Option<Json>) -> (r: Option<Json>)
    ensures
        opt_json(r) == opt_json(*o),
{
    match o {
        Some(j) => Some(j.duplicate()),
        None => None,
    }
}

impl SseReader {
    pub fn new() -> (r: SseReader)
        ensures
            r.buffer@ == Seq::<u8>::empty(),
            r.output_text@ == Seq::<char>::empty(),
            r.chat_content@ == Seq::<char>::empty(),
            r.last_json is None,
    {
        SseReader {
            buffer: Vec::new(),
            output_text: String::new(),
            chat_content: String::new(),
            last_json: None,
        }
    }

    /// Appends received bytes.
    pub fn push_chunk(&mut self, chunk: &[u8])
        ensures
            final(self).buffer@ == old(self).buffer@ + chunk@,
            final(self).output_text@ == old(self).output_text@,
            final(self).chat_content@ == old(self).chat_content@,
            opt_json(final(self).last_json) == opt_json(old(self).last_json),
    {
        let mut i: usize = 0;
        let ghost b0 = self.buffer@;
        while i < chunk.len()
            invariant
                i <= chunk@.len(),
                self.buffer@ == b0 + chunk@.subrange(0, i as int),
                b0 == old(self).buffer@,
                self.output_text@ == old(self).output_text@,
                self.chat_content@ == old(self).chat_content@,
                opt_json(self.last_json) == opt_json(old(self).last_json),
            decreases chunk@.len() - i,
        {
            self.buffer.push(chunk[i]);
            i += 1;
            assert(self.buffer@ =~= b0 + chunk@.subrange(0, i as int));
        }
        assert(chunk@.subrange(0, chunk@.len() as int) =~= chunk@);
    }

    /// The value the stream yields when it ends here.
    pub fn finish(&self, label: &str) -> (r: Result<Json, GrokSearchError>)
        ensures
            finished_with(
                r,
                label@,
                opt_json(self.last_json),
                self.output_text@,
                self.chat_content@,
            ),
    {
        finish_sse_json(
            label,
            copy_json(&self.last_json),
            self.output_text.clone(),
            self.chat_content.clone(),
        )
    }

    /// Takes buffered events until one carries data or ends the stream.
    pub fn next_step(&mut self, label: &str) -> (s: SseStep)
        ensures
            final(self).buffer@ == spec_scan(old(self).buffer@).1,
            final(self).output_text@ == old(self).output_text@,
            final(self).chat_content@ == old(self).chat_content@,
            opt_json(final(self).last_json) == opt_json(old(self).last_json),
            match spec_scan(old(self).buffer@).0 {
                ScanV::NeedMore => s is NeedMore,
                ScanV::Data(d) => s matches SseStep::Data(t) && t@ == d,
                ScanV::Finish => s matches SseStep::Done(r) && finished_with(
                    r,
                    label@,
                    opt_json(old(self).last_json),
                    old(self).output_text@,
                    old(self).chat_content@,
                ),
                ScanV::BadUtf8 => s matches SseStep::Done(r) && r matches Err(e) && e is Parse
                    && has_prefix(e->Parse_0@, "invalid "@ + label@ + " SSE UTF-8: "@),
            },
    {
        let ghost target = spec_scan(self.buffer@);
        loop
            invariant
                spec_scan(self.buffer@) == target,
                target == spec_scan(old(self).buffer@),
                self.output_text@ == old(self).output_text@,
                self.chat_content@ == old(self).chat_content@,
                opt_json(self.last_json) == opt_json(old(self).last_json),
            decreases self.buffer@.len(),
        {
            proof {
                lemma_split_shorter(self.buffer@);
            }
            let (event, rest) = match split_sse_event(self.buffer.as_slice()) {
                Some(p) => p,
                None => {
                    return SseStep::NeedMore;
                },
            };
            self.buffer = rest;
            let ev = match parse_sse_event(event.as_slice(), label) {
                Ok(ev) => ev,
                Err(e) => {
                    return SseStep::Done(Err(e));
                },
            };
            let complete = match &ev.name {
                Some(n) => is_completion_event_name(n.as_str()),
                None => false,
            };
            if complete && ev.data.is_none() {
                return SseStep::Done(self.finish(label));
            }
            match ev.data {
                None => {},
                Some(d) => {
                    let t = trim(d.as_str());
                    if !t.as_str().is_empty() {
                        proof {
                            reveal_strlit("[DONE]");
                        }
                        if str_eq(t.as_str(), "[DONE]") {
                            return SseStep::Done(self.finish(label));
                        }
                        return SseStep::Data(t);
                    }
                },
            }
        }
    }

    /// Takes one decoded event: collects its text deltas, and returns the
    /// final value when the event is `response.completed` (its `response`,
    /// else the streamed Responses text, else the event itself); otherwise
    /// keeps the event as the last one seen.
    pub fn absorb(&mut self, value: Json) -> (r: Option<Json>)
        ensures
            final(self).buffer@ == old(self).buffer@,
            final(self).output_text@ == old(self).output_text@ + output_delta(value@),
            final(self).chat_content@ == old(self).chat_content@ + chat_delta(value@),
            match completed_value(value@, final(self).output_text@) {
                Some(v) => r matches Some(j) && j@ == v && opt_json(final(self).last_json)
                    == opt_json(old(self).last_json),
                None => r is None && opt_json(final(self).last_json) == Some(value@),
            },
    {
        collect_stream_delta(&value, &mut self.output_text, &mut self.chat_content);
        let completed = match value.get("type") {
            Some(t) => match t.as_str() {
                Some(s) => str_eq(s, "response.completed"),
                None => false,
            },
            None => false,
        };
        if completed {
            if let Some(resp) = value.get("response") {
                return Some(resp.duplicate());
            }
            if !self.output_text.as_str().is_empty() {
                return Some(output_text_json(self.output_text.clone()));
            }
            return Some(value);
        }
        self.last_json = Some(value);
        None
    }
}

/// The final value an event gives when it is `response.completed`, after
/// its deltas were collected into `out`.
pub open spec fn completed_value(v: JsonV, out: Seq<char>) -> Option<JsonV> {
    if v.get("type"@) == Some(JsonV::Str("response.completed"@)) {
        match v.get("response"@) {
            Some(r) => Some(r),
            None => if out.len() > 0 {
                Some(JsonV::Object(seq![("output_text"@, JsonV::Str(out))]))
            } else {
                Some(v)
            },
        }
    } else {
        None
    }
}

/// An event and its rest put back together give the buffer: the event, a
/// blank-line separator, and the rest.
pub proof fn law_split_event_reassembles(buf: Seq<u8>)
    ensures
        spec_split_event(buf) matches Some((e, rest)) ==> buf == e + seq![10u8, 10u8] + rest || buf
            == e + seq![13u8, 10u8, 13u8, 10u8] + rest,
{
    let lf = seq![10u8, 10u8];
    let crlf = seq![13u8, 10u8, 13u8, 10u8];
    lemma_find_in_bounds(buf, lf, 0);
    lemma_find_in_bounds(buf, crlf, 0);
    match find_from(buf, lf, 0) {
        Some(i) => {
            lemma_find_occurs(buf, lf, 0);
            assert(buf =~= buf.subrange(0, i) + lf + buf.subrange(i + 2, buf.len() as int));
        },
        None => match find_from(buf, crlf, 0) {
            Some(i) => {
                lemma_find_occurs(buf, crlf, 0);
                assert(buf =~= buf.subrange(0, i) + crlf + buf.subrange(i + 4, buf.len() as int));
            },
            None => {},
        },
    }
}

proof fn lemma_find_occurs(h: Seq<u8>, n: Seq<u8>, i: int)
    ensures
        find_from(h, n, i) matches Some(k) ==> occurs_at(h, n, k),
    decreases h.len() - i,
{
    if !(i < 0 || i >= h.len() || i + n.len() > h.len()) && !occurs_at(h, n, i) {
        lemma_find_occurs(h, n, i + 1);
    }
}


proof fn lemma_find_extend(h: Seq<u8>, more: Seq<u8>, n: Seq<u8>, i: int)
    requires
        0 <= i,
        find_from(h, n, i) is Some,
    ensures
        find_from(h + more, n, i) == find_from(h, n, i),
    decreases h.len() - i,
{
    lemma_find_in_bounds(h, n, i);
    let hm = h + more;
    if occurs_at(h, n, i) {
        assert(hm.subrange(i, i + n.len()) =~= h.subrange(i, i + n.len()));
    } else {
        lemma_find_in_bounds(h, n, i + 1);
        assert(i + n.len() <= h.len());
        assert(hm.subrange(i, i + n.len()) =~= h.subrange(i, i + n.len()));
        lemma_find_extend(h, more, n, i + 1);
    }
}

/// An event cut off at a blank line (`\n\n`) in the bytes received so far
/// is the same event whatever bytes arrive after them: only the rest grows.
pub proof fn law_split_event_stable_under_appends(buf: Seq<u8>, more: Seq<u8>)
    requires
        find_from(buf, seq![10u8, 10u8], 0) is Some,
    ensures
        spec_split_event(buf) matches Some((e, rest)) && spec_split_event(buf + more) == Some(
            (e, rest + more),
        ),
{
    let lf = seq![10u8, 10u8];
    lemma_find_extend(buf, more, lf, 0);
    lemma_find_in_bounds(buf, lf, 0);
    let i = find_from(buf, lf, 0)->0;
    let bm = buf + more;
    assert(bm.subrange(0, i) =~= buf.subrange(0, i));
    assert(bm.subrange(i + 2, bm.len() as int) =~= buf.subrange(i + 2, buf.len() as int) + more);
}


/// The message of a chat reply with exactly one choice.
pub open spec fn reply_message(r: JsonV) -> Option<JsonV> {
    match r.get("choices"@) {
        Some(JsonV::Array(cs)) => if cs.len() == 1 {
            cs[0].get("message"@)
        } else {
            None
        },
        _ => None,
    }
}

/// A rebuilt chat reply keeps the sources the stream cited: when the last
/// event's first choice has a delta object carrying `annotations` or
/// `citations`, and its message is not an object that already has that key,
/// the reply's one choice has a message carrying the delta's value, and the
/// message's content is the whole streamed text.
pub proof fn law_chat_rebuild_keeps_citations(
    raw: Seq<(Seq<char>, JsonV)>,
    chat: Seq<char>,
    k: Seq<char>,
    d: JsonV,
    v: JsonV,
)
    requires
        chat.len() > 0,
        k == "annotations"@ || k == "citations"@,
        choice_ptr(JsonV::Object(raw), "delta"@) == Some(d),
        d is Object,
        d.get(k) == Some(v),
        !(choice_ptr(JsonV::Object(raw), "message"@) matches Some(msg) && msg is Object && msg.get(k)
            is Some),
    ensures
        match spec_finish(Some(JsonV::Object(raw)), Seq::empty(), chat) {
            Some(r) => match reply_message(r) {
                Some(m) => m.get(k) == Some(v) && m.get("content"@) == Some(JsonV::Str(chat)),
                None => false,
            },
            None => false,
        },
{
    reveal_strlit("annotations");
    reveal_strlit("citations");
    reveal_strlit("content");
    assert("annotations"@ != "citations"@) by {
        assert("annotations"@.len() != "citations"@.len());
    }
    assert(k != "content"@) by {
        assert(k.len() != "content"@.len());
    }
    let rawv = JsonV::Object(raw);
    let delta = choice_ptr(rawv, "delta"@);
    let msg0 = members_or_empty(choice_ptr(rawv, "message"@));
    assert(JsonV::Object(msg0).get(k) is None) by {
        if !(choice_ptr(rawv, "message"@) matches Some(JsonV::Object(_))) {
            lemma_object_get_absent(msg0, k);
        }
    }
    let a = "annotations"@;
    let c = "citations"@;
    let msg_a = carry_over(msg0, delta, a);
    let msg1 = carry_over(msg_a, delta, c);
    if msg_a != msg0 {
        lemma_members_insert_get(msg0, a, d.get(a)->0, k);
    }
    if msg1 != msg_a {
        lemma_members_insert_get(msg_a, c, d.get(c)->0, k);
    }
    assert(JsonV::Object(msg1).get(k) == Some(v));
    let msg = members_insert(msg1, "content"@, JsonV::Str(chat));
    lemma_members_insert_get(msg1, "content"@, JsonV::Str(chat), k);
    lemma_members_insert_get(msg1, "content"@, JsonV::Str(chat), "content"@);
    let one = seq![("message"@, JsonV::Object(msg))];
    lemma_object_get_at(one, 0);
    let choice = JsonV::Object(one);
    lemma_members_insert_get(raw, "choices"@, JsonV::Array(seq![choice]), "choices"@);
}

} // verus!
