//! Token usage: asking the model runtime for it, and finding it in what the runtime answers.

use vstd::prelude::*;
use vstd::slice::slice_subrange;
use vstd::utf8::*;
use crate::json::{
    entries_tree, field, is_exact, is_plain, json_parsed, json_text, lemma_raw_key_length,
    same_but_carried, set_field, take_field, u64_of, Json, JsonNumber, JsonView,
};
use crate::text::{
    begins_with, is_white, law_trimming, same_bytes, same_text, strip_prefix, trim, trimmed,
    utf8_text,
};

verus! {

/// The tokens that one request cost.
#[derive(Debug, Clone, Copy, PartialEq, Eq, Structural)]
pub struct TokenUsage {
    pub input_tokens: u64,
    pub output_tokens: u64,
    pub total_tokens: u64,
}

/// How much of a response stream is kept to look for usage in: the last 64 KiB.
pub const SSE_BUFFER_KEEP: usize = 65536;

/// The path whose streaming requests are asked to report usage.
pub open spec fn chat_path() -> Seq<char> {
    "/v1/chat/completions"@
}

// ---------------------------------------------------------------------------------------------
// Usage in a document
// ---------------------------------------------------------------------------------------------

/// The value under `key`, or under `other` where there is none.
pub open spec fn field_or(tree: JsonView, key: Seq<char>, other: Seq<char>) -> Option<JsonView> {
    match field(tree, key) {
        Some(value) => Some(value),
        None => field(tree, other),
    }
}

/// The unsigned integer that `tree` is, when there is one.
pub open spec fn count_of(tree: Option<JsonView>) -> Option<u64> {
    match tree {
        Some(tree) => u64_of(tree),
        None => None,
    }
}

/// `a + b`, or the largest number where that is too large.
pub open spec fn saturating_sum(a: u64, b: u64) -> u64 {
    if a + b > u64::MAX {
        u64::MAX
    } else {
        (a + b) as u64
    }
}

/// The usage that a document reports under `usage`: the input tokens are `prompt_tokens` or
/// `input_tokens`, the output tokens `completion_tokens` or `output_tokens`, and a missing total
/// is their sum.
pub open spec fn usage_of(tree: JsonView) -> Option<TokenUsage> {
    match field(tree, "usage"@) {
        Some(usage) => {
            let input = count_of(field_or(usage, "prompt_tokens"@, "input_tokens"@));
            let output = count_of(field_or(usage, "completion_tokens"@, "output_tokens"@));
            match (input, output) {
                (Some(input_tokens), Some(output_tokens)) => Some(
                    TokenUsage {
                        input_tokens,
                        output_tokens,
                        total_tokens: match count_of(field(usage, "total_tokens"@)) {
                            Some(total) => total,
                            None => saturating_sum(input_tokens, output_tokens),
                        },
                    },
                ),
                _ => None,
            }
        },
        None => None,
    }
}

/// The count under `key`, or under `other` where there is no `key`.
fn count_under(json: &Json, key: &str, other: &str) -> (count: Option<u64>)
    ensures
        count == count_of(field_or(json.tree(), key@, other@)),
{
    match json.get(key) {
        Some(value) => value.as_u64(),
        None => match json.get(other) {
            Some(value) => value.as_u64(),
            None => None,
        },
    }
}

/// The usage that a document reports.
pub fn token_usage(payload: &Json) -> (usage: Option<TokenUsage>)
    ensures
        usage == usage_of(payload.tree()),
{
    let usage: &Json = match payload.get("usage") {
        Some(usage) => usage,
        None => return None,
    };
    let input_tokens: u64 = match count_under(usage, "prompt_tokens", "input_tokens") {
        Some(count) => count,
        None => return None,
    };
    let output_tokens: u64 = match count_under(usage, "completion_tokens", "output_tokens") {
        Some(count) => count,
        None => return None,
    };
    let reported: Option<u64> = match usage.get("total_tokens") {
        Some(total) => total.as_u64(),
        None => None,
    };
    let total_tokens: u64 = match reported {
        Some(total) => total,
        None => input_tokens.saturating_add(output_tokens),
    };
    Some(TokenUsage { input_tokens, output_tokens, total_tokens })
}

/// The usage that the document spelt by `bytes` reports.
pub open spec fn json_usage(bytes: Seq<u8>) -> Option<TokenUsage> {
    match json_parsed(bytes) {
        Some(tree) => usage_of(tree),
        None => None,
    }
}

/// The usage that a complete response body reports.
pub fn usage_from_json(bytes: &[u8]) -> (usage: Option<TokenUsage>)
    ensures
        usage == json_usage(bytes@),
{
    match Json::parse(bytes) {
        Some(payload) => token_usage(&payload),
        None => None,
    }
}

// ---------------------------------------------------------------------------------------------
// Usage in a stream of server-sent events
// ---------------------------------------------------------------------------------------------

/// Whether `part` stands in `bytes` at position `at`.
pub open spec fn bytes_at(bytes: Seq<u8>, part: Seq<u8>, at: int) -> bool {
    0 <= at && at + part.len() <= bytes.len() && bytes.subrange(at, at + part.len()) == part
}

/// Whether `part` stands anywhere in `bytes`.
pub open spec fn contains_bytes(bytes: Seq<u8>, part: Seq<u8>) -> bool {
    exists|at: int| #[trigger] bytes_at(bytes, part, at)
}

/// The length of the first line of `bytes`, up to its line feed or the end.
pub open spec fn line_length(bytes: Seq<u8>) -> nat
    decreases bytes.len(),
{
    if bytes.len() == 0 || bytes[0] == 0x0a {
        0
    } else {
        1 + line_length(bytes.drop_first())
    }
}

/// The first line of `bytes`, without the line feed that ends it or the carriage return before
/// that line feed.
pub open spec fn first_line(bytes: Seq<u8>) -> Seq<u8> {
    let n = line_length(bytes) as int;
    if 0 < n < bytes.len() && bytes[n - 1] == 0x0d {
        bytes.take(n - 1)
    } else {
        bytes.take(n)
    }
}

/// What follows the first line of `bytes`.
pub open spec fn after_first_line(bytes: Seq<u8>) -> Seq<u8> {
    let n = line_length(bytes) as int;
    if n < bytes.len() {
        bytes.skip(n + 1)
    } else {
        Seq::empty()
    }
}

/// The data that a line of an event carries: what follows `data:`, trimmed. An empty text and
/// the end marker `[DONE]` are no data.
pub open spec fn line_data(line: Seq<char>) -> Option<Seq<char>> {
    let data = trimmed(line.skip("data:"@.len() as int));
    if begins_with(line, "data:"@) && data.len() > 0 && data != "[DONE]"@ {
        Some(data)
    } else {
        None
    }
}

/// The usage that a line reports.
pub open spec fn line_usage(line: Seq<u8>) -> Option<TokenUsage> {
    if valid_utf8(line) {
        match line_data(decode_utf8(line)) {
            Some(data) => json_usage(encode_utf8(data)),
            None => None,
        }
    } else {
        None
    }
}

/// The usage that the first line to report any reports.
pub open spec fn lines_usage(bytes: Seq<u8>) -> Option<TokenUsage>
    decreases bytes.len(),
{
    if bytes.len() == 0 {
        None
    } else {
        match line_usage(first_line(bytes)) {
            Some(usage) => Some(usage),
            None => lines_usage(after_first_line(bytes)),
        }
    }
}

/// The usage that buffered events report. Bytes that do not name `"usage"`, or are not UTF-8,
/// report none.
pub open spec fn sse_usage(buffer: Seq<u8>) -> Option<TokenUsage> {
    if contains_bytes(buffer, encode_utf8("\"usage\""@)) && valid_utf8(buffer) {
        lines_usage(buffer)
    } else {
        None
    }
}

/// Whether `part` stands anywhere in `bytes`.
pub fn has_bytes(bytes: &[u8], part: &[u8]) -> (found: bool)
    ensures
        found == contains_bytes(bytes@, part@),
{
    if part.len() > bytes.len() {
        return false;
    }
    let total: usize = bytes.len();
    let last: usize = total - part.len();
    let mut at: usize = 0;
    loop
        invariant
            total == bytes@.len(),
            last == bytes@.len() - part@.len(),
            at <= last,
            forall|k: int| 0 <= k < at ==> !#[trigger] bytes_at(bytes@, part@, k),
        decreases last - at,
    {
        if same_bytes(slice_subrange(bytes, at, at + part.len()), part) {
            assert(bytes_at(bytes@, part@, at as int));
            return true;
        }
        assert(!bytes_at(bytes@, part@, at as int));
        if at == last {
            return false;
        }
        at += 1;
    }
}

/// The length of the first line of `bytes`, up to its line feed or the end.
fn measure_line(bytes: &[u8]) -> (n: usize)
    ensures
        n == line_length(bytes@),
        n <= bytes@.len(),
{
    let mut n: usize = 0;
    assert(bytes@.skip(0) =~= bytes@);
    while n < bytes.len() && bytes[n] != 0x0a
        invariant
            n <= bytes@.len(),
            line_length(bytes@) == n + line_length(bytes@.skip(n as int)),
        decreases bytes@.len() - n,
    {
        assert(bytes@.skip(n as int).drop_first() =~= bytes@.skip(n + 1));
        n += 1;
    }
    n
}

/// The data that a line of an event carries.
pub fn event_data(line: &str) -> (data: Option<&str>)
    ensures
        match data {
            Some(data) => line_data(line@) == Some(data@),
            None => line_data(line@) is None,
        },
{
    match strip_prefix(line, "data:") {
        Some(rest) => {
            let data: &str = trim(rest);
            if data.is_empty() || same_text(data, "[DONE]") {
                None
            } else {
                Some(data)
            }
        },
        None => None,
    }
}

/// The usage that a line reports.
fn usage_from_line(line: &[u8]) -> (usage: Option<TokenUsage>)
    ensures
        usage == line_usage(line@),
{
    match utf8_text(line) {
        Some(text) => {
            proof {
                encode_utf8_decode_utf8(text@);
            }
            match event_data(text) {
                Some(data) => usage_from_json(data.as_bytes()),
                None => None,
            }
        },
        None => None,
    }
}

/// The usage that buffered server-sent events report.
///
/// A runtime emits the `usage` block in the final event only, so a scan of the bytes for its name
/// comes before any parsing.
pub fn usage_from_sse_buffer(buffer: &[u8]) -> (usage: Option<TokenUsage>)
    ensures
        usage == sse_usage(buffer@),
{
    if !has_bytes(buffer, "\"usage\"".as_bytes()) {
        return None;
    }
    if utf8_text(buffer).is_none() {
        return None;
    }
    let mut at: usize = 0;
    assert(buffer@.skip(0) =~= buffer@);
    while at < buffer.len()
        invariant
            at <= buffer@.len(),
            sse_usage(buffer@) == lines_usage(buffer@.skip(at as int)),
        decreases buffer@.len() - at,
    {
        let ghost rest = buffer@.skip(at as int);
        let tail: &[u8] = slice_subrange(buffer, at, buffer.len());
        assert(tail@ =~= rest);
        let n: usize = measure_line(tail);
        let end: usize = if 0 < n && n < tail.len() && tail[n - 1] == 0x0d {
            n - 1
        } else {
            n
        };
        let line: &[u8] = slice_subrange(tail, 0, end);
        assert(line@ =~= first_line(rest));
        match usage_from_line(line) {
            Some(usage) => return Some(usage),
            None => (),
        }
        at = if n < tail.len() {
            at + n + 1
        } else {
            buffer.len()
        };
        assert(buffer@.skip(at as int) =~= after_first_line(rest));
    }
    assert(buffer@.skip(at as int) =~= Seq::empty());
    None
}

/// The last `keep` bytes of `bytes`, or all of them where there are fewer.
pub open spec fn last_bytes(bytes: Seq<u8>, keep: int) -> Seq<u8> {
    if bytes.len() > keep {
        bytes.skip(bytes.len() - keep)
    } else {
        bytes
    }
}

/// Drops all but the last [`SSE_BUFFER_KEEP`] bytes.
pub fn trim_sse_buffer(buffer: &mut Vec<u8>)
    ensures
        final(buffer)@ == last_bytes(old(buffer)@, SSE_BUFFER_KEEP as int),
        final(buffer)@.len() <= SSE_BUFFER_KEEP,
{
    if buffer.len() > SSE_BUFFER_KEEP {
        let drop: usize = buffer.len() - SSE_BUFFER_KEEP;
        let kept: Vec<u8> = buffer.split_off(drop);
        *buffer = kept;
        assert(buffer@ =~= last_bytes(old(buffer)@, SSE_BUFFER_KEEP as int));
    }
}

/// What is watched of one response stream: its last bytes, and whether its usage was found.
pub struct StreamMeter {
    pub buffer: Vec<u8>,
    pub recorded: bool,
}

/// What a [`StreamMeter`] knows.
pub struct StreamView {
    pub buffer: Seq<u8>,
    pub recorded: bool,
}

/// What a meter that has seen nothing knows.
pub open spec fn fresh_stream() -> StreamView {
    StreamView { buffer: Seq::empty(), recorded: false }
}

/// The usage that a meter reports on the next chunk: what it finds in the bytes it has kept and
/// the chunk, unless it has reported before.
pub open spec fn stream_report(stream: StreamView, chunk: Seq<u8>) -> Option<TokenUsage> {
    if stream.recorded {
        None
    } else {
        sse_usage(stream.buffer + chunk)
    }
}

/// What a meter knows after the next chunk.
pub open spec fn stream_next(stream: StreamView, chunk: Seq<u8>) -> StreamView {
    StreamView {
        buffer: last_bytes(stream.buffer + chunk, SSE_BUFFER_KEEP as int),
        recorded: stream.recorded || stream_report(stream, chunk) is Some,
    }
}

impl StreamMeter {
    /// What this meter knows.
    pub open spec fn view(&self) -> StreamView {
        StreamView { buffer: self.buffer@, recorded: self.recorded }
    }

    /// A meter that has seen nothing.
    pub fn new() -> (meter: StreamMeter)
        ensures
            meter@ == fresh_stream(),
    {
        StreamMeter { buffer: Vec::new(), recorded: false }
    }

    /// Takes in the next chunk, and reports the usage where it now shows for the first time.
    pub fn observe(&mut self, chunk: &[u8]) -> (usage: Option<TokenUsage>)
        ensures
            usage == stream_report(old(self)@, chunk@),
            final(self)@ == stream_next(old(self)@, chunk@),
    {
        self.buffer.extend_from_slice(chunk);
        assert(self.buffer@ =~= old(self).buffer@ + chunk@);
        let usage: Option<TokenUsage> = if self.recorded {
            None
        } else {
            usage_from_sse_buffer(self.buffer.as_slice())
        };
        if usage.is_some() {
            self.recorded = true;
        }
        trim_sse_buffer(&mut self.buffer);
        usage
    }
}

/// What a meter knows after a run of chunks.
pub open spec fn stream_after(stream: StreamView, chunks: Seq<Seq<u8>>) -> StreamView
    decreases chunks.len(),
{
    if chunks.len() == 0 {
        stream
    } else {
        stream_after(stream_next(stream, chunks[0]), chunks.drop_first())
    }
}

/// The usages that a meter reports over a run of chunks, in order.
pub open spec fn stream_reports(stream: StreamView, chunks: Seq<Seq<u8>>) -> Seq<TokenUsage>
    decreases chunks.len(),
{
    if chunks.len() == 0 {
        Seq::empty()
    } else {
        let rest = stream_reports(stream_next(stream, chunks[0]), chunks.drop_first());
        match stream_report(stream, chunks[0]) {
            Some(usage) => seq![usage] + rest,
            None => rest,
        }
    }
}

/// A run of chunks as one stream of bytes.
pub open spec fn joined(chunks: Seq<Seq<u8>>) -> Seq<u8>
    decreases chunks.len(),
{
    if chunks.len() == 0 {
        Seq::empty()
    } else {
        chunks[0] + joined(chunks.drop_first())
    }
}

/// A stream is metered at most once: however it is cut into chunks, a meter reports one usage or
/// none, and none at all once it has reported.
pub proof fn law_stream_reports_once(stream: StreamView, chunks: Seq<Seq<u8>>)
    ensures
        stream_reports(stream, chunks).len() <= 1,
        stream.recorded ==> stream_reports(stream, chunks).len() == 0,
        stream_after(stream, chunks).recorded == (stream.recorded || stream_reports(
            stream,
            chunks,
        ).len() == 1),
    decreases chunks.len(),
{
    if chunks.len() > 0 {
        law_stream_reports_once(stream_next(stream, chunks[0]), chunks.drop_first());
    }
}

/// However a stream is cut into chunks, a meter keeps its last 64 KiB and nothing else.
pub proof fn law_stream_keeps_last_bytes(chunks: Seq<Seq<u8>>)
    ensures
        stream_after(fresh_stream(), chunks).buffer == last_bytes(
            joined(chunks),
            SSE_BUFFER_KEEP as int,
        ),
{
    lemma_stream_buffer(fresh_stream(), chunks);
    assert(Seq::<u8>::empty() + joined(chunks) =~= joined(chunks));
}

proof fn lemma_stream_buffer(stream: StreamView, chunks: Seq<Seq<u8>>)
    requires
        stream.buffer.len() <= SSE_BUFFER_KEEP,
    ensures
        stream_after(stream, chunks).buffer == last_bytes(
            stream.buffer + joined(chunks),
            SSE_BUFFER_KEEP as int,
        ),
    decreases chunks.len(),
{
    let keep = SSE_BUFFER_KEEP as int;
    if chunks.len() == 0 {
        assert(stream.buffer + joined(chunks) =~= stream.buffer);
    } else {
        let next = stream_next(stream, chunks[0]);
        let tail = joined(chunks.drop_first());
        lemma_stream_buffer(next, chunks.drop_first());
        assert(stream.buffer + joined(chunks) =~= stream.buffer + chunks[0] + tail);
        assert(last_bytes(next.buffer + tail, keep) =~= last_bytes(
            stream.buffer + chunks[0] + tail,
            keep,
        ));
    }
}

/// A run of chunks is a run without the last, and the last.
proof fn lemma_stream_last(stream: StreamView, chunks: Seq<Seq<u8>>)
    requires
        chunks.len() > 0,
    ensures
        stream_after(stream, chunks) == stream_next(
            stream_after(stream, chunks.drop_last()),
            chunks.last(),
        ),
        stream_reports(stream, chunks) == stream_reports(stream, chunks.drop_last()) + (
        match stream_report(stream_after(stream, chunks.drop_last()), chunks.last()) {
            Some(usage) => seq![usage],
            None => Seq::empty(),
        }),
    decreases chunks.len(),
{
    reveal_with_fuel(stream_after, 2);
    reveal_with_fuel(stream_reports, 2);
    if chunks.len() == 1 {
        assert(chunks.drop_first() =~= Seq::empty());
        assert(chunks.drop_last() =~= Seq::empty());
    } else {
        lemma_stream_last(stream_next(stream, chunks[0]), chunks.drop_first());
        assert(chunks.drop_first().drop_last() =~= chunks.drop_last().drop_first());
    }
    assert(stream_reports(stream, chunks) =~= stream_reports(stream, chunks.drop_last()) + (
    match stream_report(stream_after(stream, chunks.drop_last()), chunks.last()) {
        Some(usage) => seq![usage],
        None => Seq::empty(),
    }));
}

/// The first usage that shows in a stream: a chunk shows it together with the last 64 KiB before
/// it.
pub open spec fn first_shown(chunks: Seq<Seq<u8>>) -> Option<TokenUsage>
    decreases chunks.len(),
{
    if chunks.len() == 0 {
        None
    } else {
        match first_shown(chunks.drop_last()) {
            Some(usage) => Some(usage),
            None => sse_usage(
                last_bytes(joined(chunks.drop_last()), SSE_BUFFER_KEEP as int) + chunks.last(),
            ),
        }
    }
}

/// A stream is metered by what it shows: the meter reports the first usage that shows in it, and
/// nothing where none does.
pub proof fn law_stream_reports_first_usage(chunks: Seq<Seq<u8>>)
    ensures
        stream_reports(fresh_stream(), chunks) == (match first_shown(chunks) {
            Some(usage) => seq![usage],
            None => Seq::empty(),
        }),
    decreases chunks.len(),
{
    if chunks.len() > 0 {
        let before = chunks.drop_last();
        law_stream_reports_first_usage(before);
        law_stream_reports_once(fresh_stream(), before);
        law_stream_keeps_last_bytes(before);
        lemma_stream_last(fresh_stream(), chunks);
        assert(stream_reports(fresh_stream(), chunks) =~= match first_shown(chunks) {
            Some(usage) => seq![usage],
            None => Seq::empty(),
        });
    }
}

// ---------------------------------------------------------------------------------------------
// Asking for usage
// ---------------------------------------------------------------------------------------------

/// Whether a request asks for a streamed answer.
pub open spec fn wants_stream(tree: JsonView) -> bool {
    field(tree, "stream"@) == Some(JsonView::Bool(true))
}

/// The stream options of a request, where they are an object; else none.
pub open spec fn stream_options(map: Map<Seq<char>, JsonView>) -> Map<Seq<char>, JsonView> {
    if map.contains_key("stream_options"@) {
        match map["stream_options"@] {
            JsonView::Object(options) => options,
            _ => Map::empty(),
        }
    } else {
        Map::empty()
    }
}

/// A request with `stream_options.include_usage` set. Options that are no object give way to an
/// object with that entry alone.
pub open spec fn asking_for_usage(tree: JsonView) -> JsonView {
    match tree {
        JsonView::Object(map) => JsonView::Object(
            map.insert(
                "stream_options"@,
                JsonView::Object(
                    stream_options(map).insert("include_usage"@, JsonView::Bool(true)),
                ),
            ),
        ),
        other => other,
    }
}

/// Whether a request asks for its usage to be reported.
pub open spec fn asks_for_usage(tree: JsonView) -> bool {
    match field(tree, "stream_options"@) {
        Some(options) => field(options, "include_usage"@) == Some(JsonView::Bool(true)),
        None => false,
    }
}

/// The body that is sent on for `body` on `path`.
pub open spec fn forwarded_body(body: Seq<u8>, path: Seq<char>) -> Seq<u8> {
    match json_parsed(body) {
        Some(tree) => if path == chat_path() && wants_stream(tree) {
            json_text(asking_for_usage(tree))
        } else {
            body
        },
        None => body,
    }
}

/// Every streaming request is made to ask for its usage, nothing else in it changes but for stream
/// options that are no object, and asking twice is asking once.
pub proof fn law_asking_for_usage(tree: JsonView)
    requires
        wants_stream(tree),
    ensures
        asks_for_usage(asking_for_usage(tree)),
        wants_stream(asking_for_usage(tree)),
        forall|key: Seq<char>|
            key != "stream_options"@ ==> #[trigger] field(asking_for_usage(tree), key) == field(
                tree,
                key,
            ),
        field(tree, "stream_options"@) matches Some(options) && options is Object ==> forall|
            key: Seq<char>,
        |
            key != "include_usage"@ ==> #[trigger] field(
                field(asking_for_usage(tree), "stream_options"@)->Some_0,
                key,
            ) == field(field(tree, "stream_options"@)->Some_0, key),
        asking_for_usage(asking_for_usage(tree)) == asking_for_usage(tree),
{
    reveal_strlit("stream");
    reveal_strlit("stream_options");
    assert("stream"@.len() != "stream_options"@.len());
    let once = asking_for_usage(tree);
    let twice = asking_for_usage(once);
    let inner = once->Object_0["stream_options"@];
    assert(twice->Object_0["stream_options"@]->Object_0 =~= inner->Object_0);
    assert(twice->Object_0 =~= once->Object_0);
}

/// Asking for usage adds no key that means something else to the parser.
proof fn lemma_asking_stays_plain(tree: JsonView)
    requires
        is_plain(tree),
    ensures
        is_plain(asking_for_usage(tree)),
{
    reveal_strlit("stream_options");
    reveal_strlit("include_usage");
    lemma_raw_key_length();
    if let JsonView::Object(map) = tree {
        let asked = asking_for_usage(tree)->Object_0;
        let options = asked["stream_options"@];
        assert("stream_options"@.len() < 30);
        assert("include_usage"@.len() < 30);
        assert(is_plain(options)) by {
            if map.contains_key("stream_options"@) {
                assert(is_plain(map["stream_options"@]));
            }
            if let JsonView::Object(inner) = options {
                assert forall|k: Seq<char>| #[trigger] inner.contains_key(k) implies is_plain(
                    inner[k],
                ) by {
                    if k != "include_usage"@ {
                        assert(map["stream_options"@]->Object_0.contains_key(k));
                    }
                }
            }
        }
        assert forall|k: Seq<char>| #[trigger] asked.contains_key(k) implies is_plain(
            asked[k],
        ) by {
            if k != "stream_options"@ {
                assert(map.contains_key(k));
            }
        }
    }
}

/// The document with `stream_options.include_usage` set.
pub fn with_stream_usage(payload: Json) -> (asking: Json)
    ensures
        asking.tree() == asking_for_usage(payload.tree()),
{
    match payload {
        Json::Object(entries) => {
            let mut entries: Vec<(String, Json)> = entries;
            let ghost map = entries_tree(entries@);
            let mut inner: Vec<(String, Json)> = match take_field(&mut entries, "stream_options") {
                Some(Json::Object(inner)) => inner,
                _ => Vec::new(),
            };
            assert(entries_tree(inner@) =~= stream_options(map));
            set_field(&mut inner, "include_usage", Json::Bool(true));
            let options: Json = Json::Object(inner);
            let ghost left = entries_tree(entries@);
            set_field(&mut entries, "stream_options", options);
            proof {
                let key = "stream_options"@;
                let value = options.tree();
                assert(left.insert(key, value) =~= left.remove(key).insert(key, value));
                assert(map.insert(key, value) =~= map.remove(key).insert(key, value));
            }
            Json::Object(entries)
        },
        other => other,
    }
}

/// The body to send on to the model runtime. A streaming chat completion is asked to report its
/// usage; every other body is sent on as it came.
///
/// Whoever parses the body of such a chat completion finds that it asks for usage, wherever the
/// request has no key with a meaning of its own to the parser; and it is sure to parse, as exactly
/// that document, where it carries no number and nests no deeper than the parser follows.
pub fn request_body_with_usage(body: Vec<u8>, path: &str) -> (sent: Vec<u8>)
    ensures
        sent@ == forwarded_body(body@, path@),
        path@ == chat_path() && (json_parsed(body@) matches Some(tree) && wants_stream(tree)
            && is_plain(tree)) ==> (json_parsed(sent@) matches Some(back) ==> asks_for_usage(back)
            && same_but_carried(back, asking_for_usage(json_parsed(body@)->Some_0))),
        path@ == chat_path() && (json_parsed(body@) matches Some(tree) && wants_stream(tree)
            && is_exact(asking_for_usage(tree), 127)) ==> json_parsed(sent@) == Some(
            asking_for_usage(json_parsed(body@)->Some_0),
        ),
{
    if !same_text(path, "/v1/chat/completions") {
        return body;
    }
    let payload: Json = match Json::parse(body.as_slice()) {
        Some(payload) => payload,
        None => return body,
    };
    let streaming: Option<bool> = match payload.get("stream") {
        Some(stream) => stream.as_bool(),
        None => None,
    };
    match streaming {
        Some(true) => {
            let ghost tree = payload.tree();
            let asking: Json = with_stream_usage(payload);
            let ghost asked = asking.tree();
            let sent: Vec<u8> = asking.into_bytes();
            proof {
                if is_plain(tree) {
                    law_asking_for_usage(tree);
                    lemma_asking_stays_plain(tree);
                    if let Some(back) = json_parsed(sent@) {
                        lemma_same_but_carried_asks(back, asked);
                    }
                }
            }
            sent
        },
        _ => body,
    }
}

/// A document that differs only in carried numbers asks for usage too.
proof fn lemma_same_but_carried_asks(back: JsonView, asked: JsonView)
    requires
        same_but_carried(back, asked),
        asks_for_usage(asked),
    ensures
        asks_for_usage(back),
{
    let key = "stream_options"@;
    let inner = "include_usage"@;
    assert(back->Object_0.contains_key(key));
    let options = back->Object_0[key];
    assert(same_but_carried(options, asked->Object_0[key]));
    assert(options->Object_0.contains_key(inner));
    assert(same_but_carried(options->Object_0[inner], asked->Object_0[key]->Object_0[inner]));
}

// ---------------------------------------------------------------------------------------------
// What is metered
// ---------------------------------------------------------------------------------------------

/// A document reports its usage under `usage` and nowhere else: two documents with the same value
/// there report the same usage, whatever else they say, and one without any reports none.
pub proof fn law_usage_stands_under_usage(
    a: Map<Seq<char>, JsonView>,
    b: Map<Seq<char>, JsonView>,
    tree: JsonView,
)
    ensures
        a.contains_key("usage"@) && b.contains_key("usage"@) && a["usage"@] == b["usage"@]
            ==> usage_of(JsonView::Object(a)) == usage_of(JsonView::Object(b)),
        !a.contains_key("usage"@) ==> usage_of(JsonView::Object(a)) is None,
        a.contains_key("usage"@) && !(a["usage"@] is Object) ==> usage_of(
            JsonView::Object(a),
        ) is None,
        !(tree is Object) ==> usage_of(tree) is None,
{
}

/// A document that counts the tokens is metered by its counts, whatever other entries it has: the
/// input under either of its names, the output under either of its names, and the total as it is
/// given, or the sum where none is given, as far as 64 bits hold it.
pub proof fn law_counts_are_metered(
    map: Map<Seq<char>, JsonView>,
    usage: Map<Seq<char>, JsonView>,
    input: u64,
    output: u64,
    total: u64,
)
    requires
        map.contains_key("usage"@),
        map["usage"@] == JsonView::Object(usage),
        (if usage.contains_key("prompt_tokens"@) {
            usage["prompt_tokens"@] == JsonView::Number(JsonNumber::Unsigned(input))
        } else {
            usage.contains_key("input_tokens"@) && usage["input_tokens"@] == JsonView::Number(
                JsonNumber::Unsigned(input),
            )
        }),
        (if usage.contains_key("completion_tokens"@) {
            usage["completion_tokens"@] == JsonView::Number(JsonNumber::Unsigned(output))
        } else {
            usage.contains_key("output_tokens"@) && usage["output_tokens"@] == JsonView::Number(
                JsonNumber::Unsigned(output),
            )
        }),
    ensures
        usage_of(JsonView::Object(map)) matches Some(read) && {
            &&& read.input_tokens == input
            &&& read.output_tokens == output
            &&& usage.contains_key("total_tokens"@) && usage["total_tokens"@] == JsonView::Number(
                JsonNumber::Unsigned(total),
            ) ==> read.total_tokens == total
            &&& !usage.contains_key("total_tokens"@) && input + output <= u64::MAX
                ==> read.total_tokens == input + output
            &&& !usage.contains_key("total_tokens"@) && input + output > u64::MAX
                ==> read.total_tokens == u64::MAX
            &&& !(usage["total_tokens"@] matches JsonView::Number(JsonNumber::Unsigned(_))) && input
                + output <= u64::MAX ==> read.total_tokens == input + output
        },
{
}

/// A document whose input or output is missing, or is no unsigned integer under the name that
/// counts, is not metered.
pub proof fn law_uncounted_is_not_metered(
    map: Map<Seq<char>, JsonView>,
    usage: Map<Seq<char>, JsonView>,
)
    requires
        map.contains_key("usage"@),
        map["usage"@] == JsonView::Object(usage),
        ({
            ||| !usage.contains_key("prompt_tokens"@) && !usage.contains_key("input_tokens"@)
            ||| !usage.contains_key("completion_tokens"@) && !usage.contains_key("output_tokens"@)
            ||| usage.contains_key("prompt_tokens"@) && !(usage["prompt_tokens"@] matches JsonView::Number(
                JsonNumber::Unsigned(_),
            ))
            ||| usage.contains_key("completion_tokens"@) && !(usage["completion_tokens"@] matches JsonView::Number(
                JsonNumber::Unsigned(_),
            ))
            ||| !usage.contains_key("prompt_tokens"@) && !(usage["input_tokens"@] matches JsonView::Number(
                JsonNumber::Unsigned(_),
            ))
            ||| !usage.contains_key("completion_tokens"@) && !(usage["output_tokens"@] matches JsonView::Number(
                JsonNumber::Unsigned(_),
            ))
        }),
    ensures
        usage_of(JsonView::Object(map)) is None,
{
}

/// A body is metered by the document that it spells, and one that spells none is not metered.
pub proof fn law_body_is_metered_by_its_document(bytes: Seq<u8>, tree: JsonView)
    ensures
        json_parsed(bytes) == Some(tree) ==> json_usage(bytes) == usage_of(tree),
        json_parsed(bytes) is None ==> json_usage(bytes) is None,
{
}

/// Bytes contain a part exactly where they are the part with something before and after it.
pub proof fn law_containing_bytes(
    before: Seq<u8>,
    part: Seq<u8>,
    after: Seq<u8>,
    bytes: Seq<u8>,
)
    ensures
        contains_bytes(before + part + after, part),
        contains_bytes(bytes, part) ==> exists|head: Seq<u8>, tail: Seq<u8>|
            bytes == #[trigger] (head + part + tail),
{
    let whole = before + part + after;
    let at = before.len() as int;
    assert(whole.subrange(at, at + part.len()) =~= part);
    assert(bytes_at(whole, part, at));
    if contains_bytes(bytes, part) {
        let at = choose|at: int| #[trigger] bytes_at(bytes, part, at);
        let head = bytes.take(at);
        let tail = bytes.skip(at + part.len());
        assert(bytes =~= head + bytes.subrange(at, at + part.len()) + tail);
        assert(bytes == head + part + tail);
    }
}

/// A line that carries data reports the usage of the document that the data spell, with whatever
/// whitespace around them; the end marker, a line without data, and a line of anything else report
/// none.
pub proof fn law_event_line(before: Seq<char>, data: Seq<char>, after: Seq<char>, line: Seq<char>)
    requires
        forall|i: int| 0 <= i < before.len() ==> is_white(#[trigger] before[i]),
        forall|i: int| 0 <= i < after.len() ==> is_white(#[trigger] after[i]),
        data.len() > 0 ==> !is_white(data[0]) && !is_white(data[data.len() - 1]),
    ensures
        data.len() > 0 && data != "[DONE]"@ ==> line_usage(
            encode_utf8("data:"@ + before + data + after),
        ) == json_usage(encode_utf8(data)),
        data.len() == 0 || data == "[DONE]"@ ==> line_usage(
            encode_utf8("data:"@ + before + data + after),
        ) is None,
        line.len() < 5 || line.take(5) != "data:"@ ==> line_usage(encode_utf8(line)) is None,
{
    reveal_strlit("data:");
    let prefix = "data:"@;
    assert(prefix.len() == 5);
    let text = prefix + before + data + after;
    encode_utf8_valid_utf8(text);
    encode_utf8_decode_utf8(text);
    encode_utf8_valid_utf8(line);
    encode_utf8_decode_utf8(line);
    assert(text.take(5) =~= prefix);
    assert(text.skip(5) =~= before + data + after);
    law_trimming(before, data, after);
}

/// Bytes that are not UTF-8 report nothing.
pub proof fn law_broken_text_is_not_metered(bytes: Seq<u8>)
    requires
        !valid_utf8(bytes),
    ensures
        line_usage(bytes) is None,
        sse_usage(bytes) is None,
{
}

/// Events are read line by line, and the first line to report a usage decides. A line ends with a
/// line feed, a carriage return before which is not part of it, or with the bytes.
pub proof fn law_lines(line: Seq<u8>, rest: Seq<u8>)
    requires
        forall|i: int| 0 <= i < line.len() ==> #[trigger] line[i] != 0x0a,
    ensures
        lines_usage(Seq::empty()) is None,
        line.len() > 0 ==> lines_usage(line) == line_usage(line),
        ({
            let own = if line.len() > 0 && line[line.len() - 1] == 0x0d {
                line.take(line.len() - 1)
            } else {
                line
            };
            lines_usage(line + seq![0x0au8] + rest) == (match line_usage(own) {
                Some(usage) => Some(usage),
                None => lines_usage(rest),
            })
        }),
{
    let whole = line + seq![0x0au8] + rest;
    let n = line.len() as int;
    lemma_line_length(line, rest);
    assert(whole.take(n) =~= line);
    assert(line.take(n) =~= line);
    assert(whole.skip(n + 1) =~= rest);
    assert(n > 0 ==> whole[n - 1] == line[n - 1]);
    if n > 0 {
        assert(whole.take(n - 1) =~= line.take(n - 1));
    }
    assert(whole.len() > 0);
    if n > 0 {
        reveal_with_fuel(lines_usage, 2);
        assert(after_first_line(line) =~= Seq::empty());
        assert(first_line(line) =~= line);
    }
}

proof fn lemma_line_length(line: Seq<u8>, rest: Seq<u8>)
    requires
        forall|i: int| 0 <= i < line.len() ==> #[trigger] line[i] != 0x0a,
    ensures
        line_length(line) == line.len(),
        line_length(line + seq![0x0au8] + rest) == line.len(),
    decreases line.len(),
{
    let whole = line + seq![0x0au8] + rest;
    if line.len() > 0 {
        assert(line[0] != 0x0a);
        let shorter = line.drop_first();
        assert forall|i: int| 0 <= i < shorter.len() implies #[trigger] shorter[i] != 0x0a by {
            assert(shorter[i] == line[i + 1]);
        }
        lemma_line_length(shorter, rest);
        assert(whole.drop_first() =~= shorter + seq![0x0au8] + rest);
    }
}

/// Buffered events are read wherever they name `"usage"`, and nowhere else.
pub proof fn law_events_that_name_usage(head: Seq<u8>, tail: Seq<u8>, buffer: Seq<u8>)
    ensures
        ({
            let named = head + encode_utf8("\"usage\""@) + tail;
            valid_utf8(named) ==> sse_usage(named) == lines_usage(named)
        }),
        sse_usage(buffer) is Some ==> exists|a: Seq<u8>, b: Seq<u8>|
            buffer == #[trigger] (a + encode_utf8("\"usage\""@) + b),
{
    law_containing_bytes(head, encode_utf8("\"usage\""@), tail, buffer);
}

/// A stream is metered by its usage event: after whatever events that report no usage, an event
/// whose data spell a document that reports one, on a line of its own, reports exactly that
/// usage, whatever follows it.
pub proof fn law_usage_event_is_metered(
    before: Seq<u8>,
    data: Seq<char>,
    after: Seq<u8>,
    head: Seq<u8>,
    tail: Seq<u8>,
)
    requires
        before.len() > 0 ==> before[before.len() - 1] == 0x0a,
        lines_usage(before) is None,
        data.len() > 0,
        data != "[DONE]"@,
        !is_white(data[0]),
        !is_white(data[data.len() - 1]),
        forall|i: int|
            0 <= i < encode_utf8("data: "@ + data).len() ==> #[trigger] encode_utf8(
                "data: "@ + data,
            )[i] != 0x0a,
        encode_utf8("data: "@ + data)[encode_utf8("data: "@ + data).len() - 1] != 0x0d,
        valid_utf8(before + encode_utf8("data: "@ + data) + seq![0x0au8] + after),
        json_usage(encode_utf8(data)) is Some,
        before + encode_utf8("data: "@ + data) + seq![0x0au8] + after == head + encode_utf8(
            "\"usage\""@,
        ) + tail,
    ensures
        sse_usage(before + encode_utf8("data: "@ + data) + seq![0x0au8] + after) == json_usage(
            encode_utf8(data),
        ),
{
    let line = encode_utf8("data: "@ + data);
    let buffer = before + line + seq![0x0au8] + after;
    law_events_that_name_usage(head, tail, buffer);
    assert(buffer =~= before + (line + seq![0x0au8] + after));
    lemma_lines_after(before, line + seq![0x0au8] + after);
    law_lines(line, after);
    reveal_strlit("data: ");
    reveal_strlit("data:");
    let space = seq![' '];
    assert("data:"@ + space + data + Seq::empty() =~= "data: "@ + data) by {
        assert("data: "@ =~= "data:"@ + space);
    }
    law_event_line(space, data, Seq::empty(), Seq::empty());
}

/// Whole lines that report no usage leave it to those that follow.
proof fn lemma_lines_after(before: Seq<u8>, rest: Seq<u8>)
    requires
        before.len() > 0 ==> before[before.len() - 1] == 0x0a,
        lines_usage(before) is None,
    ensures
        lines_usage(before + rest) == lines_usage(rest),
    decreases before.len(),
{
    if before.len() == 0 {
        assert(before + rest =~= rest);
    } else {
        let n = line_length(before) as int;
        lemma_first_line_feed(before);
        let line = before.take(n);
        let others = before.skip(n + 1);
        assert(before =~= line + seq![0x0au8] + others);
        assert(before + rest =~= line + seq![0x0au8] + (others + rest));
        law_lines(line, others);
        law_lines(line, others + rest);
        lemma_lines_after(others, rest);
    }
}

proof fn lemma_first_line_feed(bytes: Seq<u8>)
    requires
        bytes.len() > 0,
        bytes[bytes.len() - 1] == 0x0a,
    ensures
        line_length(bytes) < bytes.len(),
        bytes[line_length(bytes) as int] == 0x0a,
        forall|i: int| 0 <= i < line_length(bytes) ==> #[trigger] bytes[i] != 0x0a,
    decreases bytes.len(),
{
    if bytes[0] != 0x0a {
        let rest = bytes.drop_first();
        assert(rest[rest.len() - 1] == bytes[bytes.len() - 1]);
        lemma_first_line_feed(rest);
        assert forall|i: int| 0 <= i < line_length(bytes) implies #[trigger] bytes[i] != 0x0a by {
            if i > 0 {
                assert(rest[i - 1] == bytes[i]);
            }
        }
    }
}

/// A meter looks for usage in what it has kept and the next chunk together, until it has found it
/// once, and keeps the last 65536 bytes of the two.
pub proof fn law_stream_step(buffer: Seq<u8>, chunk: Seq<u8>, dropped: Seq<u8>, kept: Seq<u8>)
    requires
        buffer + chunk == dropped + kept,
    ensures
        stream_report(StreamView { buffer, recorded: false }, chunk) == sse_usage(buffer + chunk),
        stream_report(StreamView { buffer, recorded: true }, chunk) is None,
        kept.len() == 65536 || (kept.len() < 65536 && dropped.len() == 0) ==> stream_next(
            StreamView { buffer, recorded: false },
            chunk,
        ).buffer == kept && stream_next(StreamView { buffer, recorded: true }, chunk).buffer
            == kept,
        stream_next(StreamView { buffer, recorded: false }, chunk).recorded == (sse_usage(
            buffer + chunk,
        ) is Some),
        stream_next(StreamView { buffer, recorded: true }, chunk).recorded,
        fresh_stream().buffer.len() == 0 && !fresh_stream().recorded,
{
    let all = buffer + chunk;
    if kept.len() == 65536 {
        assert(all.skip(all.len() - 65536) =~= kept);
        assert(dropped.len() == 0 ==> all =~= kept);
    } else if dropped.len() == 0 {
        assert(all =~= kept);
    }
}

/// A meter is taken for what it holds.
pub proof fn law_stream_meters(meter: StreamMeter)
    ensures
        meter@.buffer == meter.buffer@,
        meter@.recorded == meter.recorded,
{
}

/// A chat completion that asks for a stream is made to ask for its usage: what is sent on is the
/// request itself, with `include_usage` set among its stream options, and every other entry of the
/// request and of its options as it was.
pub proof fn law_streaming_request_asks(
    body: Seq<u8>,
    map: Map<Seq<char>, JsonView>,
    options: Map<Seq<char>, JsonView>,
)
    requires
        json_parsed(body) == Some(JsonView::Object(map)),
        map.contains_key("stream"@),
        map["stream"@] == JsonView::Bool(true),
    ensures
        map.contains_key("stream_options"@) && map["stream_options"@] == JsonView::Object(options)
            ==> forwarded_body(body, "/v1/chat/completions"@) == json_text(
            JsonView::Object(
                map.insert(
                    "stream_options"@,
                    JsonView::Object(options.insert("include_usage"@, JsonView::Bool(true))),
                ),
            ),
        ),
        !map.contains_key("stream_options"@) || !(map["stream_options"@] is Object)
            ==> forwarded_body(body, "/v1/chat/completions"@) == json_text(
            JsonView::Object(
                map.insert(
                    "stream_options"@,
                    JsonView::Object(
                        Map::empty().insert("include_usage"@, JsonView::Bool(true)),
                    ),
                ),
            ),
        ),
{
}

/// Every other body is sent on as it came: one for another path, one that spells no object, and
/// one that does not ask for a stream.
pub proof fn law_other_bodies_pass(body: Seq<u8>, path: Seq<char>, map: Map<Seq<char>, JsonView>)
    requires
        ({
            ||| path != "/v1/chat/completions"@
            ||| json_parsed(body) is None
            ||| json_parsed(body) matches Some(tree) && !(tree is Object)
            ||| json_parsed(body) == Some(JsonView::Object(map)) && (!map.contains_key("stream"@)
                || map["stream"@] != JsonView::Bool(true))
        }),
    ensures
        forwarded_body(body, path) == body,
{
}

} // verus!
