//! What the agent sends and receives over HTTP, as plain values.

use vstd::prelude::*;
use vstd::utf8::*;
use crate::json::{
    is_exact, json_parsed, json_text, lemma_raw_key_length, set_field, Json, JsonView,
};
use crate::text::{decimal, decimal_text, same_text, utf8_text};

verus! {

// ---------------------------------------------------------------------------------------------
// Status codes
// ---------------------------------------------------------------------------------------------

/// The reason phrase that `axum::http::StatusCode::canonical_reason` gives for a status code.
pub uninterp spec fn status_reason(code: u16) -> Option<Seq<char>>;

/// Whether `c` is a letter, a space, a hyphen or an apostrophe.
pub open spec fn is_phrase_char(c: char) -> bool {
    ||| 'a' <= c <= 'z'
    ||| 'A' <= c <= 'Z'
    ||| c == ' '
    ||| c == '-'
    ||| c == '\''
}

/// Whether `text` is made like a reason phrase: at most 31 letters, spaces, hyphens and
/// apostrophes.
pub open spec fn is_phrase(text: Seq<char>) -> bool {
    text.len() <= 31 && forall|i: int| 0 <= i < text.len() ==> is_phrase_char(#[trigger] text[i])
}

/// `axum::http::StatusCode::canonical_reason`: the phrase that a fixed table has for a status
/// code, if it has one; numbers that are no status code have none. Every phrase of the table is
/// made of at most 31 letters, spaces, hyphens and apostrophes.
#[verifier::external_body]
fn canonical_reason(code: u16) -> (reason: Option<&'static str>)
    ensures
        match reason {
            Some(reason) => status_reason(code) == Some(reason@) && is_phrase(reason@),
            None => status_reason(code) is None,
        },
{
    match axum::http::StatusCode::from_u16(code) {
        Ok(status) => status.canonical_reason(),
        Err(_) => None,
    }
}

/// How a status is written: its number, and its reason phrase.
pub open spec fn status_line(code: u16) -> Seq<char> {
    decimal_text(code as nat) + " "@ + match status_reason(code) {
        Some(reason) => reason,
        None => "<unknown status code>"@,
    }
}

/// How a status is written: its number, and its reason phrase.
pub fn status_text(code: u16) -> (text: String)
    ensures
        text@ == status_line(code),
        status_reason(code) matches Some(reason) ==> is_phrase(reason),
{
    let mut text: String = decimal(code as u128);
    text.append(" ");
    match canonical_reason(code) {
        Some(reason) => text.append(reason),
        None => text.append("<unknown status code>"),
    }
    text
}

// ---------------------------------------------------------------------------------------------
// Calls to the control plane and the model runtime
// ---------------------------------------------------------------------------------------------

/// The method of a call.
#[derive(Debug, Clone, Copy, PartialEq, Eq, Structural)]
pub enum Method {
    Get,
    Post,
}

/// A call to make.
#[derive(Debug)]
pub struct Call {
    pub method: Method,
    pub url: String,
    pub headers: Vec<(String, String)>,
    pub body: Option<Vec<u8>>,
}

/// What a [`Call`] sends.
pub struct CallView {
    pub method: Method,
    pub url: Seq<char>,
    pub headers: Seq<(Seq<char>, Seq<char>)>,
    pub body: Option<Seq<u8>>,
}

/// The headers of a call, as texts.
pub open spec fn text_headers(headers: Seq<(String, String)>) -> Seq<(Seq<char>, Seq<char>)> {
    headers.map_values(|header: (String, String)| (header.0@, header.1@))
}

impl Call {
    /// What this call sends.
    pub open spec fn view(&self) -> CallView {
        CallView {
            method: self.method,
            url: self.url@,
            headers: text_headers(self.headers@),
            body: match self.body {
                Some(body) => Some(body@),
                None => None,
            },
        }
    }

    /// A call without a body.
    pub fn get(url: String) -> (call: Call)
        ensures
            call@ == get_call(url@),
    {
        let call: Call = Call { method: Method::Get, url, headers: Vec::new(), body: None };
        assert(text_headers(call.headers@) =~= Seq::empty());
        call
    }

    /// A call that sends a JSON document.
    pub fn post(url: String, document: Json) -> (call: Call)
        ensures
            call@ == post_call(url@, document.tree()),
            is_exact(document.tree(), 127) ==> json_parsed(
                call@.body->Some_0,
            ) == Some(document.tree()),
    {
        let body: Vec<u8> = document.into_bytes();
        let call: Call = Call {
            method: Method::Post,
            url,
            headers: Vec::new(),
            body: Some(body),
        };
        assert(text_headers(call.headers@) =~= Seq::empty());
        call.with_header("Content-Type", "application/json")
    }

    /// This call with one more header.
    pub fn with_header(self, name: &str, value: &str) -> (call: Call)
        ensures
            call@ == with_header(self@, name@, value@),
    {
        let mut headers: Vec<(String, String)> = self.headers;
        headers.push((name.to_owned(), value.to_owned()));
        assert(text_headers(headers@) =~= text_headers(self.headers@).push((name@, value@)));
        Call { method: self.method, url: self.url, headers, body: self.body }
    }
}

/// A call to `url` without a body.
pub open spec fn get_call(url: Seq<char>) -> CallView {
    CallView { method: Method::Get, url, headers: Seq::empty(), body: None }
}

/// A call to `url` that sends a JSON document.
pub open spec fn post_call(url: Seq<char>, document: JsonView) -> CallView {
    CallView {
        method: Method::Post,
        url,
        headers: seq![("Content-Type"@, "application/json"@)],
        body: Some(json_text(document)),
    }
}

/// A call with one more header.
pub open spec fn with_header(call: CallView, name: Seq<char>, value: Seq<char>) -> CallView {
    CallView { headers: call.headers.push((name, value)), ..call }
}

/// What came of a call.
#[derive(Debug)]
pub enum Reply<T> {
    /// There was no answer. The text says why.
    Unreachable(String),
    /// The answer's status was not one of success. The detail is the answer's text, where that
    /// could be read.
    Rejected { status: u16, detail: Option<String> },
    /// The answer's status was one of success, but its body was not what it should be. The text
    /// says why.
    Malformed(String),
    /// The answer.
    Answered(T),
}

// ---------------------------------------------------------------------------------------------
// Headers of proxied requests and responses
// ---------------------------------------------------------------------------------------------

/// A header: its name in lower case, and its value.
pub type Header = (String, Vec<u8>);

/// A header's name and value.
pub type HeaderView = (Seq<char>, Seq<u8>);

/// The headers as names and values.
pub open spec fn headers_view(headers: Seq<Header>) -> Seq<HeaderView> {
    headers.map_values(|header: Header| (header.0@, header.1@))
}

/// Whether a header belongs to the connection that it came on, and not to what is sent over it.
pub open spec fn belongs_to_hop(name: Seq<char>) -> bool {
    ||| name == "connection"@
    ||| name == "keep-alive"@
    ||| name == "proxy-authenticate"@
    ||| name == "proxy-authorization"@
    ||| name == "te"@
    ||| name == "trailer"@
    ||| name == "transfer-encoding"@
    ||| name == "upgrade"@
}

/// Whether a request header is sent on to the model runtime. Those that belong to the connection
/// or to the consumer's grant are not.
pub open spec fn forwards_request_header(name: Seq<char>) -> bool {
    &&& !belongs_to_hop(name)
    &&& name != "authorization"@
    &&& name != "host"@
    &&& name != "content-length"@
}

/// Whether a response header is sent back to the consumer. Those that belong to the connection,
/// or to how the body was sent over it, are not.
pub open spec fn forwards_response_header(name: Seq<char>) -> bool {
    &&& !belongs_to_hop(name)
    &&& name != "content-length"@
    &&& name != "content-encoding"@
}

/// Whether a header belongs to the connection that it came on.
fn is_hop_by_hop(name: &str) -> (hop: bool)
    ensures
        hop == belongs_to_hop(name@),
{
    same_text(name, "connection") || same_text(name, "keep-alive") || same_text(
        name,
        "proxy-authenticate",
    ) || same_text(name, "proxy-authorization") || same_text(name, "te") || same_text(
        name,
        "trailer",
    ) || same_text(name, "transfer-encoding") || same_text(name, "upgrade")
}

/// Whether a request header is sent on to the model runtime.
pub fn should_forward_request_header(name: &str) -> (forward: bool)
    ensures
        forward == forwards_request_header(name@),
{
    !is_hop_by_hop(name) && !same_text(name, "authorization") && !same_text(name, "host")
        && !same_text(name, "content-length")
}

/// Whether a response header is sent back to the consumer.
pub fn should_forward_response_header(name: &str) -> (forward: bool)
    ensures
        forward == forwards_response_header(name@),
{
    !is_hop_by_hop(name) && !same_text(name, "content-length") && !same_text(
        name,
        "content-encoding",
    )
}

/// The request headers that are sent on, in their order.
pub open spec fn sent_on(headers: Seq<HeaderView>) -> Seq<HeaderView>
    decreases headers.len(),
{
    if headers.len() == 0 {
        Seq::empty()
    } else {
        let rest = sent_on(headers.drop_last());
        if forwards_request_header(headers.last().0) {
            rest.push(headers.last())
        } else {
            rest
        }
    }
}

/// The request headers that are sent on, in their order.
pub fn forwarded_request_headers(headers: &Vec<Header>) -> (sent: Vec<Header>)
    ensures
        headers_view(sent@) == sent_on(headers_view(headers@)),
{
    let mut sent: Vec<Header> = Vec::new();
    let mut i: usize = 0;
    assert(headers_view(sent@) =~= Seq::empty());
    while i < headers.len()
        invariant
            i <= headers@.len(),
            headers_view(sent@) == sent_on(headers_view(headers@.take(i as int))),
        decreases headers@.len() - i,
    {
        let ghost before = headers_view(headers@.take(i as int));
        let ghost after = headers_view(headers@.take(i + 1));
        assert(after.drop_last() =~= before);
        let header: &Header = &headers[i];
        assert(after.last() == (header.0@, header.1@));
        if should_forward_request_header(header.0.as_str()) {
            let ghost so_far = sent@;
            let value: Vec<u8> = vstd::slice::slice_to_vec(header.1.as_slice());
            sent.push((header.0.clone(), value));
            assert(headers_view(sent@) =~= headers_view(so_far).push(after.last()));
        }
        i += 1;
    }
    assert(headers@.take(i as int) =~= headers@);
    sent
}

/// Whether a response header goes back as the model runtime sent it. The instruction not to guess
/// the content's type is the gateway's own.
pub open spec fn goes_back(name: Seq<char>) -> bool {
    forwards_response_header(name) && name != "x-content-type-options"@
}

/// The response headers that go back as they came, in their order.
pub open spec fn kept_back(headers: Seq<HeaderView>) -> Seq<HeaderView>
    decreases headers.len(),
{
    if headers.len() == 0 {
        Seq::empty()
    } else {
        let rest = kept_back(headers.drop_last());
        if goes_back(headers.last().0) {
            rest.push(headers.last())
        } else {
            rest
        }
    }
}

/// The headers that a proxied response has, given those of the model runtime's answer: each that
/// goes back, in their order and with all their values, and then, once, the instruction not to
/// guess the content's type.
pub open spec fn sent_back(headers: Seq<HeaderView>) -> Seq<HeaderView> {
    kept_back(headers).push(("x-content-type-options"@, encode_utf8("nosniff"@)))
}

/// The headers that a proxied response has, given those of the model runtime's answer.
pub fn response_headers(headers: &Vec<Header>) -> (back: Vec<Header>)
    ensures
        headers_view(back@) == sent_back(headers_view(headers@)),
{
    let mut back: Vec<Header> = Vec::new();
    let mut i: usize = 0;
    assert(headers_view(back@) =~= Seq::empty());
    while i < headers.len()
        invariant
            i <= headers@.len(),
            headers_view(back@) == kept_back(headers_view(headers@.take(i as int))),
        decreases headers@.len() - i,
    {
        let ghost before = headers_view(headers@.take(i as int));
        let ghost after = headers_view(headers@.take(i + 1));
        assert(after.drop_last() =~= before);
        let header: &Header = &headers[i];
        assert(after.last() == (header.0@, header.1@));
        let name: &str = header.0.as_str();
        if should_forward_response_header(name) && !same_text(name, "x-content-type-options") {
            let ghost so_far = back@;
            let value: Vec<u8> = vstd::slice::slice_to_vec(header.1.as_slice());
            back.push((header.0.clone(), value));
            assert(headers_view(back@) =~= headers_view(so_far).push(after.last()));
        }
        i += 1;
    }
    assert(headers@.take(i as int) =~= headers@);
    let ghost kept = back@;
    let nosniff: Vec<u8> = vstd::slice::slice_to_vec("nosniff".as_bytes());
    back.push(("x-content-type-options".to_owned(), nosniff));
    assert(headers_view(back@) =~= headers_view(kept).push(
        ("x-content-type-options"@, encode_utf8("nosniff"@)),
    ));
    back
}

/// The values of the headers with the name `name`, in their order.
pub open spec fn values_of(headers: Seq<HeaderView>, name: Seq<char>) -> Seq<Seq<u8>>
    decreases headers.len(),
{
    if headers.len() == 0 {
        Seq::empty()
    } else {
        let rest = values_of(headers.drop_last(), name);
        if headers.last().0 == name {
            rest.push(headers.last().1)
        } else {
            rest
        }
    }
}

/// No value is lost on the way back: a header that goes back has all the values that the model
/// runtime gave it, in their order, one that does not has none, and the content's type is not to
/// be guessed, whatever the runtime says of that.
pub proof fn law_response_headers_keep_their_values(headers: Seq<HeaderView>, name: Seq<char>)
    ensures
        values_of(sent_back(headers), name) == (if name == "x-content-type-options"@ {
            seq![encode_utf8("nosniff"@)]
        } else if forwards_response_header(name) {
            values_of(headers, name)
        } else {
            Seq::empty()
        }),
{
    lemma_kept_values(headers, name);
    let back = sent_back(headers);
    assert(back.drop_last() =~= kept_back(headers));
    if name == "x-content-type-options"@ {
        assert(values_of(back, name) =~= seq![encode_utf8("nosniff"@)]);
    }
}

proof fn lemma_kept_values(headers: Seq<HeaderView>, name: Seq<char>)
    ensures
        values_of(kept_back(headers), name) == (if goes_back(name) {
            values_of(headers, name)
        } else {
            Seq::empty()
        }),
    decreases headers.len(),
{
    if headers.len() > 0 {
        lemma_kept_values(headers.drop_last(), name);
        if goes_back(headers.last().0) {
            assert(kept_back(headers).drop_last() =~= kept_back(headers.drop_last()));
        }
    }
}

/// Whether `b` is a visible ASCII character, a space or a tab.
pub open spec fn is_header_text(b: u8) -> bool {
    0x20 <= b < 0x7f || b == 0x09
}

/// The value of the first header with the name `name`, when it is a text.
pub open spec fn header_value(headers: Seq<HeaderView>, name: Seq<char>) -> Option<Seq<char>>
    decreases headers.len(),
{
    if headers.len() == 0 {
        None
    } else if headers[0].0 == name {
        let value = headers[0].1;
        if forall|i: int| 0 <= i < value.len() ==> is_header_text(#[trigger] value[i]) {
            Some(decode_utf8(value))
        } else {
            None
        }
    } else {
        header_value(headers.drop_first(), name)
    }
}

/// Bytes of ASCII characters are valid UTF-8.
proof fn lemma_ascii_is_utf8(bytes: Seq<u8>)
    requires
        forall|i: int| 0 <= i < bytes.len() ==> #[trigger] bytes[i] < 0x80,
    ensures
        valid_utf8(bytes),
    decreases bytes.len(),
{
    if bytes.len() > 0 {
        let first = bytes[0];
        assert(first < 0x80);
        assert(first & 0x7f == first) by (bit_vector)
            requires
                first < 0x80u8,
        ;
        let rest = pop_first_scalar(bytes);
        assert(rest =~= bytes.skip(1));
        lemma_ascii_is_utf8(rest);
    }
}

/// The value of the first header with the name `name`, when it is a text.
pub fn header_text<'a>(headers: &'a Vec<Header>, name: &str) -> (value: Option<&'a str>)
    ensures
        match value {
            Some(value) => header_value(headers_view(headers@), name@) == Some(value@),
            None => header_value(headers_view(headers@), name@) is None,
        },
{
    let ghost all = headers_view(headers@);
    let mut i: usize = 0;
    assert(all.skip(0) =~= all);
    while i < headers.len()
        invariant
            i <= headers@.len(),
            all == headers_view(headers@),
            header_value(all, name@) == header_value(all.skip(i as int), name@),
        decreases headers@.len() - i,
    {
        let header: &'a Header = &headers[i];
        assert(all.skip(i as int)[0] == (header.0@, header.1@));
        if same_text(header.0.as_str(), name) {
            let value: &'a [u8] = header.1.as_slice();
            let mut k: usize = 0;
            while k < value.len()
                invariant
                    k <= value@.len(),
                    value@ == header.1@,
                    all == headers_view(headers@),
                    header_value(all, name@) == (if forall|j: int|
                        0 <= j < value@.len() ==> is_header_text(#[trigger] value@[j]) {
                        Some(decode_utf8(value@))
                    } else {
                        None
                    }),
                    forall|j: int| 0 <= j < k ==> is_header_text(#[trigger] value@[j]),
                decreases value@.len() - k,
            {
                let b: u8 = value[k];
                if !((0x20 <= b && b < 0x7f) || b == 0x09) {
                    assert(!is_header_text(value@[k as int]));
                    return None;
                }
                k += 1;
            }
            proof {
                lemma_ascii_is_utf8(value@);
            }
            let text: Option<&'a str> = utf8_text(value);
            proof {
                encode_utf8_decode_utf8(text->Some_0@);
            }
            return text;
        }
        assert(all.skip(i as int).drop_first() =~= all.skip(i + 1));
        i += 1;
    }
    assert(all.skip(i as int) =~= Seq::empty());
    None
}

// ---------------------------------------------------------------------------------------------
// The gateway's own answers
// ---------------------------------------------------------------------------------------------

/// An answer that the gateway gives by itself: a JSON document with a status.
#[derive(Debug)]
pub struct GatewayAnswer {
    pub status: u16,
    pub body: Vec<u8>,
}

/// What a [`GatewayAnswer`] says.
pub struct AnswerView {
    pub status: u16,
    pub body: Seq<u8>,
}

impl GatewayAnswer {
    /// What this answer says.
    pub open spec fn view(&self) -> AnswerView {
        AnswerView { status: self.status, body: self.body@ }
    }

    /// The type of every answer's content.
    pub fn content_type() -> (name: &'static str)
        ensures
            name@ == "application/json"@,
    {
        "application/json"
    }
}

/// The document that reports an error to the consumer.
pub open spec fn error_document(message: Seq<char>) -> JsonView {
    JsonView::Object(
        Map::empty().insert(
            "error"@,
            JsonView::Object(
                Map::empty().insert("message"@, JsonView::Text(message)).insert(
                    "type"@,
                    JsonView::Text("gateway_error"@),
                ),
            ),
        ),
    )
}

/// The answer that reports an error.
pub open spec fn error_answer(status: u16, message: Seq<char>) -> AnswerView {
    AnswerView { status, body: json_text(error_document(message)) }
}

/// An error document reads back as it was written.
proof fn lemma_error_document_exact(message: Seq<char>)
    ensures
        is_exact(error_document(message), 127),
{
    reveal_strlit("error");
    reveal_strlit("message");
    reveal_strlit("type");
    lemma_raw_key_length();
    let outer = error_document(message)->Object_0;
    let inner = outer["error"@]->Object_0;
    assert("error"@.len() < 30);
    assert("message"@.len() < 30);
    assert("type"@.len() < 30);
    assert forall|k: Seq<char>| #[trigger] inner.contains_key(k) implies is_exact(
        inner[k],
        125,
    ) by {}
    assert(is_exact(outer["error"@], 126));
}

/// The answer that reports an error. Whoever parses it reads the message.
pub fn json_error(status: u16, message: &str) -> (answer: GatewayAnswer)
    ensures
        answer@ == error_answer(status, message@),
        json_parsed(answer@.body) == Some(error_document(message@)),
{
    let mut inner: Vec<(String, Json)> = Vec::new();
    set_field(&mut inner, "message", Json::text(message));
    set_field(&mut inner, "type", Json::text("gateway_error"));
    let mut outer: Vec<(String, Json)> = Vec::new();
    set_field(&mut outer, "error", Json::Object(inner));
    proof {
        lemma_error_document_exact(message@);
    }
    GatewayAnswer { status, body: Json::Object(outer).into_bytes() }
}

// ---------------------------------------------------------------------------------------------
// What goes over the wire
// ---------------------------------------------------------------------------------------------

/// A status is written as its number, a space and its reason phrase, and one without a phrase says
/// so.
pub proof fn law_status_line(code: u16, reason: Seq<char>)
    ensures
        status_reason(code) == Some(reason) ==> status_line(code) == decimal_text(code as nat)
            + " "@ + reason,
        status_reason(code) is None ==> status_line(code) == decimal_text(code as nat) + " "@
            + "<unknown status code>"@,
{
}

/// A call goes to the URL that it is made for: with the method GET and nothing else, or with the
/// method POST, the document's text for its body, and the header that says that this is JSON. A
/// header that is added comes last, and changes nothing else.
pub proof fn law_calls(
    url: Seq<char>,
    document: JsonView,
    call: CallView,
    name: Seq<char>,
    value: Seq<char>,
)
    ensures
        get_call(url).method == Method::Get,
        get_call(url).url == url,
        get_call(url).headers.len() == 0,
        get_call(url).body is None,
        post_call(url, document).method == Method::Post,
        post_call(url, document).url == url,
        post_call(url, document).headers.len() == 1,
        post_call(url, document).headers[0] == ("Content-Type"@, "application/json"@),
        post_call(url, document).body == Some(json_text(document)),
        ({
            let more = with_header(call, name, value);
            &&& more.method == call.method
            &&& more.url == call.url
            &&& more.body == call.body
            &&& more.headers.len() == call.headers.len() + 1
            &&& more.headers[call.headers.len() as int] == (name, value)
            &&& more.headers.take(call.headers.len() as int) == call.headers
        }),
{
    assert(with_header(call, name, value).headers.take(call.headers.len() as int) =~= call.headers);
}

/// A call, an answer and headers are taken for what they hold.
pub proof fn law_messages(call: Call, answer: GatewayAnswer, headers: Seq<Header>, i: int)
    ensures
        call@.method == call.method,
        call@.url == call.url@,
        call@.headers.len() == call.headers@.len(),
        0 <= i < call.headers@.len() ==> call@.headers[i] == (
            call.headers@[i].0@,
            call.headers@[i].1@,
        ),
        call.body matches Some(body) ==> call@.body == Some(body@),
        call.body is None ==> call@.body is None,
        answer@.status == answer.status,
        answer@.body == answer.body@,
        headers_view(headers).len() == headers.len(),
        0 <= i < headers.len() ==> headers_view(headers)[i] == (headers[i].0@, headers[i].1@),
{
}

/// Request headers are sent on one by one, each as it came and in its place: all but those of the
/// connection, the consumer's credential, the host and the length.
pub proof fn law_request_headers(a: Seq<HeaderView>, b: Seq<HeaderView>, header: HeaderView)
    ensures
        sent_on(a + b) == sent_on(a) + sent_on(b),
        sent_on(seq![header]) == (if set![
            "connection"@,
            "keep-alive"@,
            "proxy-authenticate"@,
            "proxy-authorization"@,
            "te"@,
            "trailer"@,
            "transfer-encoding"@,
            "upgrade"@,
            "authorization"@,
            "host"@,
            "content-length"@,
        ].contains(header.0) {
            Seq::empty()
        } else {
            seq![header]
        }),
    decreases b.len(),
{
    if b.len() == 0 {
        assert(a + b =~= a);
        assert(sent_on(a) + sent_on(b) =~= sent_on(a));
    } else {
        law_request_headers(a, b.drop_last(), header);
        assert((a + b).drop_last() =~= a + b.drop_last());
        assert(sent_on(a + b) =~= sent_on(a) + sent_on(b));
    }
    let one = seq![header];
    assert(one.drop_last() =~= Seq::empty());
    assert(sent_on(one.drop_last()) =~= Seq::empty());
    if forwards_request_header(header.0) {
        assert(sent_on(one) =~= one);
    }
}

/// Response headers go back one by one, each as it came and in its place: all but those of the
/// connection and of how the body was sent over it. The last header is the gateway's own, in the
/// place of any that the runtime gives by that name.
pub proof fn law_response_headers(a: Seq<HeaderView>, b: Seq<HeaderView>, header: HeaderView)
    ensures
        sent_back(Seq::empty()) == seq![("x-content-type-options"@, encode_utf8("nosniff"@))],
        sent_back(a + b) == sent_back(a).take(sent_back(a).len() - 1) + sent_back(b),
        sent_back(seq![header]) == (if set![
            "connection"@,
            "keep-alive"@,
            "proxy-authenticate"@,
            "proxy-authorization"@,
            "te"@,
            "trailer"@,
            "transfer-encoding"@,
            "upgrade"@,
            "content-length"@,
            "content-encoding"@,
            "x-content-type-options"@,
        ].contains(header.0) {
            Seq::empty()
        } else {
            seq![header]
        }) + seq![("x-content-type-options"@, encode_utf8("nosniff"@))],
{
    let own = ("x-content-type-options"@, encode_utf8("nosniff"@));
    assert(sent_back(Seq::empty()) =~= seq![own]);
    lemma_kept_back_adds(a, b);
    assert(sent_back(a).take(sent_back(a).len() - 1) =~= kept_back(a));
    assert(sent_back(a + b) =~= kept_back(a) + sent_back(b));
    let one = seq![header];
    assert(one.drop_last() =~= Seq::empty());
    assert(kept_back(one.drop_last()) =~= Seq::empty());
    if goes_back(header.0) {
        assert(sent_back(one) =~= seq![header] + seq![own]);
    } else {
        assert(sent_back(one) =~= Seq::empty() + seq![own]);
    }
}

proof fn lemma_kept_back_adds(a: Seq<HeaderView>, b: Seq<HeaderView>)
    ensures
        kept_back(a + b) == kept_back(a) + kept_back(b),
    decreases b.len(),
{
    if b.len() == 0 {
        assert(a + b =~= a);
        assert(kept_back(a) + kept_back(b) =~= kept_back(a));
    } else {
        lemma_kept_back_adds(a, b.drop_last());
        assert((a + b).drop_last() =~= a + b.drop_last());
        assert(kept_back(a + b) =~= kept_back(a) + kept_back(b));
    }
}

/// A header is read by its name: the first that has the name counts, whatever stands around it,
/// and it is read where it is a text of visible ASCII characters, spaces and tabs. Without one
/// nothing is read.
pub proof fn law_header_is_read(
    before: Seq<HeaderView>,
    name: Seq<char>,
    value: Seq<u8>,
    after: Seq<HeaderView>,
)
    requires
        forall|i: int| 0 <= i < before.len() ==> (#[trigger] before[i]).0 != name,
    ensures
        header_value(before, name) is None,
        ({
            let read = header_value(before + seq![(name, value)] + after, name);
            if forall|i: int|
                0 <= i < value.len() ==> (0x20 <= #[trigger] value[i] <= 0x7e || value[i] == 0x09) {
                read == Some(decode_utf8(value))
            } else {
                read is None
            }
        }),
    decreases before.len(),
{
    let all = before + seq![(name, value)] + after;
    if before.len() > 0 {
        assert(before[0].0 != name);
        assert(all[0] == before[0]);
        let rest = before.drop_first();
        assert forall|i: int| 0 <= i < rest.len() implies (#[trigger] rest[i]).0 != name by {
            assert(rest[i] == before[i + 1]);
        }
        assert(all.drop_first() =~= rest + seq![(name, value)] + after);
        law_header_is_read(rest, name, value, after);
    } else {
        assert(all[0] == (name, value));
        if forall|i: int|
            0 <= i < value.len() ==> (0x20 <= #[trigger] value[i] <= 0x7e || value[i] == 0x09) {
            assert forall|i: int| 0 <= i < value.len() implies is_header_text(
                #[trigger] value[i],
            ) by {}
        } else {
            let i = choose|i: int|
                0 <= i < value.len() && !(0x20 <= #[trigger] value[i] <= 0x7e || value[i] == 0x09);
            assert(!is_header_text(value[i]));
        }
    }
}

/// A text of visible ASCII characters and spaces is read from the header that was given it.
pub proof fn law_header_text_is_read(
    before: Seq<HeaderView>,
    name: Seq<char>,
    text: Seq<char>,
    after: Seq<HeaderView>,
)
    requires
        forall|i: int| 0 <= i < before.len() ==> (#[trigger] before[i]).0 != name,
        forall|i: int| 0 <= i < text.len() ==> ' ' <= #[trigger] text[i] <= '~',
    ensures
        header_value(before + seq![(name, encode_utf8(text))] + after, name) == Some(text),
{
    let value = encode_utf8(text);
    assert(is_ascii_chars(text));
    is_ascii_chars_encode_utf8(text);
    assert forall|i: int| 0 <= i < value.len() implies (0x20 <= #[trigger] value[i] <= 0x7e
        || value[i] == 0x09) by {
        assert(' ' <= text[i] <= '~');
        assert(text[i] as u8 == value[i]);
    }
    law_header_is_read(before, name, value, after);
    encode_utf8_decode_utf8(text);
}

/// An error is answered with the status that it is given and a document of one entry, `error`,
/// which holds the message as it is and the type `gateway_error`, and nothing else.
pub proof fn law_error_answer(status: u16, message: Seq<char>)
    ensures
        error_answer(status, message).status == status,
        exists|document: JsonView|
            {
                &&& error_answer(status, message).body == #[trigger] json_text(document)
                &&& document matches JsonView::Object(outer)
                &&& outer.dom() == set!["error"@]
                &&& outer["error"@] matches JsonView::Object(inner)
                &&& inner.dom() == set!["message"@, "type"@]
                &&& inner["message"@] == JsonView::Text(message)
                &&& inner["type"@] == JsonView::Text("gateway_error"@)
            },
{
    reveal_strlit("message");
    reveal_strlit("type");
    assert("message"@.len() != "type"@.len());
    let outer = error_document(message)->Object_0;
    let inner = outer["error"@]->Object_0;
    assert(outer.dom() =~= set!["error"@]);
    assert(inner.dom() =~= set!["message"@, "type"@]);
    assert(error_answer(status, message).body == json_text(error_document(message)));
}

} // verus!
