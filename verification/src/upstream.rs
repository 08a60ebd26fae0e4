//! What is sent on to the model runtime for a consumer's request.

use vstd::prelude::*;
use vstd::utf8::*;
use crate::config::{ConfigView, RuntimeConfig};
use crate::http::{
    error_answer, forwarded_request_headers, forwards_request_header, headers_view, json_error,
    sent_on, AnswerView, GatewayAnswer, Header, HeaderView,
};
use crate::models::runtime_credential;
use crate::text::{held, is_blank_text, is_white, law_blank};
use crate::usage::{forwarded_body, request_body_with_usage};

verus! {

/// `reqwest::Url`, which [`url_text`], [`url_scheme`], [`url_host`] and [`url_port`] speak of.
#[verifier::external_type_specification]
#[verifier::external_body]
pub struct ExUrl(reqwest::Url);

/// The text of a URL.
pub uninterp spec fn url_text(url: reqwest::Url) -> Seq<char>;

/// The scheme of a URL, by `reqwest::Url::scheme`.
pub uninterp spec fn url_scheme(url: reqwest::Url) -> Seq<char>;

/// The host of a URL, where it has one, by `reqwest::Url::host_str`.
pub uninterp spec fn url_host(url: reqwest::Url) -> Option<Seq<char>>;

/// The port that a URL names, where it names one other than its scheme's own, by
/// `reqwest::Url::port`.
pub uninterp spec fn url_port(url: reqwest::Url) -> Option<u16>;

/// The URL that `reqwest::Url::parse` reads from a text, when it reads one.
pub uninterp spec fn url_parsed(text: Seq<char>) -> Option<reqwest::Url>;

/// The URL that `reqwest::Url::set_path` makes of a URL.
pub uninterp spec fn url_with_path(url: reqwest::Url, path: Seq<char>) -> reqwest::Url;

/// The URL that `reqwest::Url::set_query` makes of a URL.
pub uninterp spec fn url_with_query(url: reqwest::Url, query: Option<Seq<char>>) -> reqwest::Url;

/// The text that a borrowed text holds, when there is one.
pub open spec fn borrowed(text: Option<&str>) -> Option<Seq<char>> {
    match text {
        Some(text) => Some(text@),
        None => None,
    }
}

/// Whether a URL stays short enough to be held, with a part added whose bytes may take three each
/// and that a few characters may set off.
pub open spec fn has_room(url: reqwest::Url, part: Seq<char>) -> bool {
    encode_utf8(url_text(url)).len() + 3 * encode_utf8(part).len() + 16 <= u32::MAX
}

/// `reqwest::Url::parse`: which texts are URLs, and which URL, is a function of the text.
#[verifier::external_body]
fn parse_url(text: &str) -> (url: Option<reqwest::Url>)
    ensures
        url == url_parsed(text@),
{
    reqwest::Url::parse(text).ok()
}

/// `reqwest::Url::set_path`: keeps scheme, host and port. The new path is a function of the URL
/// and of the path that is set, percent-encoded where it needs to be, which takes three
/// characters for a byte; a URL past four gigabytes would panic.
#[verifier::external_body]
fn set_url_path(url: &mut reqwest::Url, path: &str)
    requires
        has_room(*old(url), path@),
    ensures
        *final(url) == url_with_path(*old(url), path@),
        url_scheme(*final(url)) == url_scheme(*old(url)),
        url_host(*final(url)) == url_host(*old(url)),
        url_port(*final(url)) == url_port(*old(url)),
{
    url.set_path(path)
}

/// `reqwest::Url::set_query`: keeps scheme, host and port. The new query is a function of the
/// URL and of the query that is set, percent-encoded where it needs to be, which takes three
/// characters for a byte; a URL past four gigabytes would panic.
#[verifier::external_body]
fn set_url_query(url: &mut reqwest::Url, query: Option<&str>)
    requires
        has_room(
            *old(url),
            match query {
                Some(query) => query@,
                None => Seq::empty(),
            },
        ),
    ensures
        *final(url) == url_with_query(*old(url), borrowed(query)),
        url_scheme(*final(url)) == url_scheme(*old(url)),
        url_host(*final(url)) == url_host(*old(url)),
        url_port(*final(url)) == url_port(*old(url)),
{
    url.set_query(query)
}

/// `reqwest::Url::as_str`: the URL's text.
#[verifier::external_body]
fn url_as_str(url: &reqwest::Url) -> (text: &str)
    ensures
        text@ == url_text(*url),
{
    url.as_str()
}

/// `reqwest::Url::scheme`: the URL's scheme.
#[verifier::external_body]
fn scheme_of(url: &reqwest::Url) -> (scheme: &str)
    ensures
        scheme@ == url_scheme(*url),
{
    url.scheme()
}

/// `reqwest::Url::host_str`: the URL's host, where it has one.
#[verifier::external_body]
fn host_of(url: &reqwest::Url) -> (host: Option<&str>)
    ensures
        borrowed(host) == url_host(*url),
{
    url.host_str()
}

/// `reqwest::Url::port`: the port that the URL names, where it names one other than its scheme's
/// own.
#[verifier::external_body]
fn port_of(url: &reqwest::Url) -> (port: Option<u16>)
    ensures
        port == url_port(*url),
{
    url.port()
}

/// Whether a URL stays short enough to be held with `part` added.
fn leaves_room(url: &reqwest::Url, part: &str) -> (room: bool)
    ensures
        room == has_room(*url, part@),
{
    let length: u128 = url_as_str(url).as_bytes().len() as u128;
    let added: u128 = part.as_bytes().len() as u128;
    length + 3 * added + 16 <= 0xffff_ffff
}

/// The URL that a request goes to: the configured one, with the request's path and query.
pub open spec fn retargeted(
    url: reqwest::Url,
    path: Seq<char>,
    query: Option<Seq<char>>,
) -> reqwest::Url {
    url_with_query(url_with_path(url, path), query)
}

/// The text that there is, or the empty text.
pub open spec fn or_empty(text: Option<Seq<char>>) -> Seq<char> {
    match text {
        Some(text) => text,
        None => Seq::empty(),
    }
}

/// Whether a URL stays short enough to be held while it gets a path and a query.
pub open spec fn has_room_for(url: reqwest::Url, path: Seq<char>, query: Option<Seq<char>>) -> bool {
    has_room(url, path) && has_room(url_with_path(url, path), or_empty(query))
}

/// Where a request goes.
#[derive(Debug)]
pub struct Target {
    pub url: String,
    pub scheme: String,
    pub host: Option<String>,
    pub port: Option<u16>,
}

/// What a [`Target`] says.
pub struct TargetView {
    pub url: Seq<char>,
    pub scheme: Seq<char>,
    pub host: Option<Seq<char>>,
    pub port: Option<u16>,
}

impl Target {
    /// What this target says.
    pub open spec fn view(&self) -> TargetView {
        TargetView {
            url: self.url@,
            scheme: self.scheme@,
            host: held(self.host),
            port: self.port,
        }
    }
}

/// Where a request with this path and query goes, given the configured URL, or the error. Scheme,
/// host and port are those of the configured URL.
pub open spec fn upstream_target(
    base: Seq<char>,
    path: Seq<char>,
    query: Option<Seq<char>>,
) -> Result<TargetView, Seq<char>> {
    match url_parsed(base) {
        Some(url) => if has_room_for(url, path, query) {
            Ok(
                TargetView {
                    url: url_text(retargeted(url, path, query)),
                    scheme: url_scheme(url),
                    host: url_host(url),
                    port: url_port(url),
                },
            )
        } else {
            Err("the model runtime URL is too long"@)
        },
        None => Err("invalid model runtime URL"@),
    }
}

/// What a target or its error says.
pub open spec fn target_result(result: Result<Target, String>) -> Result<TargetView, Seq<char>> {
    match result {
        Ok(target) => Ok(target@),
        Err(error) => Err(error@),
    }
}

/// Where a request goes: to the configured URL, with the request's path and query in the place of
/// its own. The scheme, host and port of the URL that it goes to are the configured ones.
pub fn upstream_url(base: &str, path: &str, query: Option<&str>) -> (target: Result<Target, String>)
    ensures
        target_result(target) == upstream_target(base@, path@, borrowed(query)),
        target is Ok ==> {
            let url = retargeted(url_parsed(base@)->Some_0, path@, borrowed(query));
            &&& target->Ok_0@.scheme == url_scheme(url)
            &&& target->Ok_0@.host == url_host(url)
            &&& target->Ok_0@.port == url_port(url)
        },
{
    let mut url: reqwest::Url = match parse_url(base) {
        Some(url) => url,
        None => return Err("invalid model runtime URL".to_owned()),
    };
    if !leaves_room(&url, path) {
        return Err("the model runtime URL is too long".to_owned());
    }
    set_url_path(&mut url, path);
    let added: &str = match query {
        Some(query) => query,
        None => "",
    };
    proof {
        reveal_strlit("");
        assert(""@ =~= Seq::<char>::empty());
    }
    if !leaves_room(&url, added) {
        return Err("the model runtime URL is too long".to_owned());
    }
    set_url_query(&mut url, query);
    let host: Option<String> = match host_of(&url) {
        Some(host) => Some(host.to_owned()),
        None => None,
    };
    Ok(
        Target {
            url: url_as_str(&url).to_owned(),
            scheme: scheme_of(&url).to_owned(),
            host,
            port: port_of(&url),
        },
    )
}

/// A request for the model runtime. Its method is that of the consumer's request.
#[derive(Debug)]
pub struct UpstreamRequest {
    pub target: Target,
    pub headers: Vec<Header>,
    pub body: Option<Vec<u8>>,
}

/// What an [`UpstreamRequest`] sends.
pub struct UpstreamView {
    pub target: TargetView,
    pub headers: Seq<HeaderView>,
    pub body: Option<Seq<u8>>,
}

impl UpstreamRequest {
    /// What this request sends.
    pub open spec fn view(&self) -> UpstreamView {
        UpstreamView {
            target: self.target@,
            headers: headers_view(self.headers@),
            body: match self.body {
                Some(body) => Some(body@),
                None => None,
            },
        }
    }
}

/// The headers that the model runtime gets: those of the request that are sent on, and the
/// runtime's own credential where one is configured.
pub open spec fn upstream_headers(
    config: ConfigView,
    headers: Seq<HeaderView>,
) -> Seq<HeaderView> {
    if is_blank_text(config.api_key) {
        sent_on(headers)
    } else {
        sent_on(headers).push(("authorization"@, encode_utf8("Bearer "@ + config.api_key)))
    }
}

/// A body, when it is not empty.
pub open spec fn unless_empty(body: Seq<u8>) -> Option<Seq<u8>> {
    if body.len() == 0 {
        None
    } else {
        Some(body)
    }
}

/// The request that the model runtime gets for a consumer's request with this path, query,
/// headers and body, or the answer to the consumer where there is none.
pub open spec fn upstream_request_of(
    config: ConfigView,
    path: Seq<char>,
    query: Option<Seq<char>>,
    headers: Seq<HeaderView>,
    body: Seq<u8>,
) -> Result<UpstreamView, AnswerView> {
    match upstream_target(config.url, path, query) {
        Ok(target) => Ok(
            UpstreamView {
                target,
                headers: upstream_headers(config, headers),
                body: unless_empty(forwarded_body(body, path)),
            },
        ),
        Err(message) => Err(error_answer(502, message)),
    }
}

/// What a result says.
pub open spec fn upstream_result(result: Result<UpstreamRequest, GatewayAnswer>) -> Result<
    UpstreamView,
    AnswerView,
> {
    match result {
        Ok(request) => Ok(request@),
        Err(answer) => Err(answer@),
    }
}

/// The request that the model runtime gets for a consumer's request.
pub fn upstream_request(
    config: &RuntimeConfig,
    path: &str,
    query: Option<&str>,
    headers: &Vec<Header>,
    body: Vec<u8>,
) -> (request: Result<UpstreamRequest, GatewayAnswer>)
    ensures
        upstream_result(request) == upstream_request_of(
            config@,
            path@,
            borrowed(query),
            headers_view(headers@),
            body@,
        ),
{
    let body: Vec<u8> = request_body_with_usage(body, path);
    let target: Target = match upstream_url(config.url.as_str(), path, query) {
        Ok(target) => target,
        Err(message) => return Err(json_error(502, message.as_str())),
    };
    let mut headers: Vec<Header> = forwarded_request_headers(headers);
    match runtime_credential(config) {
        Some(credential) => {
            let ghost before = headers@;
            let value: Vec<u8> = vstd::slice::slice_to_vec(credential.as_str().as_bytes());
            headers.push(("authorization".to_owned(), value));
            assert(headers_view(headers@) =~= headers_view(before).push(
                ("authorization"@, value@),
            ));
        },
        None => (),
    }
    let body: Option<Vec<u8>> = if body.is_empty() {
        None
    } else {
        Some(body)
    };
    Ok(UpstreamRequest { target, headers, body })
}

/// The consumer's credential goes no further: of the request's own headers, none that carries a
/// credential or belongs to the connection is sent on, and every other is, in its order.
pub proof fn law_credentials_stay(headers: Seq<HeaderView>)
    ensures
        forall|i: int|
            0 <= i < sent_on(headers).len() ==> forwards_request_header(
                (#[trigger] sent_on(headers)[i]).0,
            ),
        forall|i: int|
            0 <= i < headers.len() && forwards_request_header(
                (#[trigger] headers[i]).0,
            ) ==> sent_on(headers).contains(headers[i]),
        sent_on(sent_on(headers)) == sent_on(headers),
    decreases headers.len(),
{
    if headers.len() > 0 {
        let shorter = headers.drop_last();
        let rest = sent_on(shorter);
        law_credentials_stay(shorter);
        let all = sent_on(headers);
        assert forall|i: int| 0 <= i < headers.len() && forwards_request_header(
            (#[trigger] headers[i]).0,
        ) implies all.contains(headers[i]) by {
            if i < shorter.len() {
                assert(shorter[i] == headers[i]);
                let k = choose|k: int| 0 <= k < rest.len() && rest[k] == headers[i];
                assert(all[k] == headers[i]);
            } else {
                assert(all[all.len() - 1] == headers[i]);
            }
        }
        if forwards_request_header(headers.last().0) {
            assert(all.drop_last() =~= rest);
        }
    }
}

/// A request goes on to the configured runtime: at its scheme, host and port, under the request's
/// own path and query; with the request's headers that are sent on, in their order, and after them
/// the runtime's key, as a bearer, where one is configured; and with the body that is sent on,
/// where there is any.
pub proof fn law_request_goes_on(
    config: ConfigView,
    url: reqwest::Url,
    path: Seq<char>,
    query: Option<Seq<char>>,
    headers: Seq<HeaderView>,
    body: Seq<u8>,
)
    requires
        url_parsed(config.url) == Some(url),
        encode_utf8(url_text(url)).len() + 3 * encode_utf8(path).len() + 16 <= 0xffff_ffff,
        query matches Some(text) ==> encode_utf8(url_text(url_with_path(url, path))).len() + 3
            * encode_utf8(text).len() + 16 <= 0xffff_ffff,
        query is None ==> encode_utf8(url_text(url_with_path(url, path))).len() + 16
            <= 0xffff_ffff,
    ensures
        upstream_request_of(config, path, query, headers, body) matches Ok(sent) && {
            &&& sent.target.url == url_text(url_with_query(url_with_path(url, path), query))
            &&& sent.target.scheme == url_scheme(url)
            &&& sent.target.host == url_host(url)
            &&& sent.target.port == url_port(url)
            &&& (forall|i: int|
                0 <= i < config.api_key.len() ==> is_white(#[trigger] config.api_key[i]))
                ==> sent.headers == sent_on(headers)
            &&& (exists|i: int|
                0 <= i < config.api_key.len() && !is_white(#[trigger] config.api_key[i]))
                ==> sent.headers == sent_on(headers) + seq![
                ("authorization"@, encode_utf8("Bearer "@ + config.api_key)),
            ]
            &&& forwarded_body(body, path).len() == 0 ==> sent.body is None
            &&& forwarded_body(body, path).len() > 0 ==> sent.body == Some(
                forwarded_body(body, path),
            )
        },
{
    law_blank(config.api_key);
    if query is None {
        assert(encode_utf8(or_empty(query)).len() == 0);
    }
    if !is_blank_text(config.api_key) {
        let credential = ("authorization"@, encode_utf8("Bearer "@ + config.api_key));
        assert(sent_on(headers).push(credential) =~= sent_on(headers) + seq![credential]);
    }
}

/// A request for a runtime whose URL is none is answered with 502, and so is one whose URL would
/// be longer than a URL can be.
pub proof fn law_unusable_runtime_url(
    config: ConfigView,
    url: reqwest::Url,
    path: Seq<char>,
    query: Option<Seq<char>>,
    headers: Seq<HeaderView>,
    body: Seq<u8>,
)
    ensures
        url_parsed(config.url) is None ==> upstream_request_of(config, path, query, headers, body)
            == Err::<UpstreamView, AnswerView>(error_answer(502, "invalid model runtime URL"@)),
        url_parsed(config.url) == Some(url) && encode_utf8(url_text(url)).len() + 3 * encode_utf8(
            path,
        ).len() + 16 > 0xffff_ffff ==> upstream_request_of(config, path, query, headers, body)
            == Err::<UpstreamView, AnswerView>(
            error_answer(502, "the model runtime URL is too long"@),
        ),
        url_parsed(config.url) == Some(url) && (query matches Some(text) && encode_utf8(
            url_text(url_with_path(url, path)),
        ).len() + 3 * encode_utf8(text).len() + 16 > 0xffff_ffff) ==> upstream_request_of(
            config,
            path,
            query,
            headers,
            body,
        ) == Err::<UpstreamView, AnswerView>(
            error_answer(502, "the model runtime URL is too long"@),
        ),
{
}

/// A target and a request are taken for what they hold.
pub proof fn law_upstream_values(target: Target, request: UpstreamRequest, text: &str)
    ensures
        target@.url == target.url@,
        target@.scheme == target.scheme@,
        target.host matches Some(host) ==> target@.host == Some(host@),
        target.host is None ==> target@.host is None,
        target@.port == target.port,
        request@.target == request.target@,
        request@.headers == headers_view(request.headers@),
        request.body matches Some(body) ==> request@.body == Some(body@),
        request.body is None ==> request@.body is None,
        borrowed(Some(text)) == Some(text@),
        borrowed(None) is None,
{
}

} // verus!
