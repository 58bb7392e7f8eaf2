//! The Fastly host as the library sees it: the outside types it carries and
//! the calls it makes into the `fastly` crate.
//!
//! Every item here is trusted: its contract is read from the `fastly` and
//! `http` sources and documentation and is not proved. What the host keeps
//! of a response (its headers, the bytes of a body) is named by spec
//! functions without a body, and the contracts say how each call changes
//! them.
//!
//! The `fastly` calls end in a panic when the host reports an error (the
//! crate's own `expect`s, and those of the write wrappers here, which panic
//! as the crate's `write_bytes` does). What the host does is outside the
//! library, so no `requires` can rule that out; the contracts describe the
//! calls that return.

use vstd::prelude::*;

use fastly::handle::RequestHandle as HostRequestHandle;
use fastly::handle::ResponseHandle as HostResponseHandle;
use fastly::Response as HostResponse;


verus! {

/// The client request of this execution, as the `fastly` crate holds it.
#[verifier::external_type_specification]
#[verifier::external_body]
pub struct ExRequest(fastly::Request);

/// A response handle of the Fastly host.
#[verifier::external_type_specification]
#[verifier::external_body]
pub struct ExResponseHandle(HostResponseHandle);

/// A request handle of the Fastly host.
#[verifier::external_type_specification]
#[verifier::external_body]
pub struct ExRequestHandle(HostRequestHandle);

/// A response as the `fastly` crate builds it in memory.
#[verifier::external_type_specification]
#[verifier::external_body]
pub struct ExResponse(HostResponse);

/// A body handle of the Fastly host.
#[verifier::external_type_specification]
#[verifier::external_body]
pub struct ExBodyHandle(fastly::handle::BodyHandle);

/// A body handle that streams to the client.
#[verifier::external_type_specification]
#[verifier::external_body]
pub struct ExStreamingBodyHandle(fastly::handle::StreamingBodyHandle);

/// A parsed HTTP header name.
#[verifier::external_type_specification]
#[verifier::external_body]
pub struct ExHeaderName(fastly::http::HeaderName);

/// A parsed HTTP header value.
#[verifier::external_type_specification]
#[verifier::external_body]
pub struct ExHeaderValue(fastly::http::HeaderValue);

/// An error of `std::io`.
#[verifier::external_type_specification]
#[verifier::external_body]
pub struct ExIoError(std::io::Error);

/// A character that may stand in an HTTP header name: an ASCII letter or
/// digit, or one of ``! " # $ % & ' * + - . ^ _ ` | ~``.
pub open spec fn is_header_name_char(c: char) -> bool {
    ||| ('a' <= c && c <= 'z')
    ||| ('A' <= c && c <= 'Z')
    ||| ('0' <= c && c <= '9')
    ||| c == '!' || c == '"' || c == '#' || c == '$' || c == '%' || c == '&'
    ||| c == '\'' || c == '*' || c == '+' || c == '-' || c == '.' || c == '^'
    ||| c == '_' || c == '`' || c == '|' || c == '~'
}

/// A text that `fastly::http::HeaderName::from_str` accepts: between 1 and 65535 characters,
/// each of them a header name character.
pub open spec fn valid_header_name(s: Seq<char>) -> bool {
    &&& 1 <= s.len() <= 65535
    &&& forall|i: int| 0 <= i < s.len() ==> is_header_name_char(#[trigger] s[i])
}

/// A character whose UTF-8 bytes `fastly::http::HeaderValue::from_str` accepts: a tab, or
/// any character from the space on except DEL.
pub open spec fn is_header_value_char(c: char) -> bool {
    c == '\t' || (c as u32 >= 32 && c as u32 != 127)
}

/// A text that `fastly::http::HeaderValue::from_str` accepts.
pub open spec fn valid_header_value(s: Seq<char>) -> bool {
    forall|i: int| 0 <= i < s.len() ==> is_header_value_char(#[trigger] s[i])
}

/// `fastly::Request::take_body_bytes`: reads the whole body of the request
/// and leaves the request without a body. What the body holds comes from the
/// host and is not stated.
#[verifier::external_body]
pub fn take_body_bytes(req: &mut fastly::Request) -> Vec<u8> {
    req.take_body_bytes()
}

/// An ASCII letter in lower case, any other character as it is.
pub open spec fn lower_ascii(c: char) -> char {
    if 'A' <= c && c <= 'Z' {
        ((c as u32) + 32) as char
    } else {
        c
    }
}

/// The name under which a header is kept: `fastly::http::HeaderName` turns the
/// letters of a name into lower case.
pub open spec fn header_key(name: Seq<char>) -> Seq<char> {
    name.map_values(|c: char| lower_ascii(c))
}

/// A header map in which `name` has the single value `value`; the earlier
/// values of that name are gone.
pub open spec fn header_set(
    m: Map<Seq<char>, Seq<Seq<char>>>,
    name: Seq<char>,
    value: Seq<char>,
) -> Map<Seq<char>, Seq<Seq<char>>> {
    m.insert(header_key(name), seq![value])
}

/// A header map in which `value` follows the earlier values of `name`.
pub open spec fn header_added(
    m: Map<Seq<char>, Seq<Seq<char>>>,
    name: Seq<char>,
    value: Seq<char>,
) -> Map<Seq<char>, Seq<Seq<char>>> {
    let k = header_key(name);
    if m.contains_key(k) {
        m.insert(k, m[k].push(value))
    } else {
        m.insert(k, seq![value])
    }
}

/// A header map without headers.
pub open spec fn no_headers() -> Map<Seq<char>, Seq<Seq<char>>> {
    Map::empty()
}

/// The headers that a response of the host holds: for each name, in lower
/// case, its values in the order in which they were set, each as the text
/// whose UTF-8 bytes the host holds.
pub uninterp spec fn handle_headers(res: HostResponseHandle) -> Map<Seq<char>, Seq<Seq<char>>>;

/// The bytes that a body of the host holds, in order.
pub uninterp spec fn body_contents(body: fastly::handle::BodyHandle) -> Seq<u8>;

/// The bytes of a body that streams to the client, from its first byte on.
pub uninterp spec fn stream_contents(body: fastly::handle::StreamingBodyHandle) -> Seq<u8>;

/// The headers of the response that was sent to the client with a body
/// that streams, kept as `handle_headers` keeps those of a response.
pub uninterp spec fn sent_headers(body: fastly::handle::StreamingBodyHandle) -> Map<Seq<char>, Seq<Seq<char>>>;

/// The headers of a response built in memory, kept as `handle_headers` keeps
/// those of the host.
pub uninterp spec fn response_headers(res: HostResponse) -> Map<Seq<char>, Seq<Seq<char>>>;

/// The bytes of the body of a response built in memory; none while it has
/// no body.
pub uninterp spec fn response_body(res: HostResponse) -> Seq<u8>;

/// `HostResponseHandle::new`: a fresh response of the host, which by the
/// documentation has no headers. The call panics when the host refuses to
/// make one.
#[verifier::external_body]
pub fn response_handle_new() -> (res: HostResponseHandle)
    ensures
        handle_headers(res) == no_headers(),
{
    HostResponseHandle::new()
}

/// `fastly::http::HeaderName::from_str`: succeeds exactly on the texts of
/// `valid_header_name`.
#[verifier::external_body]
pub fn parse_header_name(s: &str) -> (name: Option<fastly::http::HeaderName>)
    ensures
        name is Some <==> valid_header_name(s@),
{
    <fastly::http::HeaderName as std::str::FromStr>::from_str(s).ok()
}

/// `fastly::http::HeaderValue::from_str`: succeeds exactly on the texts of
/// `valid_header_value`.
#[verifier::external_body]
pub fn parse_header_value(s: &str) -> (value: Option<fastly::http::HeaderValue>)
    ensures
        value is Some <==> valid_header_value(s@),
{
    fastly::http::HeaderValue::from_str(s).ok()
}

/// `HostResponseHandle::insert_header`, the name and value given as text:
/// sets the header on the host's response, discarding the earlier values of
/// that name. The texts are turned into a `fastly::http::HeaderName` and a
/// `fastly::http::HeaderValue` first, which succeeds on the texts that
/// `requires` admits. The call panics when the host reports an error.
#[verifier::external_body]
pub fn insert_response_header(res: &mut HostResponseHandle, name: &str, value: &str)
    requires
        valid_header_name(name@),
        valid_header_value(value@),
    ensures
        handle_headers(*final(res)) == header_set(handle_headers(*old(res)), name@, value@),
{
    res.insert_header(
        &fastly::http::HeaderName::from_bytes(name.as_bytes()).unwrap(),
        &fastly::http::HeaderValue::from_str(value).unwrap(),
    )
}

/// `HostResponseHandle::append_header`, the name and value given as text:
/// adds the header to the host's response, keeping the earlier values of
/// that name. The texts are converted as for `insert_response_header`. The
/// call panics when the host reports an error.
#[verifier::external_body]
pub fn append_response_header(res: &mut HostResponseHandle, name: &str, value: &str)
    requires
        valid_header_name(name@),
        valid_header_value(value@),
    ensures
        handle_headers(*final(res)) == header_added(handle_headers(*old(res)), name@, value@),
{
    res.append_header(
        &fastly::http::HeaderName::from_bytes(name.as_bytes()).unwrap(),
        &fastly::http::HeaderValue::from_str(value).unwrap(),
    )
}

/// `fastly::handle::BodyHandle::new`: a new, empty body of the host. The call
/// panics when the host refuses to make one.
#[verifier::external_body]
pub fn body_handle_new() -> (body: fastly::handle::BodyHandle)
    ensures
        body_contents(body) == Seq::<u8>::empty(),
{
    fastly::handle::BodyHandle::new()
}

/// `std::io::Write::write_all` on a `fastly::handle::BodyHandle`: calls the
/// handle's `write`, which adds the bytes that the host took to the end of
/// the body, until every byte of `content` is written. An error of the host,
/// or a write that takes nothing, ends it with an error, on which the call
/// panics as `fastly::handle::BodyHandle::write_bytes` does; so when it
/// returns, the whole content was added.
#[verifier::external_body]
pub fn body_write_all(body: &mut fastly::handle::BodyHandle, content: &[u8])
    ensures
        body_contents(*final(body)) == body_contents(*old(body)) + content@,
{
    std::io::Write::write_all(body, content).expect("fastly_http_body::write failed")
}

/// `body_write_all` with the UTF-8 bytes of a text.
#[verifier::external_body]
pub fn body_write_all_str(body: &mut fastly::handle::BodyHandle, content: &str)
    ensures
        body_contents(*final(body)) == body_contents(*old(body)) + vstd::utf8::encode_utf8(content@),
{
    std::io::Write::write_all(body, content.as_bytes()).expect("fastly_http_body::write failed")
}

/// `HostResponseHandle::stream_to_client`: sends the response, with the
/// headers it holds, to the client and returns the body, turned into a
/// stream that goes on from the bytes it held. The call panics when the host
/// reports an error.
#[verifier::external_body]
pub fn stream_to_client(res: HostResponseHandle, body: fastly::handle::BodyHandle) -> (stream: fastly::handle::StreamingBodyHandle)
    ensures
        stream_contents(stream) == body_contents(body),
        sent_headers(stream) == handle_headers(res),
{
    res.stream_to_client(body)
}

/// `std::io::Write::write_all` on a `fastly::handle::StreamingBodyHandle`,
/// whose `write` is that of its `fastly::handle::BodyHandle`: writes every
/// byte of `content` to the end of the streamed body, or panics on an error
/// of the host as `body_write_all` does.
#[verifier::external_body]
pub fn streaming_write_all(body: &mut fastly::handle::StreamingBodyHandle, content: &[u8])
    ensures
        stream_contents(*final(body)) == stream_contents(*old(body)) + content@,
        sent_headers(*final(body)) == sent_headers(*old(body)),
{
    std::io::Write::write_all(body, content).expect("fastly_http_body::write failed")
}

/// `streaming_write_all` with the UTF-8 bytes of a text.
#[verifier::external_body]
pub fn streaming_write_all_str(body: &mut fastly::handle::StreamingBodyHandle, content: &str)
    ensures
        stream_contents(*final(body)) == stream_contents(*old(body)) + vstd::utf8::encode_utf8(content@),
        sent_headers(*final(body)) == sent_headers(*old(body)),
{
    std::io::Write::write_all(body, content.as_bytes()).expect("fastly_http_body::write failed")
}

/// `std::io::Write::flush` of `fastly::handle::StreamingBodyHandle`, which
/// hands on to the flush of its `fastly::handle::BodyHandle`; that one
/// returns `Ok(())` without further work, so the call always succeeds and
/// writes nothing.
#[verifier::external_body]
pub fn streaming_flush(body: &mut fastly::handle::StreamingBodyHandle) -> (r: std::io::Result<()>)
    ensures
        r is Ok,
        stream_contents(*final(body)) == stream_contents(*old(body)),
        sent_headers(*final(body)) == sent_headers(*old(body)),
{
    std::io::Write::flush(body)
}

/// `fastly::Response::new`: a `200 OK` response in memory with no headers
/// and an empty body.
#[verifier::external_body]
pub fn response_new() -> (res: HostResponse)
    ensures
        response_headers(res) == no_headers(),
        response_body(res) == Seq::<u8>::empty(),
{
    HostResponse::new()
}

/// `fastly::Response::append_header` with text arguments: adds the header,
/// keeping the earlier values of that name; the body stays as it was. The
/// texts are parsed as a header name and value, which panics on texts that
/// the header types refuse.
#[verifier::external_body]
pub fn response_append_header(res: &mut HostResponse, name: &str, value: &str)
    requires
        valid_header_name(name@),
        valid_header_value(value@),
    ensures
        response_headers(*final(res)) == header_added(response_headers(*old(res)), name@, value@),
        response_body(*final(res)) == response_body(*old(res)),
{
    res.append_header(name, value)
}

/// `std::io::Write::write_all` on `fastly::Response::get_body_mut`: writes
/// every UTF-8 byte of the text to the end of the body of the response,
/// which is created empty first if the response has none, or panics on an
/// error of the host as `body_write_all` does; the headers stay as they
/// were.
#[verifier::external_body]
pub fn response_write_all_str(res: &mut HostResponse, content: &str)
    ensures
        response_body(*final(res)) == response_body(*old(res)) + vstd::utf8::encode_utf8(content@),
        response_headers(*final(res)) == response_headers(*old(res)),
{
    std::io::Write::write_all(res.get_body_mut(), content.as_bytes()).expect("fastly_http_body::write failed")
}

} // verus!
