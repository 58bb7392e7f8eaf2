//! What the PHP server API callbacks of the runtime decide: the server
//! variables that describe the request, and the header lines that PHP emits.

use vstd::prelude::*;

use crate::host::{valid_header_name, valid_header_value};
use crate::request::{header_texts, headers_are_text, opt_text, request_readable, version_text, RequestHandle};
use crate::host;
use crate::response::{header_outcome, ResponseHandle, ResponsePhase, ResponseView};
use crate::text::{replace_char, replace_char_in, split_once_at_pair, split_once_pair, to_uppercase, uppercase};

verus! {

broadcast use vstd::string::group_string_axioms;

/// The texts of a list of name/value pairs.
pub open spec fn pair_texts(v: Seq<(String, String)>) -> Seq<(Seq<char>, Seq<char>)> {
    v.map_values(|p: (String, String)| (p.0@, p.1@))
}

/// The server variable that carries a request header: `HTTP_` and the
/// header's name, with dashes turned into underscores, in upper case.
pub open spec fn header_variable(name: Seq<char>) -> Seq<char> {
    "HTTP_"@ + uppercase(replace_char(name, '-', '_'))
}

/// The value of `SERVER_PROTOCOL` for an HTTP version label.
pub open spec fn protocol_value(version: Seq<char>) -> Seq<char> {
    "HTTP/"@ + version
}

/// One variable when the value is there, none when it is not.
pub open spec fn optional_variable(name: Seq<char>, value: Option<Seq<char>>) -> Seq<(Seq<char>, Seq<char>)> {
    match value {
        Some(v) => seq![(name, v)],
        None => Seq::empty(),
    }
}

/// The server variables of a request, in the order in which they are
/// registered: the client address, the protocol, the method, the URI, and
/// one variable for each header.
pub open spec fn server_variable_list(
    remote_addr: Option<Seq<char>>,
    http_version: Option<Seq<char>>,
    method: Seq<char>,
    uri: Option<Seq<char>>,
    headers: Seq<(Seq<char>, Seq<char>)>,
) -> Seq<(Seq<char>, Seq<char>)> {
    let protocol = match http_version {
        Some(v) => Some(protocol_value(v)),
        None => None,
    };
    optional_variable("REMOTE_ADDR"@, remote_addr)
        + optional_variable("SERVER_PROTOCOL"@, protocol)
        + seq![("REQUEST_METHOD"@, method)]
        + optional_variable("REQUEST_URI"@, uri)
        + headers.map_values(|h: (Seq<char>, Seq<char>)| (header_variable(h.0), h.1))
}

/// The name of the server variable for the request header `name`, such as
/// `HTTP_CONTENT_TYPE` for `content-type`.
pub fn header_variable_name(name: &str) -> (var: String)
    ensures
        var@ == header_variable(name@),
{
    let dashed = replace_char_in(name, '-', '_');
    let upper = to_uppercase(dashed.as_str());
    let mut var = String::from_str("HTTP_");
    var.append(upper.as_str());
    var
}

/// The value of `SERVER_PROTOCOL` for an HTTP version label, such as
/// `HTTP/1.1`.
pub fn protocol_variable_value(version: &str) -> (value: String)
    ensures
        value@ == protocol_value(version@),
{
    let mut value = String::from_str("HTTP/");
    value.append(version);
    value
}

/// The server variables of a request with the given client address,
/// version label, method, URI and headers.
pub fn server_variable_pairs(
    remote_addr: Option<String>,
    http_version: Option<String>,
    method: String,
    uri: Option<String>,
    headers: Vec<(String, String)>,
) -> (vars: Vec<(String, String)>)
    ensures
        pair_texts(vars@) == server_variable_list(
            opt_text(remote_addr),
            opt_text(http_version),
            method@,
            opt_text(uri),
            pair_texts(headers@),
        ),
{
    let mut vars: Vec<(String, String)> = Vec::new();
    if let Some(addr) = remote_addr {
        vars.push((String::from_str("REMOTE_ADDR"), addr));
    }
    if let Some(version) = http_version {
        let protocol = protocol_variable_value(version.as_str());
        vars.push((String::from_str("SERVER_PROTOCOL"), protocol));
    }
    vars.push((String::from_str("REQUEST_METHOD"), method));
    if let Some(u) = uri {
        vars.push((String::from_str("REQUEST_URI"), u));
    }
    let ghost fixed = vars@;
    let mut i: usize = 0;
    while i < headers.len()
        invariant
            i <= headers@.len(),
            vars@.len() == fixed.len() + i,
            vars@.take(fixed.len() as int) == fixed,
            forall|j: int| 0 <= j < i ==> #[trigger] vars@[fixed.len() + j].0@ == header_variable(headers@[j].0@)
                && vars@[fixed.len() + j].1@ == headers@[j].1@,
        decreases headers@.len() - i,
    {
        let name = header_variable_name(headers[i].0.as_str());
        let value = headers[i].1.clone();
        vars.push((name, value));
        i += 1;
    }
    let ghost expected = server_variable_list(
        opt_text(remote_addr),
        opt_text(http_version),
        method@,
        opt_text(uri),
        pair_texts(headers@),
    );
    let ghost protocol = match opt_text(http_version) {
        Some(v) => Some(protocol_value(v)),
        None => None,
    };
    let ghost prefix = optional_variable("REMOTE_ADDR"@, opt_text(remote_addr))
        + optional_variable("SERVER_PROTOCOL"@, protocol)
        + seq![("REQUEST_METHOD"@, method@)]
        + optional_variable("REQUEST_URI"@, opt_text(uri));
    let ghost mapped = pair_texts(headers@).map_values(
        |h: (Seq<char>, Seq<char>)| (header_variable(h.0), h.1),
    );
    assert(expected == prefix + mapped);
    assert(pair_texts(fixed) =~= prefix);
    assert forall|k: int| 0 <= k < vars@.len() implies pair_texts(vars@)[k] == (prefix + mapped)[k] by {
        if k < fixed.len() {
            assert(vars@[k] == vars@.take(fixed.len() as int)[k]);
        } else {
            let j = k - fixed.len();
            assert(vars@[fixed.len() + j].0@ == header_variable(headers@[j].0@));
        }
    }
    assert(pair_texts(vars@) =~= expected);
    vars
}

/// Gathers the server variables of the client request: its address,
/// version, method, URI and headers, in that order, as they were read when
/// the request was fetched. The request must be held, and its header values
/// must be text.
pub fn server_variables(request: &mut RequestHandle) -> (vars: Vec<(String, String)>)
    requires
        request_readable(old(request)@),
        headers_are_text(old(request)@.data->0.headers),
    ensures
        final(request)@ == old(request)@,
        pair_texts(vars@) == server_variable_list(
            old(request)@.data->0.remote_address,
            version_text(old(request)@.data->0.version),
            old(request)@.data->0.method,
            Some(old(request)@.data->0.uri),
            header_texts(old(request)@.data->0.headers),
        ),
{
    let remote_addr = request.remote_address();
    let http_version = request.http_version();
    let method = request.request_method();
    let uri = request.request_uri();
    let headers = request.headers();
    let ghost d = old(request)@.data->0;
    assert(opt_text(remote_addr) == d.remote_address);
    assert(opt_text(http_version) == version_text(d.version));
    assert(method@ == d.method);
    assert(opt_text(uri) == Some(d.uri));
    assert(pair_texts(headers@) == header_texts(d.headers));
    let vars = server_variable_pairs(remote_addr, http_version, method, uri, headers);
    vars
}

/// The name and value of a header line from PHP, split at the first `": "`.
pub open spec fn header_line_parts(line: Seq<char>) -> Option<(Seq<char>, Seq<char>)> {
    split_once_pair(line, ':', ' ')
}

/// A header line that can be forwarded to the response: one without `": "`
/// is skipped; one with it needs a response that still takes headers, and a
/// name and value that the HTTP header types accept.
pub open spec fn header_line_acceptable(pre: ResponseView, line: Seq<char>) -> bool {
    match header_line_parts(line) {
        Some((name, value)) => {
            &&& pre.phase != ResponsePhase::Used
            &&& valid_header_name(name)
            &&& valid_header_value(value)
        },
        None => true,
    }
}

/// Whether `HeaderName::from_str` accepts `name`.
pub fn header_name_is_valid(name: &str) -> (ok: bool)
    ensures
        ok == valid_header_name(name@),
{
    host::parse_header_name(name).is_some()
}

/// Whether `HeaderValue::from_str` accepts `value`.
pub fn header_value_is_valid(value: &str) -> (ok: bool)
    ensures
        ok == valid_header_value(value@),
{
    host::parse_header_value(value).is_some()
}

/// Whether the header line `line` can be forwarded to `response`.
pub fn header_line_accepted(response: &ResponseHandle, line: &str) -> (ok: bool)
    ensures
        ok == header_line_acceptable(response@, line@),
{
    match split_once_at_pair(line, ':', ' ') {
        Some((name, value)) => {
            response.phase() != ResponsePhase::Used && header_name_is_valid(name.as_str())
                && header_value_is_valid(value.as_str())
        },
        None => true,
    }
}

/// Forwards a header line that PHP emits, such as `X-Test: hello`, to the
/// response: the text before the first `": "` is the name, the rest the
/// value. A line without `": "` is skipped.
pub fn forward_header_line(response: &mut ResponseHandle, line: &str)
    requires
        header_line_acceptable(old(response)@, line@),
    ensures
        match header_line_parts(line@) {
            Some((name, value)) => header_outcome(old(response)@, name, value, final(response)@),
            None => final(response)@ == old(response)@,
        },
{
    match split_once_at_pair(line, ':', ' ') {
        Some((name, value)) => {
            let sent = response.send_header(name, value);
        },
        None => {},
    }
}

/// Header lines are taken until the body starts: a line with a valid name
/// and value can be forwarded to a response that is not yet created or
/// already holds headers, and to no response that was sent off.
pub proof fn law_header_lines_accepted_until_output(
    pre: ResponseView,
    line: Seq<char>,
    name: Seq<char>,
    value: Seq<char>,
)
    requires
        header_line_parts(line) == Some((name, value)),
        valid_header_name(name),
        valid_header_value(value),
    ensures
        header_line_acceptable(pre, line) <==> pre.phase != ResponsePhase::Used,
        pre.phase == ResponsePhase::Initialized ==> header_line_acceptable(pre, line),
{
}

/// A header line whose name or value the HTTP header types refuse is never
/// taken, whatever the response's state.
pub proof fn law_invalid_header_line_refused(
    pre: ResponseView,
    line: Seq<char>,
    name: Seq<char>,
    value: Seq<char>,
)
    requires
        header_line_parts(line) == Some((name, value)),
        !valid_header_name(name) || !valid_header_value(value),
    ensures
        !header_line_acceptable(pre, line),
{
}

/// After one header was set, a second valid header line is still taken:
/// any number of headers can be set before the first output.
pub proof fn law_second_header_line_accepted(
    v0: ResponseView,
    n1: Seq<char>,
    x1: Seq<char>,
    v1: ResponseView,
    line: Seq<char>,
    name: Seq<char>,
    value: Seq<char>,
)
    requires
        header_outcome(v0, n1, x1, v1),
        header_line_parts(line) == Some((name, value)),
        valid_header_name(name),
        valid_header_value(value),
    ensures
        header_line_acceptable(v1, line),
{
}

} // verus!
