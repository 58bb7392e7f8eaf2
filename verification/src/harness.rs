//! What the integration harness checks: the request it sends for a test
//! case, and whether the runtime's response meets the test case's
//! expectations.

use vstd::prelude::*;
use vstd::string::StringSliceAdditionalSpecFns;

use crate::request::opt_text;
use crate::setup::texts;
use crate::text::{chars_of, string_from_chars, string_push};

verus! {

broadcast use vstd::string::group_string_axioms;

/// The request a test case sends.
pub struct TestDownstreamRequest {
    pub method: String,
    pub pathname: String,
}

/// What a test case expects of the response; an absent field is not
/// checked.
pub struct TestDownstreamResponse {
    pub status: Option<usize>,
    pub body: Option<String>,
    pub headers: Option<Vec<String>>,
}

/// A test case.
pub struct TestCase {
    pub downstream_request: TestDownstreamRequest,
    pub downstream_response: TestDownstreamResponse,
}

/// The methods a test case may send.
#[derive(Clone, Copy, Debug, PartialEq, Eq, Structural)]
pub enum DownstreamMethod {
    Get,
    Post,
}

/// The address the harness sends a test case's request to.
pub open spec fn test_url_text(pathname: Seq<char>) -> Seq<char> {
    "http://127.0.0.1:7878/"@ + pathname
}

/// The address of the local test server for `pathname`.
pub fn test_url(pathname: &str) -> (url: String)
    ensures
        url@ == test_url_text(pathname@),
{
    let mut url = String::from_str("http://127.0.0.1:7878/");
    url.append(pathname);
    url
}

/// Whether two texts are equal.
pub fn text_equals(a: &str, b: &str) -> (eq: bool)
    ensures
        eq == (a@ == b@),
{
    let x = chars_of(a);
    let y = chars_of(b);
    if x.len() != y.len() {
        return false;
    }
    let mut i: usize = 0;
    while i < x.len()
        invariant
            x@ == a@,
            y@ == b@,
            x@.len() == y@.len(),
            i <= x@.len(),
            forall|j: int| 0 <= j < i ==> x@[j] == y@[j],
        decreases x@.len() - i,
    {
        if x[i] != y[i] {
            return false;
        }
        i += 1;
    }
    assert(x@ =~= y@);
    true
}

/// The method of a test case's request; only `GET` and `POST` occur.
pub fn downstream_method(method: &str) -> (m: DownstreamMethod)
    requires
        method@ == "GET"@ || method@ == "POST"@,
    ensures
        method@ == "GET"@ ==> m == DownstreamMethod::Get,
        method@ == "POST"@ ==> m == DownstreamMethod::Post,
{
    proof {
        reveal_strlit("GET");
        reveal_strlit("POST");
        assert("GET"@.len() == 3);
        assert("POST"@.len() == 4);
    }
    if text_equals(method, "GET") {
        DownstreamMethod::Get
    } else {
        DownstreamMethod::Post
    }
}

/// A character with the Unicode property White_Space.
pub open spec fn is_white_space(c: char) -> bool {
    let u = c as u32;
    ||| 0x09 <= u && u <= 0x0D
    ||| u == 0x20 || u == 0x85 || u == 0xA0 || u == 0x1680
    ||| 0x2000 <= u && u <= 0x200A
    ||| u == 0x2028 || u == 0x2029 || u == 0x202F || u == 0x205F || u == 0x3000
}

/// `lo..hi` is the part of `s` left once its leading and trailing white
/// space is taken off: white space only before `lo` and from `hi` on, and no
/// white space at either end of the part when it is not empty.
pub open spec fn trim_bounds(s: Seq<char>, lo: int, hi: int) -> bool {
    &&& 0 <= lo <= hi <= s.len()
    &&& forall|j: int| 0 <= j < lo ==> is_white_space(#[trigger] s[j])
    &&& forall|j: int| hi <= j < s.len() ==> is_white_space(#[trigger] s[j])
    &&& lo < hi ==> !is_white_space(s[lo]) && !is_white_space(s[hi - 1])
}

/// The text without its leading and trailing white space.
#[verifier::opaque]
pub open spec fn trimmed(s: Seq<char>) -> Seq<char> {
    let (lo, hi) = choose|lo: int, hi: int| trim_bounds(s, lo, hi);
    s.subrange(lo, hi)
}

/// Two bounds that both trim `s` mark the same text.
proof fn lemma_trim_bounds_unique(s: Seq<char>, lo: int, hi: int, lo2: int, hi2: int)
    requires
        trim_bounds(s, lo, hi),
        trim_bounds(s, lo2, hi2),
    ensures
        s.subrange(lo, hi) == s.subrange(lo2, hi2),
{
    if lo < hi {
        if lo2 == hi2 {
            assert(is_white_space(s[lo]));
        }
        if lo2 < lo {
            assert(is_white_space(s[lo2]));
        } else if lo < lo2 {
            assert(is_white_space(s[lo]));
        }
        if hi2 < hi {
            assert(is_white_space(s[hi - 1]));
        } else if hi < hi2 {
            assert(is_white_space(s[hi2 - 1]));
        }
    } else if lo2 < hi2 {
        assert(is_white_space(s[lo2]));
    } else {
        assert(s.subrange(lo, hi) =~= s.subrange(lo2, hi2));
    }
}

/// Whether `c` is white space.
fn white_space(c: char) -> (b: bool)
    ensures
        b == is_white_space(c),
{
    let u = c as u32;
    (0x09 <= u && u <= 0x0D) || u == 0x20 || u == 0x85 || u == 0xA0 || u == 0x1680
        || (0x2000 <= u && u <= 0x200A) || u == 0x2028 || u == 0x2029 || u == 0x202F
        || u == 0x205F || u == 0x3000
}

/// The text without its leading and trailing white space, as `str::trim`
/// returns it; white space is what the Unicode property White_Space names.
pub fn trim(s: &str) -> (t: String)
    ensures
        t@ == trimmed(s@),
{
    let cs = chars_of(s);
    let mut lo: usize = 0;
    while lo < cs.len() && white_space(cs[lo])
        invariant
            lo <= cs@.len(),
            forall|j: int| 0 <= j < lo ==> is_white_space(#[trigger] cs@[j]),
        decreases cs@.len() - lo,
    {
        lo += 1;
    }
    let mut hi: usize = cs.len();
    while hi > lo && white_space(cs[hi - 1])
        invariant
            lo <= hi <= cs@.len(),
            forall|j: int| hi <= j < cs@.len() ==> is_white_space(#[trigger] cs@[j]),
        decreases hi - lo,
    {
        hi -= 1;
    }
    let mut t = String::new();
    let mut i: usize = lo;
    while i < hi
        invariant
            lo <= i <= hi <= cs@.len(),
            t@ == cs@.subrange(lo as int, i as int),
        decreases hi - i,
    {
        string_push(&mut t, cs[i]);
        assert(cs@.subrange(lo as int, i + 1) =~= cs@.subrange(lo as int, i as int).push(cs@[i as int]));
        i += 1;
    }
    proof {
        assert(trim_bounds(s@, lo as int, hi as int));
        reveal(trimmed);
        let (lo2, hi2) = choose|lo2: int, hi2: int| trim_bounds(s@, lo2, hi2);
        lemma_trim_bounds_unique(s@, lo as int, hi as int, lo2, hi2);
    }
    t
}

/// Where `c` first stands in `s`, if anywhere.
pub open spec fn first_index_of(s: Seq<char>, c: char) -> Option<int> {
    if s.contains(c) {
        Some(choose|i: int| 0 <= i < s.len() && s[i] == c && forall|j: int| 0 <= j < i ==> s[j] != c)
    } else {
        None
    }
}

proof fn lemma_first_index(s: Seq<char>, c: char, k: int)
    requires
        0 <= k < s.len(),
        s[k] == c,
        forall|j: int| 0 <= j < k ==> s[j] != c,
    ensures
        first_index_of(s, c) == Some(k),
{
    assert(s.contains(c));
    let i = choose|i: int| 0 <= i < s.len() && s[i] == c && forall|j: int| 0 <= j < i ==> s[j] != c;
    assert(0 <= i < s.len() && s[i] == c && forall|j: int| 0 <= j < i ==> s[j] != c);
    if i < k {
        assert(s[i] != c);
    } else if k < i {
        assert(s[k] != c);
    }
}

/// The name and value that an expected header line such as
/// `Content-Type: text/html` stands for: the text before the first `:` and
/// the text after it, both trimmed.
pub open spec fn expected_header_parts(line: Seq<char>) -> (Seq<char>, Seq<char>) {
    let i = first_index_of(line, ':')->0;
    (trimmed(line.take(i)), trimmed(line.skip(i + 1)))
}

/// The name and value of an expected header line, which must hold a `:`.
pub fn expected_header(line: &str) -> (parts: (String, String))
    requires
        line@.contains(':'),
    ensures
        (parts.0@, parts.1@) == expected_header_parts(line@),
{
    let cs = chars_of(line);
    let mut i: usize = 0;
    while i < cs.len()
        invariant
            cs@ == line@,
            line@.contains(':'),
            i <= cs@.len(),
            forall|j: int| 0 <= j < i ==> cs@[j] != ':',
        decreases cs@.len() - i,
    {
        if cs[i] == ':' {
            proof { lemma_first_index(line@, ':', i as int); }
            let before = string_from_chars(cs.as_slice().split_at(i).0);
            let after = string_from_chars(cs.as_slice().split_at(i + 1).1);
            assert(before@ == line@.take(i as int));
            assert(after@ == line@.skip(i + 1));
            return (trim(before.as_str()), trim(after.as_str()));
        }
        i += 1;
    }
    proof {
        let k = choose|k: int| 0 <= k < line@.len() && line@[k] == ':';
        assert(cs@[k] != ':');
    }
    (String::new(), String::new())
}

/// An ASCII byte in lower case.
pub open spec fn ascii_lower(b: u8) -> u8 {
    if 65 <= b <= 90 { (b + 32) as u8 } else { b }
}

/// Two byte strings that are equal when ASCII letters are compared without
/// regard to case.
pub open spec fn eq_ignore_ascii_case(a: Seq<u8>, b: Seq<u8>) -> bool {
    &&& a.len() == b.len()
    &&& forall|i: int| 0 <= i < a.len() ==> ascii_lower(#[trigger] a[i]) == ascii_lower(b[i])
}

/// Whether two byte strings are equal when ASCII letters are compared
/// without regard to case.
pub fn bytes_eq_ignore_ascii_case(a: &[u8], b: &[u8]) -> (eq: bool)
    ensures
        eq == eq_ignore_ascii_case(a@, b@),
{
    if a.len() != b.len() {
        return false;
    }
    let mut i: usize = 0;
    while i < a.len()
        invariant
            a@.len() == b@.len(),
            i <= a@.len(),
            forall|j: int| 0 <= j < i ==> ascii_lower(#[trigger] a@[j]) == ascii_lower(b@[j]),
        decreases a@.len() - i,
    {
        let x = if 65 <= a[i] && a[i] <= 90 { a[i] + 32 } else { a[i] };
        let y = if 65 <= b[i] && b[i] <= 90 { b[i] + 32 } else { b[i] };
        if x != y {
            return false;
        }
        i += 1;
    }
    true
}

/// Whether two byte strings are equal.
pub fn bytes_equal(a: &[u8], b: &[u8]) -> (eq: bool)
    ensures
        eq == (a@ == b@),
{
    if a.len() != b.len() {
        return false;
    }
    let mut i: usize = 0;
    while i < a.len()
        invariant
            a@.len() == b@.len(),
            i <= a@.len(),
            forall|j: int| 0 <= j < i ==> a@[j] == b@[j],
        decreases a@.len() - i,
    {
        if a[i] != b[i] {
            return false;
        }
        i += 1;
    }
    assert(a@ =~= b@);
    true
}

/// The response holds a header whose name matches `name` without regard to
/// ASCII case and whose value is exactly `value`; each header is given by
/// the bytes of its name and of its value.
pub open spec fn has_header(name: Seq<u8>, value: Seq<u8>, actual: Seq<(Vec<u8>, Vec<u8>)>) -> bool {
    exists|i: int| 0 <= i < actual.len() && eq_ignore_ascii_case(name, (#[trigger] actual[i]).0@) && value == actual[i].1@
}

/// Whether the response holds a header matching `name` and `value`.
pub fn header_present(name: &str, value: &str, actual: &Vec<(Vec<u8>, Vec<u8>)>) -> (found: bool)
    ensures
        found == has_header(name.spec_bytes(), value.spec_bytes(), actual@),
{
    let name_bytes = name.as_bytes();
    let value_bytes = value.as_bytes();
    let mut i: usize = 0;
    while i < actual.len()
        invariant
            name_bytes@ == name.spec_bytes(),
            value_bytes@ == value.spec_bytes(),
            i <= actual@.len(),
            forall|j: int| 0 <= j < i ==> !(eq_ignore_ascii_case(name_bytes@, (#[trigger] actual@[j]).0@)
                && value_bytes@ == actual@[j].1@),
        decreases actual@.len() - i,
    {
        if bytes_eq_ignore_ascii_case(name_bytes, actual[i].0.as_slice()) && bytes_equal(value_bytes, actual[i].1.as_slice()) {
            return true;
        }
        i += 1;
    }
    false
}

/// Every expected header line holds a `:`.
pub open spec fn header_lines_well_formed(expected: TestDownstreamResponse) -> bool {
    match expected.headers {
        Some(lines) => forall|k: int| 0 <= k < lines@.len() ==> (#[trigger] lines@[k])@.contains(':'),
        None => true,
    }
}

/// The bytes of a text.
pub open spec fn utf8_bytes(s: Seq<char>) -> Seq<u8> {
    vstd::utf8::encode_utf8(s)
}

/// The response holds the header that an expected header line stands for.
pub open spec fn line_met(line: Seq<char>, headers: Seq<(Vec<u8>, Vec<u8>)>) -> bool {
    let parts = expected_header_parts(line);
    has_header(utf8_bytes(parts.0), utf8_bytes(parts.1), headers)
}

/// A response meets a test case's expectations: the body when one is
/// expected, the status when one is expected, and a matching header for
/// every expected header line.
pub open spec fn response_meets(
    expected: TestDownstreamResponse,
    status: usize,
    headers: Seq<(Vec<u8>, Vec<u8>)>,
    body: Seq<char>,
) -> bool {
    &&& match expected.body {
        Some(b) => body == b@,
        None => true,
    }
    &&& match expected.status {
        Some(st) => status == st,
        None => true,
    }
    &&& match expected.headers {
        Some(lines) => forall|k: int| 0 <= k < lines@.len() ==> line_met(#[trigger] lines@[k]@, headers),
        None => true,
    }
}

/// Whether a response with `status`, `headers` and `body` meets the
/// expectations of a test case; every expected header line must hold a
/// `:`.
pub fn response_matches(
    expected: &TestDownstreamResponse,
    status: usize,
    headers: &Vec<(Vec<u8>, Vec<u8>)>,
    body: &str,
) -> (ok: bool)
    requires
        header_lines_well_formed(*expected),
    ensures
        ok == response_meets(*expected, status, headers@, body@),
{
    let body_ok = match &expected.body {
        Some(b) => text_equals(body, b.as_str()),
        None => true,
    };
    let status_ok = match expected.status {
        Some(st) => status == st,
        None => true,
    };
    if !body_ok || !status_ok {
        return false;
    }
    match &expected.headers {
        Some(lines) => {
            let mut k: usize = 0;
            while k < lines.len()
                invariant
                    k <= lines@.len(),
                    expected.headers == Some(*lines),
                    match expected.body {
                        Some(b) => body@ == b@,
                        None => true,
                    },
                    match expected.status {
                        Some(st) => status == st,
                        None => true,
                    },
                    forall|j: int| 0 <= j < lines@.len() ==> (#[trigger] lines@[j])@.contains(':'),
                    forall|j: int| 0 <= j < k ==> line_met(#[trigger] lines@[j]@, headers@),
                decreases lines@.len() - k,
            {
                let (name, value) = expected_header(lines[k].as_str());
                if !header_present(name.as_str(), value.as_str(), headers) {
                    assert(!line_met(lines@[k as int]@, headers@));
                    assert(expected.headers->0 == *lines);
                    assert(!(forall|j: int| 0 <= j < lines@.len() ==> line_met(#[trigger] lines@[j]@, headers@)));
                    assert(!response_meets(*expected, status, headers@, body@));
                    return false;
                }
                k += 1;
            }
            true
        },
        None => true,
    }
}

/// Whether a line that the test server prints says that it is ready.
pub fn server_ready(line: &str) -> (ready: bool)
    ensures
        ready == exists|i: int| 0 <= i && i + 12 <= line@.len() && #[trigger] line@.subrange(i, i + 12) == "Listening on"@,
{
    let cs = chars_of(line);
    let pattern = chars_of("Listening on");
    proof { reveal_strlit("Listening on"); }
    assert(pattern@.len() == 12);
    if cs.len() < 12 {
        assert forall|i: int| 0 <= i && i + 12 <= line@.len() implies #[trigger] line@.subrange(i, i + 12) != "Listening on"@ by {}
        return false;
    }
    let last = cs.len() - 12;
    let mut i: usize = 0;
    while i <= last
        invariant
            cs@ == line@,
            pattern@ == "Listening on"@,
            pattern@.len() == 12,
            last + 12 == cs.len(),
            i <= last + 1,
            forall|j: int| 0 <= j < i ==> #[trigger] cs@.subrange(j, j + 12) != pattern@,
        decreases last + 1 - i,
    {
        let mut k: usize = 0;
        let mut same = true;
        while k < 12
            invariant
                cs@ == line@,
                pattern@.len() == 12,
                i + 12 <= cs.len(),
                k <= 12,
                same == forall|m: int| 0 <= m < k ==> cs@[i + m] == pattern@[m],
            decreases 12 - k,
        {
            if cs[i + k] != pattern[k] {
                same = false;
            }
            k += 1;
        }
        if same {
            assert(cs@.subrange(i as int, i + 12) =~= pattern@);
            return true;
        }
        assert(cs@.subrange(i as int, i + 12) != pattern@) by {
            let m = choose|m: int| 0 <= m < 12 && cs@[i + m] != pattern@[m];
            assert(cs@.subrange(i as int, i + 12)[m] == cs@[i + m]);
        }
        i += 1;
    }
    assert forall|j: int| 0 <= j && j + 12 <= line@.len() implies #[trigger] line@.subrange(j, j + 12) != "Listening on"@ by {
        assert(j <= last);
    }
    false
}

/// The arguments of the test server: the Wasm file, then `-C` and the
/// `fastly.toml` file when there is one.
pub open spec fn server_args(wasm_file: Seq<char>, fastly_toml: Option<Seq<char>>) -> Seq<Seq<char>> {
    match fastly_toml {
        Some(toml) => seq![wasm_file, "-C"@, toml],
        None => seq![wasm_file],
    }
}

/// The argument list of the test server for the Wasm file `wasm_file` and
/// the optional `fastly.toml` file, both as text.
pub fn test_server_args(wasm_file: String, fastly_toml: Option<String>) -> (args: Vec<String>)
    ensures
        texts(args@) == server_args(wasm_file@, opt_text(fastly_toml)),
{
    let mut args: Vec<String> = Vec::new();
    args.push(wasm_file);
    match fastly_toml {
        Some(toml) => {
            args.push(String::from_str("-C"));
            args.push(toml);
        },
        None => {},
    }
    assert(texts(args@) =~= server_args(wasm_file@, opt_text(fastly_toml)));
    args
}

/// A response meets a test case only if every expected header line, at every
/// place in the list, has a matching header in the response; and when the
/// body and status expected are met, meeting every line is enough.
pub proof fn law_every_expected_header_is_checked(
    expected: TestDownstreamResponse,
    status: usize,
    headers: Seq<(Vec<u8>, Vec<u8>)>,
    body: Seq<char>,
    lines: Vec<String>,
)
    requires
        expected.headers == Some(lines),
    ensures
        response_meets(expected, status, headers, body)
            ==> forall|k: int| 0 <= k < lines@.len() ==> line_met(#[trigger] lines@[k]@, headers),
        (match expected.body { Some(b) => body == b@, None => true })
            && (match expected.status { Some(st) => status == st, None => true })
            && (forall|k: int| 0 <= k < lines@.len() ==> line_met(#[trigger] lines@[k]@, headers))
            ==> response_meets(expected, status, headers, body),
{
    if response_meets(expected, status, headers, body) {
        assert forall|k: int| 0 <= k < lines@.len() implies line_met(#[trigger] lines@[k]@, headers) by {
            assert(line_met(expected.headers->0@[k]@, headers));
        }
    }
}

/// A response meets a test case only if it has the expected status and the
/// expected body, whenever the test case expects them.
pub proof fn law_status_and_body_are_checked(
    expected: TestDownstreamResponse,
    status: usize,
    headers: Seq<(Vec<u8>, Vec<u8>)>,
    body: Seq<char>,
)
    requires
        response_meets(expected, status, headers, body),
    ensures
        expected.status matches Some(st) ==> status == st,
        expected.body matches Some(b) ==> body == b@,
{
}

} // verus!
