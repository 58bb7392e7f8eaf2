//! The client request as the PHP runtime sees it.
//!
//! The request is fetched from the host once and handed to the handle
//! together with what was read of it (the client's address, the version, the
//! URL, the method, the query and the headers) as plain values; every later
//! question is answered from those values. The body is read in chunks: the
//! first read hands the request over to the body reader, which takes the
//! whole body from the host and then serves it piece by piece. Once handed
//! over, the request itself can no longer be asked about.

use vstd::prelude::*;
use fastly::Request;

use crate::error::RuntimeError;
use crate::host;
use crate::sapi::pair_texts;
use crate::text::string_push;

verus! {

/// The HTTP versions that the runtime names.
#[derive(Clone, Copy, Debug, PartialEq, Eq, Structural)]
pub enum HttpVersion {
    Http09,
    Http10,
    Http11,
    Http2,
    Http3,
    /// A version without a name of its own.
    Other,
}

/// The label that PHP gets for each HTTP version.
pub open spec fn version_text(v: HttpVersion) -> Option<Seq<char>> {
    match v {
        HttpVersion::Http09 => Some("0.9"@),
        HttpVersion::Http10 => Some("1.0"@),
        HttpVersion::Http11 => Some("1.1"@),
        HttpVersion::Http2 => Some("2.0"@),
        HttpVersion::Http3 => Some("3.0"@),
        HttpVersion::Other => None,
    }
}

/// The text of an optional string.
pub open spec fn opt_text(s: Option<String>) -> Option<Seq<char>> {
    match s {
        Some(t) => Some(t@),
        None => None,
    }
}

/// The label of an HTTP version, such as `1.1`; none for an unnamed version.
pub fn version_label(v: HttpVersion) -> (label: Option<String>)
    ensures
        opt_text(label) == version_text(v),
{
    match v {
        HttpVersion::Http09 => Some(String::from_str("0.9")),
        HttpVersion::Http10 => Some(String::from_str("1.0")),
        HttpVersion::Http11 => Some(String::from_str("1.1")),
        HttpVersion::Http2 => Some(String::from_str("2.0")),
        HttpVersion::Http3 => Some(String::from_str("3.0")),
        HttpVersion::Other => None,
    }
}

/// Where the client request stands.
#[derive(Clone, Copy, Debug, PartialEq, Eq, Structural)]
pub enum RequestPhase {
    /// Not yet fetched from the host.
    Uninitialized,
    /// Fetched and held.
    Initialized,
    /// Handed over to the body reader.
    Used,
}

/// Where the request body stands.
pub enum BodyView {
    /// No chunk has been read yet.
    NotStarted,
    /// The body was taken from the host; `pos` bytes of it were served.
    Reading { data: Seq<u8>, pos: nat },
    /// The body is closed.
    Finished,
}

/// What the runtime reads of a client request, as plain values.
pub struct RequestData {
    /// The client's address as text, when the host knows it.
    pub remote_address: Option<String>,
    pub version: HttpVersion,
    /// The URL of the request as text.
    pub uri: String,
    pub method: String,
    /// The query of the URL, if it has one.
    pub query: Option<String>,
    /// Each header's name and the bytes of its value, in the request's order.
    pub headers: Vec<(String, Vec<u8>)>,
}

/// The texts and bytes of a `RequestData`.
pub struct RequestDataView {
    pub remote_address: Option<Seq<char>>,
    pub version: HttpVersion,
    pub uri: Seq<char>,
    pub method: Seq<char>,
    pub query: Option<Seq<char>>,
    pub headers: Seq<(Seq<char>, Seq<u8>)>,
}

impl View for RequestData {
    type V = RequestDataView;

    open spec fn view(&self) -> RequestDataView {
        RequestDataView {
            remote_address: opt_text(self.remote_address),
            version: self.version,
            uri: self.uri@,
            method: self.method@,
            query: opt_text(self.query),
            headers: self.headers@.map_values(|h: (String, Vec<u8>)| (h.0@, h.1@)),
        }
    }
}

/// The state of a request handle: where the request and its body stand, and
/// what was read of the request when it was fetched.
pub struct RequestView {
    pub phase: RequestPhase,
    pub body: BodyView,
    pub data: Option<RequestDataView>,
}

/// The request can be asked about: it was fetched and read, and not handed
/// over.
pub open spec fn request_readable(v: RequestView) -> bool {
    v.phase == RequestPhase::Initialized && v.data is Some
}

/// What handing a fetched request to a handle does: the handle holds it,
/// with what was read of it; its body stays where it was.
pub open spec fn initialize_outcome(pre: RequestView, data: RequestDataView, post: RequestView) -> bool {
    &&& post.phase == RequestPhase::Initialized
    &&& post.body == pre.body
    &&& post.data == Some(data)
}

/// A byte of a header value that `fastly::http::HeaderValue::to_str` lets
/// through: a tab or a visible ASCII character.
pub open spec fn is_visible_ascii(b: u8) -> bool {
    b == 9 || (32 <= b && b <= 126)
}

/// Every header value of the request can be read as text.
pub open spec fn headers_are_text(headers: Seq<(Seq<char>, Seq<u8>)>) -> bool {
    forall|i: int, j: int| 0 <= i < headers.len() && 0 <= j < headers[i].1.len()
        ==> is_visible_ascii(#[trigger] headers[i].1[j])
}

/// The characters of ASCII bytes.
pub open spec fn ascii_text(bytes: Seq<u8>) -> Seq<char> {
    bytes.map_values(|b: u8| b as char)
}

/// The headers as texts.
pub open spec fn header_texts(headers: Seq<(Seq<char>, Seq<u8>)>) -> Seq<(Seq<char>, Seq<char>)> {
    headers.map_values(|h: (Seq<char>, Seq<u8>)| (h.0, ascii_text(h.1)))
}

/// The client request, fetched on first use.
pub enum RequestState {
    Uninitialized,
    Initialized(Request),
    Used,
}

/// The request body: not yet taken, being served from the bytes taken from
/// the host, or closed.
pub enum Body {
    Uninitialized,
    Reading { data: Vec<u8>, pos: usize },
    Finished,
}

/// The phase of a request state.
pub open spec fn state_phase(s: RequestState) -> RequestPhase {
    match s {
        RequestState::Uninitialized => RequestPhase::Uninitialized,
        RequestState::Initialized(_) => RequestPhase::Initialized,
        RequestState::Used => RequestPhase::Used,
    }
}

/// The view of a request body.
pub open spec fn body_view(b: Body) -> BodyView {
    match b {
        Body::Uninitialized => BodyView::NotStarted,
        Body::Reading { data, pos } => BodyView::Reading { data: data@, pos: pos as nat },
        Body::Finished => BodyView::Finished,
    }
}

/// How many bytes one read serves: as many as the buffer holds, and no more
/// than are left after `pos`.
pub open spec fn chunk_len(data_len: nat, pos: nat, buf_len: nat) -> nat {
    let left: nat = if pos <= data_len { (data_len - pos) as nat } else { 0 };
    if buf_len < left { buf_len } else { left }
}

/// A read at `pos` served `n` bytes into `buf`: they are the next `n` bytes
/// of `data`, copied to the front of the buffer; the rest of the buffer is
/// untouched.
pub open spec fn serves(data: Seq<u8>, pos: nat, buf: Seq<u8>, n: nat, new_buf: Seq<u8>) -> bool {
    &&& n == chunk_len(data.len(), pos, buf.len())
    &&& new_buf == data.subrange(pos as int, (pos + n) as int) + buf.subrange(n as int, buf.len() as int)
}

/// What one read of the request body does, from the handle's state `pre` and
/// the buffer `buf` to the state `post`, the buffer `new_buf` and the result.
/// What was read of the request when it was fetched stays as it was.
pub open spec fn read_outcome(
    pre: RequestView,
    buf: Seq<u8>,
    post: RequestView,
    new_buf: Seq<u8>,
    r: Result<usize, RuntimeError>,
) -> bool {
    &&& post.data == pre.data
    &&& match pre.body {
        BodyView::Finished => {
            &&& r == Err::<usize, RuntimeError>(RuntimeError::RequestBodyFinished)
            &&& post == pre
            &&& new_buf == buf
        },
        BodyView::NotStarted => match (post.body, r) {
            (BodyView::Reading { data, pos }, Ok(n)) => {
                &&& post.phase == RequestPhase::Used
                &&& pos == n
                &&& serves(data, 0, buf, n as nat, new_buf)
            },
            _ => false,
        },
        BodyView::Reading { data, pos } => match r {
            Ok(n) => {
                &&& post.phase == RequestPhase::Used
                &&& post.body == BodyView::Reading { data, pos: (pos + n) as nat }
                &&& serves(data, pos, buf, n as nat, new_buf)
            },
            Err(_) => false,
        },
    }
}

/// Copies the next bytes of `data` after `pos` to the front of `buf`.
fn copy_chunk(data: &Vec<u8>, pos: usize, buf: &mut [u8]) -> (n: usize)
    requires
        pos <= data@.len(),
    ensures
        serves(data@, pos as nat, old(buf)@, n as nat, final(buf)@),
        pos + n <= data.len(),
{
    let left = data.len() - pos;
    let n = if buf.len() < left { buf.len() } else { left };
    let mut i: usize = 0;
    while i < n
        invariant
            n == chunk_len(data@.len(), pos as nat, old(buf)@.len()),
            pos + n <= data.len(),
            n <= old(buf)@.len(),
            i <= n,
            buf@.len() == old(buf)@.len(),
            forall|j: int| 0 <= j < i ==> buf@[j] == data@[pos + j],
            forall|j: int| i <= j < buf@.len() ==> buf@[j] == old(buf)@[j],
        decreases n - i,
    {
        buf[i] = data[pos + i];
        i += 1;
    }
    assert(buf@ =~= data@.subrange(pos as int, pos + n) + old(buf)@.subrange(
        n as int,
        old(buf)@.len() as int,
    ));
    n
}

impl RequestState {
    fn new() -> (s: Self)
        ensures
            s is Uninitialized,
    {
        RequestState::Uninitialized
    }

    /// Hands the fetched request over; the state is `Used` afterwards, and a
    /// second hand-over is refused.
    fn take(&mut self) -> (r: Result<Request, RuntimeError>)
        requires
            !(*old(self) is Uninitialized),
        ensures
            *final(self) is Used,
            *old(self) is Used <==> r is Err,
            r is Err ==> r == Err::<Request, RuntimeError>(RuntimeError::RequestTaken),
    {
        let mut previous = RequestState::Used;
        std::mem::swap(self, &mut previous);
        match previous {
            RequestState::Initialized(req) => Ok(req),
            _ => Err(RuntimeError::RequestTaken),
        }
    }
}

impl Body {
    fn new() -> (b: Self)
        ensures
            b is Uninitialized,
    {
        Body::Uninitialized
    }

    /// Serves the next chunk of the request body into `buffer`. The first
    /// read takes the request from `req` and its body from the host.
    fn read(&mut self, req: &mut RequestState, buffer: &mut [u8]) -> (r: Result<usize, RuntimeError>)
        requires
            *old(self) is Uninitialized ==> *old(req) is Initialized,
            *old(self) is Reading ==> *old(req) is Used,
            *old(self) matches Body::Reading { data, pos } ==> pos <= data@.len(),
        ensures
            *old(self) is Finished ==> r == Err::<usize, RuntimeError>(RuntimeError::RequestBodyFinished)
                && *final(self) == *old(self) && *final(req) == *old(req) && final(buffer)@ == old(buffer)@,
            *old(self) is Uninitialized ==> match (body_view(*final(self)), r) {
                (BodyView::Reading { data, pos }, Ok(n)) => pos == n && serves(data, 0, old(buffer)@, n as nat, final(buffer)@),
                _ => false,
            },
            *old(self) matches Body::Reading { data, pos } ==> match r {
                Ok(n) => body_view(*final(self)) == (BodyView::Reading { data: data@, pos: (pos + n) as nat })
                    && serves(data@, pos as nat, old(buffer)@, n as nat, final(buffer)@),
                Err(_) => false,
            },
            !(*old(self) is Finished) ==> *final(req) is Used,
            *final(self) matches Body::Reading { data, pos } ==> pos <= data@.len(),
    {
        match self {
            Body::Finished => Err(RuntimeError::RequestBodyFinished),
            Body::Uninitialized => {
                let mut request = match req.take() {
                    Ok(request) => request,
                    Err(e) => {
                        assert(false);
                        return Err(e);
                    },
                };
                let data = host::take_body_bytes(&mut request);
                let n = copy_chunk(&data, 0, buffer);
                *self = Body::Reading { data, pos: n };
                Ok(n)
            },
            Body::Reading { data, pos } => {
                let n = copy_chunk(data, *pos, buffer);
                *pos = *pos + n;
                Ok(n)
            },
        }
    }
}

/// The text of a header value whose bytes are all ASCII.
fn ascii_string(bytes: &Vec<u8>) -> (s: String)
    requires
        forall|j: int| 0 <= j < bytes@.len() ==> is_visible_ascii(#[trigger] bytes@[j]),
    ensures
        s@ == ascii_text(bytes@),
{
    let mut s = String::new();
    let mut i: usize = 0;
    while i < bytes.len()
        invariant
            i <= bytes@.len(),
            s@ == ascii_text(bytes@.take(i as int)),
        decreases bytes@.len() - i,
    {
        let c = bytes[i] as char;
        string_push(&mut s, c);
        assert(ascii_text(bytes@.take(i + 1)) =~= ascii_text(bytes@.take(i as int)).push(c));
        i += 1;
    }
    assert(bytes@.take(bytes@.len() as int) =~= bytes@);
    s
}

/// The client request and its body.
pub struct RequestHandle {
    request: RequestState,
    body: Body,
    data: Option<RequestData>,
}

impl View for RequestHandle {
    type V = RequestView;

    closed spec fn view(&self) -> RequestView {
        RequestView {
            phase: state_phase(self.request),
            body: body_view(self.body),
            data: match self.data {
                Some(d) => Some(d@),
                None => None,
            },
        }
    }
}

impl RequestHandle {
    /// The body reader holds the request exactly while it reads, and the
    /// request was read when it was fetched.
    #[verifier::type_invariant]
    closed spec fn well_formed(self) -> bool {
        &&& (self.request is Uninitialized <==> self.data is None)
        &&& match self.body {
            Body::Uninitialized => !(self.request is Used),
            Body::Reading { data, pos } => self.request is Used && pos <= data@.len(),
            Body::Finished => true,
        }
    }

    /// A handle with nothing fetched yet.
    pub fn new() -> (h: Self)
        ensures
            h@.phase == RequestPhase::Uninitialized,
            h@.body is NotStarted,
            h@.data is None,
    {
        RequestHandle { request: RequestState::new(), body: Body::new(), data: None }
    }

    /// Takes the client request, fetched from the host, and what was read
    /// of it: its client's address, version, URL, method, query and headers.
    /// The request itself is kept for its body. The handle must not hold a
    /// request yet.
    pub fn initialize(&mut self, request: Request, data: RequestData)
        requires
            old(self)@.phase == RequestPhase::Uninitialized,
        ensures
            initialize_outcome(old(self)@, data@, final(self)@),
    {
        proof { use_type_invariant(&*self); }
        let mut body = Body::Finished;
        std::mem::swap(&mut self.body, &mut body);
        *self = RequestHandle { request: RequestState::Initialized(request), body, data: Some(data) };
    }

    /// Where the client request stands.
    pub fn phase(&self) -> (p: RequestPhase)
        ensures
            p == self@.phase,
    {
        match &self.request {
            RequestState::Uninitialized => RequestPhase::Uninitialized,
            RequestState::Initialized(_) => RequestPhase::Initialized,
            RequestState::Used => RequestPhase::Used,
        }
    }

    /// The address of the client, as text, when the host knows it: the one
    /// handed over with the request. The request must have been fetched.
    pub fn remote_address(&mut self) -> (addr: Option<String>)
        requires
            old(self)@.data is Some,
        ensures
            final(self)@ == old(self)@,
            opt_text(addr) == old(self)@.data->0.remote_address,
    {
        match &self.data {
            Some(d) => d.remote_address.clone(),
            None => None,
        }
    }

    /// Whether `headers` can answer: the request is held and every header
    /// value is made of tabs and visible ASCII characters.
    #[verifier::loop_isolation(false)]
    pub fn headers_readable(&self) -> (ok: bool)
        ensures
            ok == (request_readable(self@) && headers_are_text(self@.data->0.headers)),
    {
        proof { use_type_invariant(self); }
        match (&self.request, &self.data) {
            (RequestState::Initialized(_), Some(d)) => {
                let ghost hs = d@.headers;
                let mut i: usize = 0;
                while i < d.headers.len()
                    invariant
                        i <= d.headers@.len(),
                        hs == d@.headers,
                        forall|k: int, j: int| 0 <= k < i && 0 <= j < hs[k].1.len()
                            ==> is_visible_ascii(#[trigger] hs[k].1[j]),
                    decreases d.headers@.len() - i,
                {
                    let value = &d.headers[i].1;
                    assert(value@ == hs[i as int].1);
                    let mut j: usize = 0;
                    while j < value.len()
                        invariant
                            j <= value@.len(),
                            value@ == hs[i as int].1,
                            forall|m: int| 0 <= m < j ==> is_visible_ascii(#[trigger] value@[m]),
                        decreases value@.len() - j,
                    {
                        let b = value[j];
                        if !(b == 9 || (32 <= b && b <= 126)) {
                            assert(!is_visible_ascii(hs[i as int].1[j as int]));
                            return false;
                        }
                        j += 1;
                    }
                    assert forall|k: int, j: int| 0 <= k < i + 1 && 0 <= j < hs[k].1.len()
                        implies is_visible_ascii(#[trigger] hs[k].1[j]) by {
                        if k == i as int {
                            assert(is_visible_ascii(value@[j]));
                        }
                    }
                    i += 1;
                }
                true
            },
            _ => false,
        }
    }

    /// The headers of the request, each name with its value as text. The
    /// request must be held, and its header values must be text.
    pub fn headers(&mut self) -> (headers: Vec<(String, String)>)
        requires
            request_readable(old(self)@),
            headers_are_text(old(self)@.data->0.headers),
        ensures
            final(self)@ == old(self)@,
            pair_texts(headers@) == header_texts(old(self)@.data->0.headers),
    {
        proof { use_type_invariant(&*self); }
        let mut out: Vec<(String, String)> = Vec::new();
        match &self.data {
            Some(d) => {
                let ghost hs = d@.headers;
                let mut i: usize = 0;
                while i < d.headers.len()
                    invariant
                        i <= d.headers@.len(),
                        hs == d@.headers,
                        headers_are_text(hs),
                        out@.len() == i,
                        forall|k: int| 0 <= k < i ==> (#[trigger] out@[k]).0@ == hs[k].0 && out@[k].1@ == ascii_text(hs[k].1),
                    decreases d.headers@.len() - i,
                {
                    let name = d.headers[i].0.clone();
                    assert(forall|j: int| 0 <= j < d.headers@[i as int].1@.len() ==> is_visible_ascii(#[trigger] d.headers@[i as int].1@[j])) by {
                        assert forall|j: int| 0 <= j < d.headers@[i as int].1@.len() implies is_visible_ascii(#[trigger] d.headers@[i as int].1@[j]) by {
                            assert(hs[i as int].1[j] == d.headers@[i as int].1@[j]);
                        }
                    }
                    let value = ascii_string(&d.headers[i].1);
                    out.push((name, value));
                    i += 1;
                }
                assert(pair_texts(out@) =~= header_texts(hs));
            },
            None => {},
        }
        out
    }

    /// The label of the request's HTTP version, such as `1.1`; none when the
    /// version has no label. The request must be held.
    pub fn http_version(&mut self) -> (version: Option<String>)
        requires
            request_readable(old(self)@),
        ensures
            final(self)@ == old(self)@,
            opt_text(version) == version_text(old(self)@.data->0.version),
    {
        proof { use_type_invariant(&*self); }
        match &self.data {
            Some(d) => version_label(d.version),
            None => None,
        }
    }

    /// The URL of the request. The request must be held.
    pub fn request_uri(&mut self) -> (uri: Option<String>)
        requires
            request_readable(old(self)@),
        ensures
            final(self)@ == old(self)@,
            opt_text(uri) == Some(old(self)@.data->0.uri),
    {
        proof { use_type_invariant(&*self); }
        match &self.data {
            Some(d) => Some(d.uri.clone()),
            None => None,
        }
    }

    /// The method of the request, such as `GET`. The request must be held.
    pub fn request_method(&mut self) -> (method: String)
        requires
            request_readable(old(self)@),
        ensures
            final(self)@ == old(self)@,
            method@ == old(self)@.data->0.method,
    {
        proof { use_type_invariant(&*self); }
        match &self.data {
            Some(d) => d.method.clone(),
            None => String::new(),
        }
    }

    /// The query of the request's URL, if it has one. The request must be
    /// held.
    pub fn query_string(&mut self) -> (query: Option<String>)
        requires
            request_readable(old(self)@),
        ensures
            final(self)@ == old(self)@,
            opt_text(query) == old(self)@.data->0.query,
    {
        proof { use_type_invariant(&*self); }
        match &self.data {
            Some(d) => d.query.clone(),
            None => None,
        }
    }

    /// Serves the next chunk of the request body into `buf` and returns how
    /// many bytes it wrote there; see `read_outcome`. The request must have
    /// been fetched.
    pub fn read_body_chunk(&mut self, buf: &mut [u8]) -> (r: Result<usize, RuntimeError>)
        requires
            old(self)@.phase != RequestPhase::Uninitialized,
        ensures
            read_outcome(old(self)@, old(buf)@, final(self)@, final(buf)@, r),
            final(self)@.body matches BodyView::Reading { data, pos } ==> pos <= data.len(),
            r is Ok ==> !request_readable(final(self)@),
            old(self)@.phase == RequestPhase::Used ==> final(self)@.phase == RequestPhase::Used,
    {
        proof { use_type_invariant(&*self); }
        let mut body = Body::Finished;
        std::mem::swap(&mut self.body, &mut body);
        let mut request = RequestState::Used;
        std::mem::swap(&mut self.request, &mut request);
        let r = body.read(&mut request, buf);
        self.request = request;
        self.body = body;
        proof { use_type_invariant(&*self); }
        r
    }
}

/// A read of the body changes nothing of what was read of the request when
/// it was fetched, and a fetched request never turns unfetched again, so
/// that `initialize`, which needs an unfetched handle, takes a request at
/// most once and every answer comes from that one request.
pub proof fn law_reads_keep_request(
    v0: RequestView,
    buf: Seq<u8>,
    v1: RequestView,
    out: Seq<u8>,
    r: Result<usize, RuntimeError>,
)
    requires
        read_outcome(v0, buf, v1, out, r),
    ensures
        v1.data == v0.data,
        v0.phase != RequestPhase::Uninitialized ==> v1.phase != RequestPhase::Uninitialized,
{
}

/// A request is handed to a handle once: after `initialize` and any read of
/// the body, the handle still answers from the data handed over, and it is
/// no longer unfetched, so `initialize` cannot take a second request.
pub proof fn law_request_handed_over_once(
    v0: RequestView,
    data: RequestDataView,
    v1: RequestView,
    buf: Seq<u8>,
    v2: RequestView,
    out: Seq<u8>,
    r: Result<usize, RuntimeError>,
)
    requires
        v0.phase == RequestPhase::Uninitialized,
        initialize_outcome(v0, data, v1),
        read_outcome(v1, buf, v2, out, r),
    ensures
        v1.data == Some(data),
        v2.data == Some(data),
        v1.phase != RequestPhase::Uninitialized,
        v2.phase != RequestPhase::Uninitialized,
{
}

/// Once a read of the body succeeded, the request is handed over to the
/// body reader: `request_method`, `request_uri`, `http_version`,
/// `query_string` and `headers`, which all need `request_readable`, are
/// refused.
pub proof fn law_request_refused_after_body_read(
    v0: RequestView,
    buf: Seq<u8>,
    v1: RequestView,
    out: Seq<u8>,
    n: usize,
)
    requires
        read_outcome(v0, buf, v1, out, Ok(n)),
    ensures
        v1.phase == RequestPhase::Used,
        !request_readable(v1),
{
}

/// A request handed over to the body reader stays handed over whatever
/// later reads do, so that, by induction over any run of reads, the
/// request's questions stay refused.
pub proof fn law_handed_over_request_stays_refused(
    v0: RequestView,
    buf: Seq<u8>,
    v1: RequestView,
    out: Seq<u8>,
    r: Result<usize, RuntimeError>,
)
    requires
        v0.phase == RequestPhase::Used,
        read_outcome(v0, buf, v1, out, r),
    ensures
        v1.phase == RequestPhase::Used,
        !request_readable(v1),
{
}

/// Two reads in a row serve consecutive pieces of the body: what they wrote
/// to the front of their buffers is, joined, the body from where the first
/// read started, and the position moves on by both counts.
pub proof fn law_reads_serve_body_in_order(
    v0: RequestView,
    buf1: Seq<u8>,
    v1: RequestView,
    out1: Seq<u8>,
    n1: usize,
    buf2: Seq<u8>,
    v2: RequestView,
    out2: Seq<u8>,
    n2: usize,
    data: Seq<u8>,
    pos: nat,
)
    requires
        v0.body == (BodyView::Reading { data, pos }),
        pos <= data.len(),
        read_outcome(v0, buf1, v1, out1, Ok(n1)),
        read_outcome(v1, buf2, v2, out2, Ok(n2)),
    ensures
        v2.body == (BodyView::Reading { data, pos: (pos + n1 + n2) as nat }),
        out1.take(n1 as int) + out2.take(n2 as int) == data.subrange(pos as int, (pos + n1 + n2) as int),
{
    assert(out1.take(n1 as int) =~= data.subrange(pos as int, (pos + n1) as int));
    assert(out2.take(n2 as int) =~= data.subrange((pos + n1) as int, (pos + n1 + n2) as int));
    assert(out1.take(n1 as int) + out2.take(n2 as int) =~= data.subrange(pos as int, (pos + n1 + n2) as int));
}

/// The first read starts the body at its beginning: it serves the first bytes
/// of the body taken from the host, and the request is handed over.
pub proof fn law_first_read_starts_at_beginning(
    v0: RequestView,
    buf: Seq<u8>,
    v1: RequestView,
    out: Seq<u8>,
    n: usize,
)
    requires
        v0.body is NotStarted,
        read_outcome(v0, buf, v1, out, Ok(n)),
    ensures
        v1.phase == RequestPhase::Used,
        v1.body matches BodyView::Reading { data, pos } && pos == n && out.take(n as int)
            == data.take(n as int),
{
    if let BodyView::Reading { data, pos } = v1.body {
        assert(out.take(n as int) =~= data.take(n as int));
    }
}

/// Once the whole body was served, every further read serves nothing and
/// leaves the buffer and the state as they were.
pub proof fn law_read_past_end_is_empty(
    v0: RequestView,
    buf: Seq<u8>,
    v1: RequestView,
    out: Seq<u8>,
    r: Result<usize, RuntimeError>,
    data: Seq<u8>,
)
    requires
        v0.body == (BodyView::Reading { data, pos: data.len() }),
        read_outcome(v0, buf, v1, out, r),
    ensures
        r == Ok::<usize, RuntimeError>(0),
        v1.body == v0.body,
        v1.data == v0.data,
        out == buf,
{
    assert(out =~= buf);
}

/// A read fills the whole buffer while the body has at least that many
/// bytes left.
pub proof fn law_read_fills_buffer(
    v0: RequestView,
    buf: Seq<u8>,
    v1: RequestView,
    out: Seq<u8>,
    n: usize,
    data: Seq<u8>,
    pos: nat,
)
    requires
        v0.body == (BodyView::Reading { data, pos }),
        pos + buf.len() <= data.len(),
        read_outcome(v0, buf, v1, out, Ok(n)),
    ensures
        n == buf.len(),
        out == data.subrange(pos as int, (pos + buf.len()) as int),
{
    assert(out =~= data.subrange(pos as int, (pos + buf.len()) as int));
}

/// A read serves as much of what is left of the body as the buffer holds:
/// it either fills the whole buffer or serves every byte left, so a buffer
/// at least as long as what is left gets all of it; the bytes served are the
/// next bytes of the body, at the front of the buffer, and the rest of the
/// buffer is untouched.
pub proof fn law_read_serves_what_fits(
    v0: RequestView,
    buf: Seq<u8>,
    v1: RequestView,
    out: Seq<u8>,
    n: usize,
    data: Seq<u8>,
    pos: nat,
)
    requires
        v0.body == (BodyView::Reading { data, pos }),
        pos <= data.len(),
        read_outcome(v0, buf, v1, out, Ok(n)),
    ensures
        n <= buf.len(),
        pos + n <= data.len(),
        n == buf.len() || pos + n == data.len(),
        buf.len() >= data.len() - pos ==> pos + n == data.len(),
        pos < data.len() && buf.len() > 0 ==> n > 0,
        out.len() == buf.len(),
        forall|j: int| 0 <= j < n ==> out[j] == data[pos + j],
        forall|j: int| n <= j < buf.len() ==> out[j] == buf[j],
{
    assert forall|j: int| 0 <= j < n implies out[j] == data[pos + j] by {
        assert(out[j] == data.subrange(pos as int, (pos + n) as int)[j]);
    }
    assert forall|j: int| n <= j < buf.len() implies out[j] == buf[j] by {
        assert(out[j] == buf.subrange(n as int, buf.len() as int)[j - n]);
    }
}

/// The first read of the body serves as much of it as the buffer holds,
/// from its first byte: the whole buffer, or the whole body when the buffer
/// is at least as long.
pub proof fn law_first_read_serves_what_fits(
    v0: RequestView,
    buf: Seq<u8>,
    v1: RequestView,
    out: Seq<u8>,
    n: usize,
)
    requires
        v0.body is NotStarted,
        read_outcome(v0, buf, v1, out, Ok(n)),
    ensures
        v1.body matches BodyView::Reading { data, pos } && pos == n && n <= buf.len() && n <= data.len()
            && (n == buf.len() || n == data.len())
            && (buf.len() >= data.len() ==> n == data.len())
            && (forall|j: int| 0 <= j < n ==> out[j] == data[j]),
{
    if let BodyView::Reading { data, pos } = v1.body {
        assert forall|j: int| 0 <= j < n implies out[j] == data[j] by {
            assert(out[j] == data.subrange(0, n as int)[j]);
        }
    }
}

/// The text of a header value is its bytes unchanged: each character is the
/// one whose code is the byte at the same place, and names are kept as they
/// are.
pub proof fn law_header_text_is_its_bytes(headers: Seq<(Seq<char>, Seq<u8>)>)
    requires
        headers_are_text(headers),
    ensures
        header_texts(headers).len() == headers.len(),
        forall|i: int| 0 <= i < headers.len() ==> (#[trigger] header_texts(headers)[i]).0 == headers[i].0
            && header_texts(headers)[i].1.len() == headers[i].1.len(),
        forall|i: int, j: int| 0 <= i < headers.len() && 0 <= j < headers[i].1.len()
            ==> (#[trigger] header_texts(headers)[i].1[j]) as u32 == headers[i].1[j] as u32,
{
    assert forall|i: int, j: int| 0 <= i < headers.len() && 0 <= j < headers[i].1.len()
        implies (#[trigger] header_texts(headers)[i].1[j]) as u32 == headers[i].1[j] as u32 by {
        let b = headers[i].1[j];
        assert(header_texts(headers)[i].1[j] == b as char);
        assert(is_visible_ascii(b));
        assert((b as char) as u32 == b as u32);
    }
}

} // verus!
