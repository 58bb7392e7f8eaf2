//! The response that the PHP runtime sends to the client.
//!
//! Headers go to a response handle of the host, created on first use. The
//! first body output sends the head with that output and turns the body into
//! a stream; later output is appended to the stream. A flush closes the body
//! for good. The view of a handle is what the host holds: the headers of the
//! host's response and the bytes streamed to the client.

use vstd::prelude::*;
use fastly::handle::{BodyHandle, ResponseHandle as HostResponse, StreamingBodyHandle};

use crate::error::RuntimeError;
use crate::host;
use crate::host::{body_contents, handle_headers, header_key, header_set, sent_headers, stream_contents};

verus! {

/// Where the host's response handle stands.
#[derive(Clone, Copy, Debug, PartialEq, Eq, Structural)]
pub enum ResponsePhase {
    /// Not yet created.
    Uninitialized,
    /// Created and taking headers.
    Initialized,
    /// Sent off with the start of the body; it takes no more headers.
    Used,
}

/// Where the response body stands.
#[derive(Clone, Copy, Debug, PartialEq, Eq, Structural)]
pub enum BodyPhase {
    /// Nothing was output yet.
    NotStarted,
    /// The body streams to the client.
    Streaming,
    /// The body is closed.
    Finished,
}

/// The state of a response handle and what the host holds of it.
pub struct ResponseView {
    pub phase: ResponsePhase,
    pub body: BodyPhase,
    /// The headers of the host's response: none before it exists, those it
    /// holds while it takes headers, those it was sent with once sent.
    pub headers: Map<Seq<char>, Seq<Seq<char>>>,
    /// The bytes of the body streamed to the client so far.
    pub streamed: Seq<u8>,
}

/// The host's response, created on first use.
pub enum ResponseState {
    Uninitialized,
    Initialized(HostResponse),
    Used,
}

/// The response body: not started, streaming, or closed.
pub enum Body {
    Uninitialized,
    Streaming(StreamingBodyHandle),
    Finished,
}

/// The phase of a response state.
pub open spec fn response_phase(s: ResponseState) -> ResponsePhase {
    match s {
        ResponseState::Uninitialized => ResponsePhase::Uninitialized,
        ResponseState::Initialized(_) => ResponsePhase::Initialized,
        ResponseState::Used => ResponsePhase::Used,
    }
}

/// The phase of a response body.
pub open spec fn body_phase(b: Body) -> BodyPhase {
    match b {
        Body::Uninitialized => BodyPhase::NotStarted,
        Body::Streaming(_) => BodyPhase::Streaming,
        Body::Finished => BodyPhase::Finished,
    }
}

/// The headers of a response state: none before the host's response exists,
/// those of the host's response while it is held.
pub open spec fn state_headers(s: ResponseState) -> Map<Seq<char>, Seq<Seq<char>>> {
    match s {
        ResponseState::Initialized(h) => handle_headers(h),
        _ => Map::empty(),
    }
}

/// The bytes streamed so far by a response body.
pub open spec fn body_stream(b: Body) -> Seq<u8> {
    match b {
        Body::Streaming(s) => stream_contents(s),
        _ => Seq::empty(),
    }
}

/// The headers that the response sent with a streaming body carried; none
/// before the stream starts.
pub open spec fn body_sent_headers(b: Body) -> Map<Seq<char>, Seq<Seq<char>>> {
    match b {
        Body::Streaming(s) => sent_headers(s),
        _ => Map::empty(),
    }
}

/// What one header does to a response: the host's response exists
/// afterwards and holds `value` as the one value of `name`; nothing else
/// changes.
pub open spec fn header_outcome(pre: ResponseView, name: Seq<char>, value: Seq<char>, post: ResponseView) -> bool {
    &&& post.phase == ResponsePhase::Initialized
    &&& post.body == pre.body
    &&& post.headers == header_set(pre.headers, name, value)
    &&& post.streamed == pre.streamed
}

/// What one piece of body output does to a response.
pub open spec fn stream_outcome(pre: ResponseView, content: Seq<u8>, post: ResponseView, r: Result<(), RuntimeError>) -> bool {
    match pre.body {
        BodyPhase::Finished => {
            &&& r == Err::<(), RuntimeError>(RuntimeError::ResponseFinished)
            &&& post == pre
        },
        _ => {
            &&& r is Ok
            &&& post.phase == ResponsePhase::Used
            &&& post.body == BodyPhase::Streaming
            &&& post.headers == pre.headers
            &&& post.streamed == pre.streamed + content
        },
    }
}

/// What a flush does to a response: the body is closed, nothing else changes.
pub open spec fn flush_outcome(pre: ResponseView, post: ResponseView, r: Result<(), RuntimeError>) -> bool {
    &&& r is Ok
    &&& post.body == BodyPhase::Finished
    &&& post.phase == pre.phase
    &&& post.headers == pre.headers
    &&& post.streamed == pre.streamed
}

impl ResponseState {
    fn new() -> (s: Self)
        ensures
            s is Uninitialized,
    {
        ResponseState::Uninitialized
    }

    /// Creates the host's response if it was not created yet; refuses once
    /// the response was sent off.
    fn try_initialize(&mut self) -> (r: Result<(), RuntimeError>)
        ensures
            *old(self) is Used ==> r == Err::<(), RuntimeError>(RuntimeError::ResponseUsed)
                && *final(self) is Used,
            !(*old(self) is Used) ==> r is Ok && *final(self) is Initialized,
            *old(self) is Initialized ==> *final(self) == *old(self),
            state_headers(*final(self)) == state_headers(*old(self)),
    {
        match self {
            ResponseState::Uninitialized => {
                let res = host::response_handle_new();
                *self = ResponseState::Initialized(res);
                Ok(())
            },
            ResponseState::Initialized(_) => Ok(()),
            ResponseState::Used => Err(RuntimeError::ResponseUsed),
        }
    }

    /// Hands the host's response over, creating it first if need be; the
    /// state is `Used` afterwards.
    fn take(&mut self) -> (r: Result<HostResponse, RuntimeError>)
        ensures
            *final(self) is Used,
            *old(self) is Used <==> r is Err,
            r is Err ==> r == Err::<HostResponse, RuntimeError>(RuntimeError::ResponseTaken),
            r matches Ok(h) ==> handle_headers(h) == state_headers(*old(self)),
    {
        let mut previous = ResponseState::Used;
        std::mem::swap(self, &mut previous);
        match previous {
            ResponseState::Uninitialized => Ok(host::response_handle_new()),
            ResponseState::Initialized(res) => Ok(res),
            ResponseState::Used => Err(RuntimeError::ResponseTaken),
        }
    }
}

impl Body {
    fn new() -> (b: Self)
        ensures
            b is Uninitialized,
    {
        Body::Uninitialized
    }

    /// Sends `content` as body output: the first output takes the response
    /// from `res` and starts the stream with it; later output is appended.
    fn stream(&mut self, res: &mut ResponseState, content: &[u8]) -> (r: Result<(), RuntimeError>)
        requires
            *old(self) is Uninitialized ==> !(*old(res) is Used),
            *old(self) is Streaming ==> *old(res) is Used,
        ensures
            *old(self) is Finished ==> r == Err::<(), RuntimeError>(RuntimeError::ResponseFinished)
                && *final(self) is Finished && *final(res) == *old(res),
            !(*old(self) is Finished) ==> r is Ok && *final(self) is Streaming && *final(res) is Used,
            !(*old(self) is Finished) ==> body_stream(*final(self)) == body_stream(*old(self)) + content@,
            *old(self) is Uninitialized ==> body_sent_headers(*final(self)) == state_headers(*old(res)),
            *old(self) is Streaming ==> body_sent_headers(*final(self)) == body_sent_headers(*old(self)),
    {
        match self {
            Body::Finished => Err(RuntimeError::ResponseFinished),
            Body::Uninitialized => {
                let response = match res.take() {
                    Ok(response) => response,
                    Err(e) => {
                        assert(false);
                        return Err(e);
                    },
                };
                let mut body: BodyHandle = host::body_handle_new();
                host::body_write_all(&mut body, content);
                assert(body_contents(body) =~= content@);
                *self = Body::Streaming(host::stream_to_client(response, body));
                Ok(())
            },
            Body::Streaming(body) => {
                host::streaming_write_all(body, content);
                Ok(())
            },
        }
    }

    /// Closes the body, flushing the stream if one was started.
    fn flush(&mut self) -> (r: Result<(), RuntimeError>)
        ensures
            r is Ok,
            *final(self) is Finished,
    {
        let mut previous = Body::Finished;
        std::mem::swap(self, &mut previous);
        match previous {
            Body::Uninitialized => Ok(()),
            Body::Finished => Ok(()),
            Body::Streaming(mut body) => match host::streaming_flush(&mut body) {
                Ok(()) => Ok(()),
                Err(_) => {
                    assert(false);
                    Ok(())
                },
            },
        }
    }
}

/// The response to the client.
pub struct ResponseHandle {
    response: ResponseState,
    body: Body,
    /// The headers that the sent response carried, as the stream told them
    /// when it was closed.
    closed_headers: Ghost<Map<Seq<char>, Seq<Seq<char>>>>,
    /// The bytes that the body had streamed when it was closed.
    closed_bytes: Ghost<Seq<u8>>,
}

impl View for ResponseHandle {
    type V = ResponseView;

    closed spec fn view(&self) -> ResponseView {
        ResponseView {
            phase: response_phase(self.response),
            body: body_phase(self.body),
            headers: match self.response {
                ResponseState::Used => match self.body {
                    Body::Streaming(s) => sent_headers(s),
                    _ => self.closed_headers@,
                },
                _ => state_headers(self.response),
            },
            streamed: match self.body {
                Body::Finished => self.closed_bytes@,
                _ => body_stream(self.body),
            },
        }
    }
}

impl ResponseHandle {
    /// The host's response is sent off exactly when the stream starts.
    #[verifier::type_invariant]
    closed spec fn well_formed(self) -> bool {
        match self.body {
            Body::Uninitialized => !(self.response is Used),
            Body::Streaming(_) => self.response is Used,
            Body::Finished => true,
        }
    }

    /// A response with nothing sent yet.
    pub fn new() -> (h: Self)
        ensures
            h@.phase == ResponsePhase::Uninitialized,
            h@.body == BodyPhase::NotStarted,
            h@.headers == host::no_headers(),
            h@.streamed =~= Seq::empty(),
    {
        ResponseHandle {
            response: ResponseState::new(),
            body: Body::new(),
            closed_headers: Ghost(Map::empty()),
            closed_bytes: Ghost(Seq::empty()),
        }
    }

    /// Where the host's response stands.
    pub fn phase(&self) -> (p: ResponsePhase)
        ensures
            p == self@.phase,
    {
        match &self.response {
            ResponseState::Uninitialized => ResponsePhase::Uninitialized,
            ResponseState::Initialized(_) => ResponsePhase::Initialized,
            ResponseState::Used => ResponsePhase::Used,
        }
    }

    /// Where the response body stands.
    pub fn body_phase(&self) -> (p: BodyPhase)
        ensures
            p == self@.body,
    {
        match &self.body {
            Body::Uninitialized => BodyPhase::NotStarted,
            Body::Streaming(_) => BodyPhase::Streaming,
            Body::Finished => BodyPhase::Finished,
        }
    }

    /// Sets the header `name` to `value` on the host's response, replacing
    /// earlier values of that name. The response must not have been sent off
    /// yet, and the name and value must be ones that the HTTP header types
    /// accept.
    pub fn send_header(&mut self, name: String, value: String) -> (r: Result<(), RuntimeError>)
        requires
            old(self)@.phase != ResponsePhase::Used,
            host::valid_header_name(name@),
            host::valid_header_value(value@),
        ensures
            r is Ok,
            header_outcome(old(self)@, name@, value@, final(self)@),
    {
        proof { use_type_invariant(&*self); }
        let mut response = ResponseState::Uninitialized;
        std::mem::swap(&mut self.response, &mut response);
        let initialized = response.try_initialize();
        match &mut response {
            ResponseState::Initialized(res) => {
                host::insert_response_header(res, name.as_str(), value.as_str());
            },
            _ => assert(false),
        }
        self.response = response;
        Ok(())
    }

    /// Sends `content` as body output; refused once the body is closed.
    pub fn stream_response(&mut self, content: &[u8]) -> (r: Result<(), RuntimeError>)
        ensures
            stream_outcome(old(self)@, content@, final(self)@, r),
    {
        proof { use_type_invariant(&*self); }
        let mut body = Body::Finished;
        std::mem::swap(&mut self.body, &mut body);
        let mut response = ResponseState::Uninitialized;
        std::mem::swap(&mut self.response, &mut response);
        let r = body.stream(&mut response, content);
        self.response = response;
        self.body = body;
        r
    }

    /// Closes the response body.
    pub fn flush(&mut self) -> (r: Result<(), RuntimeError>)
        ensures
            flush_outcome(old(self)@, final(self)@, r),
    {
        proof { use_type_invariant(&*self); }
        self.body_flush()
    }

    fn body_flush(&mut self) -> (r: Result<(), RuntimeError>)
        ensures
            flush_outcome(old(self)@, final(self)@, r),
    {
        let ghost streamed_before = self@.streamed;
        let ghost headers_before = self@.headers;
        let mut body = Body::Finished;
        std::mem::swap(&mut self.body, &mut body);
        let r = body.flush();
        self.closed_bytes = Ghost(streamed_before);
        self.closed_headers = Ghost(headers_before);
        r
    }
}

/// Body output reaches the host in the order it was given: after two pieces
/// of output, the bytes handed over are the earlier ones, then the first
/// piece, then the second.
pub proof fn law_output_in_order(
    v0: ResponseView,
    a: Seq<u8>,
    v1: ResponseView,
    b: Seq<u8>,
    v2: ResponseView,
)
    requires
        stream_outcome(v0, a, v1, Ok(())),
        stream_outcome(v1, b, v2, Ok(())),
    ensures
        v2.streamed == v0.streamed + a + b,
        v2.body == BodyPhase::Streaming,
        v2.headers == v0.headers,
{
}

/// Once the body is closed, output is refused and changes nothing.
pub proof fn law_no_output_after_flush(
    v0: ResponseView,
    v1: ResponseView,
    content: Seq<u8>,
    v2: ResponseView,
    r: Result<(), RuntimeError>,
)
    requires
        flush_outcome(v0, v1, Ok(())),
        stream_outcome(v1, content, v2, r),
    ensures
        r == Err::<(), RuntimeError>(RuntimeError::ResponseFinished),
        v2 == v1,
{
}

/// A second flush changes nothing and still succeeds.
pub proof fn law_flush_idempotent(
    v0: ResponseView,
    v1: ResponseView,
    v2: ResponseView,
    r: Result<(), RuntimeError>,
)
    requires
        flush_outcome(v0, v1, Ok(())),
        flush_outcome(v1, v2, r),
    ensures
        r is Ok,
        v2 == v1,
{
}

/// Setting a header twice leaves only the later value of that name on the
/// host's response; the headers of other names stay as they were.
pub proof fn law_later_header_replaces(
    v0: ResponseView,
    name: Seq<char>,
    x1: Seq<char>,
    v1: ResponseView,
    x2: Seq<char>,
    v2: ResponseView,
)
    requires
        header_outcome(v0, name, x1, v1),
        header_outcome(v1, name, x2, v2),
    ensures
        v2.headers == header_set(v0.headers, name, x2),
        v2.headers[header_key(name)] == seq![x2],
        forall|k: Seq<char>| k != header_key(name) ==> (v2.headers.contains_key(k) <==> v0.headers.contains_key(k))
            && (v0.headers.contains_key(k) ==> v2.headers[k] == v0.headers[k]),
        v2.streamed == v0.streamed,
        v2.body == v0.body,
{
    assert(v2.headers =~= header_set(v0.headers, name, x2));
}

/// The first output sends the response off with the headers set so far,
/// and the output is the start of the body: no header can be set after it.
pub proof fn law_output_ends_headers(
    v0: ResponseView,
    content: Seq<u8>,
    v1: ResponseView,
)
    requires
        v0.body == BodyPhase::NotStarted,
        v0.streamed == Seq::<u8>::empty(),
        stream_outcome(v0, content, v1, Ok(())),
    ensures
        v1.phase == ResponsePhase::Used,
        v1.headers == v0.headers,
        v1.streamed == content,
{
    assert(v1.streamed =~= content);
}

} // verus!
