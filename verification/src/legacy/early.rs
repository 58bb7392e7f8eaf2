//! The first request and response handles of the runtime.

use vstd::prelude::*;
use fastly::handle::RequestHandle as HostRequestHandle;
use fastly::handle::ResponseHandle as HostResponseHandle;
use fastly::handle::StreamingBodyHandle;

use crate::host;
use crate::host::{handle_headers, header_added, sent_headers, stream_contents};
use crate::legacy::{flush_outcome, takes_header, takes_output, LegacyPhase, LegacyResponseView};

verus! {

enum RequestState {
    Uninitialized,
    Request(Option<HostRequestHandle>),
}

/// The client request, held once it was fetched from the host.
pub struct RequestHandle {
    state: RequestState,
}

impl RequestHandle {
    /// Whether the request was fetched.
    pub closed spec fn initialized(&self) -> bool {
        self.state is Request
    }

    /// A handle with nothing fetched.
    pub fn new() -> (h: Self)
        ensures
            !h.initialized(),
    {
        RequestHandle { state: RequestState::Uninitialized }
    }

    /// Takes the handle of the client request, fetched from the host. The
    /// handle must not hold one yet: the host hands the request out once.
    fn initialize_request(&mut self, request: HostRequestHandle)
        requires
            !old(self).initialized(),
        ensures
            final(self).initialized(),
    {
        self.state = RequestState::Request(Some(request));
    }

    /// Takes the handle of the client request from `fetch` unless it holds
    /// one already; `fetch` is called only in the first case.
    fn initialized_request(&mut self, fetch: impl FnOnce() -> HostRequestHandle)
        requires
            !old(self).initialized() ==> call_requires(fetch, ()),
        ensures
            final(self).initialized(),
            old(self).initialized() ==> final(self).state == old(self).state,
    {
        match &self.state {
            RequestState::Uninitialized => {
                let request = fetch();
                self.initialize_request(request);
            },
            _ => {},
        }
    }
}

enum ResponseState {
    Uninitialized,
    Response(Option<HostResponseHandle>),
    StreamingBodyResponse(Option<StreamingBodyHandle>),
    Finished,
}

/// The response to the client.
pub struct ResponseHandle {
    state: ResponseState,
    /// The headers of the host response or of the sent response when the
    /// host handle or the stream was let go.
    headers: Ghost<Map<Seq<char>, Seq<Seq<char>>>>,
    /// The bytes of the stream when it was let go.
    written: Ghost<Seq<u8>>,
}

spec fn phase_of(s: ResponseState) -> LegacyPhase {
    match s {
        ResponseState::Uninitialized => LegacyPhase::Uninitialized,
        ResponseState::Response(r) => LegacyPhase::Response { held: r is Some },
        ResponseState::StreamingBodyResponse(b) => LegacyPhase::Streaming { held: b is Some },
        ResponseState::Finished => LegacyPhase::Finished,
    }
}

impl View for ResponseHandle {
    type V = LegacyResponseView;

    closed spec fn view(&self) -> LegacyResponseView {
        LegacyResponseView {
            phase: phase_of(self.state),
            headers: match self.state {
                ResponseState::Uninitialized => Map::empty(),
                ResponseState::Response(Some(h)) => handle_headers(h),
                ResponseState::StreamingBodyResponse(Some(s)) => sent_headers(s),
                _ => self.headers@,
            },
            written: match self.state {
                ResponseState::StreamingBodyResponse(Some(s)) => stream_contents(s),
                ResponseState::Uninitialized => Seq::empty(),
                ResponseState::Response(_) => Seq::empty(),
                _ => self.written@,
            },
        }
    }
}

impl ResponseHandle {
    /// A response with nothing sent.
    pub fn new() -> (h: Self)
        ensures
            h@.phase == LegacyPhase::Uninitialized,
            h@.headers == host::no_headers(),
            h@.written =~= Seq::empty(),
    {
        ResponseHandle { state: ResponseState::Uninitialized, headers: Ghost(Map::empty()), written: Ghost(Seq::empty()) }
    }

    /// Creates the host's response.
    fn initialize_response(&mut self)
        requires
            old(self)@.phase == LegacyPhase::Uninitialized,
        ensures
            final(self)@.phase == (LegacyPhase::Response { held: true }),
            final(self)@.headers == old(self)@.headers,
            final(self)@.written == old(self)@.written,
    {
        self.state = ResponseState::Response(Some(host::response_handle_new()));
    }

    /// Creates the host's response unless it exists.
    fn initialized_response(&mut self)
        ensures
            old(self)@.phase == LegacyPhase::Uninitialized ==> final(self)@.phase == (LegacyPhase::Response { held: true }),
            old(self)@.phase != LegacyPhase::Uninitialized ==> final(self)@ == old(self)@,
            final(self)@.headers == old(self)@.headers,
            final(self)@.written == old(self)@.written,
    {
        match &self.state {
            ResponseState::Uninitialized => self.initialize_response(),
            _ => {},
        }
    }

    /// Adds the header `name: value` to the host's response, keeping earlier
    /// values of that name. The response must not be streaming or finished,
    /// and the name and value must be ones that the header types accept.
    pub fn send_header(&mut self, name: String, value: String) -> (r: Result<&mut Self, ()>)
        requires
            takes_header(old(self)@.phase),
            host::valid_header_name(name@),
            host::valid_header_value(value@),
        ensures
            r matches Ok(h) && h@.phase == (LegacyPhase::Response { held: true })
                && h@.headers == header_added(old(self)@.headers, name@, value@)
                && h@.written == old(self)@.written
                && *final(self) == *final(h),
    {
        self.initialized_response();
        match &mut self.state {
            ResponseState::Response(res) => match res.take() {
                Some(mut handle) => {
                    host::append_response_header(&mut handle, name.as_str(), value.as_str());
                    *res = Some(handle);
                },
                None => assert(false),
            },
            _ => assert(false),
        }
        Ok(self)
    }

    /// Writes `content` to the body: the first output sends the response
    /// with it and turns the body into a stream; later output is appended.
    pub fn stream_response(&mut self, content: String) -> (r: Result<&mut Self, ()>)
        requires
            takes_output(old(self)@.phase),
        ensures
            r matches Ok(h) && h@.phase == (LegacyPhase::Streaming { held: true })
                && h@.headers == old(self)@.headers
                && h@.written == old(self)@.written + vstd::utf8::encode_utf8(content@)
                && *final(self) == *final(h),
    {
        self.initialized_response();
        let mut state = ResponseState::Finished;
        std::mem::swap(&mut self.state, &mut state);
        match state {
            ResponseState::Response(Some(res)) => {
                let mut body = host::body_handle_new();
                host::body_write_all_str(&mut body, content.as_str());
                assert(host::body_contents(body) =~= vstd::utf8::encode_utf8(content@));
                self.state = ResponseState::StreamingBodyResponse(Some(host::stream_to_client(res, body)));
            },
            ResponseState::StreamingBodyResponse(Some(mut streaming_body)) => {
                host::streaming_write_all_str(&mut streaming_body, content.as_str());
                self.state = ResponseState::StreamingBodyResponse(Some(streaming_body));
            },
            _ => assert(false),
        }
        Ok(self)
    }

    /// Flushes the stream and lets go of it; nothing can be written after.
    /// The body must be streaming.
    pub fn flush(&mut self)
        requires
            old(self)@.phase == (LegacyPhase::Streaming { held: true }),
        ensures
            flush_outcome(old(self)@, final(self)@),
    {
        match &mut self.state {
            ResponseState::StreamingBodyResponse(streaming_body) => match streaming_body.take() {
                Some(mut body) => {
                    let flushed = host::streaming_flush(&mut body);
                    self.written = Ghost(stream_contents(body));
                    self.headers = Ghost(sent_headers(body));
                },
                None => assert(false),
            },
            _ => assert(false),
        }
    }
}

} // verus!
