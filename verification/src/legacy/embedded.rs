//! The request and response handles of the embedded runtime. Unlike the
//! first ones, these let go of the host handle after each header and each
//! later piece of output, so a second header, or a third piece of output,
//! finds nothing to use.

use vstd::prelude::*;
use fastly::handle::RequestHandle as HostRequestHandle;
use fastly::handle::ResponseHandle as HostResponseHandle;
use fastly::handle::StreamingBodyHandle;

use crate::host;
use crate::host::{handle_headers, header_added, sent_headers, stream_contents};
use crate::legacy::{takes_header, takes_output, LegacyPhase, LegacyResponseView};

verus! {

enum FastlyRequestState {
    Uninitialized,
    Request(Option<HostRequestHandle>),
}

/// The client request, held once it was fetched from the host.
pub struct FastlyRequestHandle {
    state: FastlyRequestState,
}

impl FastlyRequestHandle {
    /// Whether the request was fetched.
    pub closed spec fn initialized(&self) -> bool {
        self.state is Request
    }

    /// A handle with nothing fetched.
    pub fn new() -> (h: Self)
        ensures
            !h.initialized(),
    {
        FastlyRequestHandle { state: FastlyRequestState::Uninitialized }
    }

    /// Takes the handle of the client request, fetched from the host. The
    /// handle must not hold one yet: the host hands the request out once.
    fn initialize_request(&mut self, request: HostRequestHandle)
        requires
            !old(self).initialized(),
        ensures
            final(self).initialized(),
    {
        self.state = FastlyRequestState::Request(Some(request));
    }

    /// Takes the handle of the client request from `fetch` unless it holds
    /// one already; `fetch` is called only in the first case.
    fn initialized_request(&mut self, fetch: impl FnOnce() -> HostRequestHandle)
        requires
            !old(self).initialized() ==> call_requires(fetch, ()),
        ensures
            final(self).initialized(),
            old(self).initialized() ==> final(self).state == old(self).state,
    {
        match &self.state {
            FastlyRequestState::Uninitialized => {
                let request = fetch();
                self.initialize_request(request);
            },
            _ => {},
        }
    }
}

enum FastlyResponseState {
    Uninitialized,
    Response(Option<HostResponseHandle>),
    StreamingBodyResponse(Option<StreamingBodyHandle>),
    Finished,
}

/// The response to the client.
pub struct FastlyResponseHandle {
    state: FastlyResponseState,
    /// The headers of the host response or of the sent response when the
    /// host handle or the stream was let go.
    headers: Ghost<Map<Seq<char>, Seq<Seq<char>>>>,
    /// The bytes of the stream when it was let go.
    written: Ghost<Seq<u8>>,
}

spec fn phase_of(s: FastlyResponseState) -> LegacyPhase {
    match s {
        FastlyResponseState::Uninitialized => LegacyPhase::Uninitialized,
        FastlyResponseState::Response(r) => LegacyPhase::Response { held: r is Some },
        FastlyResponseState::StreamingBodyResponse(b) => LegacyPhase::Streaming { held: b is Some },
        FastlyResponseState::Finished => LegacyPhase::Finished,
    }
}

impl View for FastlyResponseHandle {
    type V = LegacyResponseView;

    closed spec fn view(&self) -> LegacyResponseView {
        LegacyResponseView {
            phase: phase_of(self.state),
            headers: match self.state {
                FastlyResponseState::Uninitialized => Map::empty(),
                FastlyResponseState::Response(Some(h)) => handle_headers(h),
                FastlyResponseState::StreamingBodyResponse(Some(s)) => sent_headers(s),
                _ => self.headers@,
            },
            written: match self.state {
                FastlyResponseState::StreamingBodyResponse(Some(s)) => stream_contents(s),
                FastlyResponseState::Uninitialized => Seq::empty(),
                FastlyResponseState::Response(_) => Seq::empty(),
                _ => self.written@,
            },
        }
    }
}

impl FastlyResponseHandle {
    /// A response with nothing sent.
    pub fn new() -> (h: Self)
        ensures
            h@.phase == LegacyPhase::Uninitialized,
            h@.headers == host::no_headers(),
            h@.written =~= Seq::empty(),
    {
        FastlyResponseHandle { state: FastlyResponseState::Uninitialized, headers: Ghost(Map::empty()), written: Ghost(Seq::empty()) }
    }

    /// Creates the host's response.
    fn initialize_response(&mut self)
        requires
            old(self)@.phase == LegacyPhase::Uninitialized,
        ensures
            final(self)@.phase == (LegacyPhase::Response { held: true }),
            final(self)@.headers == old(self)@.headers,
            final(self)@.written == old(self)@.written,
    {
        self.state = FastlyResponseState::Response(Some(host::response_handle_new()));
    }

    /// Adds the header `name: value` to the host's response, keeping earlier
    /// values of that name, then lets go of the host's response. The response
    /// must still be held, and the name and value must be ones that the
    /// header types accept.
    pub fn send_header(&mut self, name: String, value: String) -> (r: Result<&mut Self, ()>)
        requires
            takes_header(old(self)@.phase),
            host::valid_header_name(name@),
            host::valid_header_value(value@),
        ensures
            r matches Ok(h) && h@.phase == (LegacyPhase::Response { held: false })
                && h@.headers == header_added(old(self)@.headers, name@, value@)
                && h@.written == old(self)@.written
                && *final(self) == *final(h),
    {
        match &self.state {
            FastlyResponseState::Uninitialized => self.initialize_response(),
            _ => {},
        }
        match &mut self.state {
            FastlyResponseState::Response(res) => match res.take() {
                Some(mut handle) => {
                    host::append_response_header(&mut handle, name.as_str(), value.as_str());
                    self.headers = Ghost(handle_headers(handle));
                },
                None => assert(false),
            },
            _ => assert(false),
        }
        Ok(self)
    }

    /// Writes `content` to the body: the first output sends the response
    /// with it and turns the body into a stream; later output is appended,
    /// after which the stream is let go.
    pub fn stream_response(&mut self, content: String) -> (r: Result<&mut Self, ()>)
        requires
            takes_output(old(self)@.phase),
        ensures
            r matches Ok(h) && h@.phase == (if old(self)@.phase is Streaming {
                LegacyPhase::Streaming { held: false }
            } else {
                LegacyPhase::Streaming { held: true }
            }) && h@.headers == old(self)@.headers
                && h@.written == old(self)@.written + vstd::utf8::encode_utf8(content@)
                && *final(self) == *final(h),
    {
        match &self.state {
            FastlyResponseState::Uninitialized => self.initialize_response(),
            _ => {},
        }
        let mut state = FastlyResponseState::Finished;
        std::mem::swap(&mut self.state, &mut state);
        match state {
            FastlyResponseState::Response(Some(res)) => {
                let mut body = host::body_handle_new();
                host::body_write_all_str(&mut body, content.as_str());
                assert(host::body_contents(body) =~= vstd::utf8::encode_utf8(content@));
                self.state = FastlyResponseState::StreamingBodyResponse(Some(host::stream_to_client(res, body)));
            },
            FastlyResponseState::StreamingBodyResponse(Some(mut streaming_body)) => {
                host::streaming_write_all_str(&mut streaming_body, content.as_str());
                self.written = Ghost(stream_contents(streaming_body));
                self.headers = Ghost(sent_headers(streaming_body));
                self.state = FastlyResponseState::StreamingBodyResponse(None);
            },
            _ => assert(false),
        }
        Ok(self)
    }
}

} // verus!
