//! The response slot of the embedded runtime: a response built in memory,
//! which PHP output and headers go into until it is taken to be sent.

use vstd::prelude::*;
use fastly::Response as HostResponse;

use crate::host;
use crate::host::{header_added, response_body, response_headers};

verus! {

/// A slot that may hold the response being built.
pub struct Response {
    response: Option<HostResponse>,
}

impl Response {
    /// Whether the slot holds a response.
    pub closed spec fn holds(&self) -> bool {
        self.response is Some
    }

    /// The headers of the response held: for each name, in lower case, its
    /// values in the order they were added; none when the slot is empty.
    pub closed spec fn headers(&self) -> Map<Seq<char>, Seq<Seq<char>>> {
        match self.response {
            Some(r) => response_headers(r),
            None => Map::empty(),
        }
    }

    /// The bytes of the body of the response held; none when the slot is
    /// empty.
    pub closed spec fn written(&self) -> Seq<u8> {
        match self.response {
            Some(r) => response_body(r),
            None => Seq::empty(),
        }
    }

    /// Whether the slot holds a response.
    pub fn is_initialized(&self) -> (b: bool)
        ensures
            b == self.holds(),
    {
        self.response.is_some()
    }

    /// An empty slot.
    pub fn new() -> (r: Self)
        ensures
            !r.holds(),
    {
        Response { response: None }
    }

    /// Puts a new, empty response in the slot, dropping any earlier one.
    pub fn initialize(&mut self)
        ensures
            final(self).holds(),
            final(self).headers() == host::no_headers(),
            final(self).written() =~= Seq::empty(),
    {
        self.response = Some(host::response_new());
    }

    /// Takes the response out of the slot, with the headers and body written
    /// to it. The slot must hold one.
    pub fn get(&mut self) -> (r: HostResponse)
        requires
            old(self).holds(),
        ensures
            !final(self).holds(),
            response_headers(r) == old(self).headers(),
            response_body(r) == old(self).written(),
    {
        match self.response.take() {
            Some(r) => r,
            None => {
                assert(false);
                host::response_new()
            },
        }
    }

    /// Appends the UTF-8 bytes of `text` to the body of the response held.
    /// The slot must hold one.
    pub fn write(&mut self, text: &str)
        requires
            old(self).holds(),
        ensures
            final(self).holds(),
            final(self).written() == old(self).written() + vstd::utf8::encode_utf8(text@),
            final(self).headers() == old(self).headers(),
    {
        match &mut self.response {
            Some(r) => host::response_write_all_str(r, text),
            None => assert(false),
        }
    }

    /// Adds the header `name: value` to the response held, keeping earlier
    /// values of that name. The slot must hold a response, and the name and
    /// value must be ones that the header types accept.
    pub fn send_header(&mut self, name: &str, value: &str)
        requires
            old(self).holds(),
            host::valid_header_name(name@),
            host::valid_header_value(value@),
        ensures
            final(self).holds(),
            final(self).headers() == header_added(old(self).headers(), name@, value@),
            final(self).written() == old(self).written(),
    {
        match &mut self.response {
            Some(r) => host::response_append_header(r, name, value),
            None => assert(false),
        }
    }
}

} // verus!
