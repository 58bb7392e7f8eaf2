//! The stages of a response as types: a response starts `Initial`, takes
//! headers while `SendingHeaders`, streams its body while `StreamingBody`,
//! and ends `Finished`.

use vstd::prelude::*;

verus! {

/// A response in the stage `S`.
pub struct Response<S> {
    state: S,
}

/// Nothing sent yet.
pub struct Initial {}

/// Headers are being sent.
pub struct SendingHeaders {}

/// The body is streaming.
pub struct StreamingBody {}

/// The response is complete.
pub struct Finished {}

impl<S> Response<S> {
    /// The stage marker of this response.
    pub closed spec fn stage(&self) -> S {
        self.state
    }
}

impl Response<Initial> {
    /// A response at its start.
    pub fn new() -> (r: Self)
        ensures
            r.stage() == (Initial {}),
    {
        Response { state: Initial {} }
    }
}

} // verus!
