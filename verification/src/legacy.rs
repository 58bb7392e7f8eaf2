//! The earlier request and response handles of the runtime, which panic
//! where the current ones report errors, and the response slot of the
//! embedded runtime.

use vstd::prelude::*;

pub mod early;
pub mod embedded;
pub mod slot;

verus! {

/// Where an earlier response handle stands; `held` tells whether the host
/// handle is still there to be used.
#[derive(Clone, Copy, Debug, PartialEq, Eq, Structural)]
pub enum LegacyPhase {
    Uninitialized,
    Response { held: bool },
    Streaming { held: bool },
    Finished,
}

/// The state of an earlier response handle and what the host holds of it.
pub struct LegacyResponseView {
    pub phase: LegacyPhase,
    /// The headers of the host's response: those it holds while it is held,
    /// those it had when it was let go or sent.
    pub headers: Map<Seq<char>, Seq<Seq<char>>>,
    /// The bytes of the body streamed to the client: those written so far
    /// while the stream is held, those it had when it was let go.
    pub written: Seq<u8>,
}

/// A header can be added: the response is not yet created, or created and
/// still held.
pub open spec fn takes_header(phase: LegacyPhase) -> bool {
    phase == LegacyPhase::Uninitialized || phase == (LegacyPhase::Response { held: true })
}

/// Output can be written: the response or the stream is still held.
pub open spec fn takes_output(phase: LegacyPhase) -> bool {
    match phase {
        LegacyPhase::Uninitialized => true,
        LegacyPhase::Response { held } => held,
        LegacyPhase::Streaming { held } => held,
        LegacyPhase::Finished => false,
    }
}

/// What a flush does to an earlier response handle: the stream is flushed
/// and let go, with what it had written; nothing else changes.
pub open spec fn flush_outcome(pre: LegacyResponseView, post: LegacyResponseView) -> bool {
    &&& post.phase == (LegacyPhase::Streaming { held: false })
    &&& post.headers == pre.headers
    &&& post.written == pre.written
}

/// Once an earlier response handle has flushed its stream, it takes no more
/// output and no more headers, and what reached the client stays as it was.
pub proof fn law_flush_ends_response(v0: LegacyResponseView, v1: LegacyResponseView)
    requires
        flush_outcome(v0, v1),
    ensures
        !takes_output(v1.phase),
        !takes_header(v1.phase),
        v1.written == v0.written,
{
}

} // verus!
