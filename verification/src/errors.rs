//! The closed set of error kinds reported by the request-orchestration core.

use vstd::prelude::*;

verus! {

/// Everything that can go wrong between the public request API and the
/// session engine.
///
/// The first three kinds are produced synchronously, before anything is
/// enqueued; an engine failure is only ever delivered asynchronously through
/// the completion callback.
#[derive(Clone, Copy, Debug, PartialEq, Eq, Structural)]
pub enum Error {
    /// A structural problem with the caller's arguments: a challenge or
    /// application identifier whose length is not the digest size, a key
    /// handle longer than 256 bytes, or an empty application-identifier list.
    InvalidInput,
    /// The application identifier could not be interpreted as an
    /// already-hashed relying-party identifier.
    ResolutionFailure,
    /// The worker has stopped and the action queue no longer accepts work.
    QueueClosed,
    /// An opaque failure surfaced by the session engine, passed through to
    /// the caller unchanged.
    EngineFailure,
}

} // verus!
