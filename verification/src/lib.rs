//! Request-orchestration core of a hardware security-key client.
//!
//! The library validates credential-registration and credential-signing
//! requests, builds the protocol commands for them, fans a signing request
//! out over every (application id, key handle) combination, models the
//! ordered action queue that carries work to the single session worker,
//! models that worker's dispatch/cancel state machine, enforces the
//! single-fire guarantee on completion callbacks, and encodes attestation
//! results into the legacy single-factor registration response format.
//!
//! Thread spawning, the real channel, and the session engine that talks to
//! devices live outside the library; they drive these verified components.

pub mod callback;
pub mod encoder;
pub mod errors;
pub mod manager;
pub mod queue;
pub mod requests;
pub mod worker;
