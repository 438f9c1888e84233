//! A multi-tenant workflow orchestration engine: administrators define
//! reusable multi-stage templates, operators launch runs from a template, and
//! each run's single task progresses through stage kinds subject to identity
//! checks, deadlines, retry limits, escalation, and closure.
//!
//! The library is the orchestration core alone, stated over plain values.
//! Durable storage, signature verification, and the clock are outside
//! collaborators: callers look records up, hand them in together with the
//! current timestamp, and store the mutated records back. Account addresses
//! and caller identities are opaque 64-bit tags compared only for equality.

pub mod errors;
pub mod laws;
pub mod ops;
pub mod state;
