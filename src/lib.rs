//! Credential-holder protocol runtime: a message model, the holder state
//! machine, the message correlator, a handle registry, a versioned persistence
//! envelope and a handle-based API that ties them together.

pub mod correlator;
pub mod credential;
pub mod envelope;
pub mod error;
pub mod holder;
pub mod json;
pub mod message;
pub mod registry;
