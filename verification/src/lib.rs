//! Dispatcher for a serverless function that answers every trigger with a
//! blank response.
//!
//! An incoming event is an arbitrary JSON value. The dispatcher classifies it
//! by structure alone ([`event`]), answers HTTP-style events with an empty
//! body in the representation the client asked for ([`negotiate`],
//! [`http`]), and answers provisioning lifecycle events with a fixed failure
//! report that the caller must deliver ([`lifecycle`]). Anything else is
//! answered with an empty result ([`dispatch`]).
pub mod dispatch;
pub mod event;
pub mod http;
pub mod json;
pub mod lifecycle;
pub mod negotiate;
