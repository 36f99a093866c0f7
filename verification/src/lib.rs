//! A webhook ingestion gateway: it receives HTTP callbacks from a
//! source-control notifier and a continuous-integration notifier,
//! authenticates and classifies each callback, and dispatches it to a
//! handler.  The dispatch pipeline — header authentication, signature
//! verification, payload decoding, event classification, routing, the
//! body-size cap and not-found normalization — is verified; the
//! surrounding socket handling and config-file reading live outside the
//! library.

pub mod strutil;
pub mod event;
pub mod http;
pub mod config;
pub mod form;
pub mod gateway;
pub mod hex;
pub mod sig;
pub mod json;
