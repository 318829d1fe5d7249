//! Trace-context correlation and propagation for a book catalogue service.
//!
//! One logical operation stays one recoverable trace across HTTP requests, outbound calls,
//! queued messages and a separate error-reporting pipeline:
//!
//! - [`context`]: the trace identity and its W3C `traceparent` text form;
//! - [`carrier`]: the header bags that move it across a transport;
//! - [`propagation`]: injecting it into and extracting it from carriers;
//! - [`span`]: span lifecycle and the child-or-link policy;
//! - [`correlation`]: copying the active identity into the error-reporting scope;
//! - [`pipeline`]: the event-sink order, one-time installation and ordered shutdown;
//! - [`ingestion`]: the book-ingestion message channel;
//! - [`db`], [`types`], [`type_builder`], [`operations`], [`details`]: the catalogue's
//!   records and the client of its HTTP API;
//! - [`hex`]: the number text these formats use.
pub mod hex;
pub mod context;
pub mod carrier;
pub mod propagation;
pub mod span;
pub mod correlation;
pub mod pipeline;
pub mod db;
pub mod ingestion;
pub mod types;
pub mod type_builder;
pub mod operations;
pub mod details;
