//! Streaming text generation against an inference server, local or remote.
//!
//! The library holds every decision of a generation call and none of its
//! input or output:
//!
//! - [`endpoint`] picks the server to call and the one to fall back on;
//! - [`request`] assembles a request, with images encoded as base64;
//! - [`stream`] gathers the text and the counts of one streamed response;
//! - [`fallback`] drives a call as a state machine: the caller does what an
//!   action asks and reports back what came of it;
//! - [`metrics`] turns what a stream gathered into throughput figures and
//!   into the lines that show them;
//! - [`error`] names what can go wrong;
//! - [`laws`] states what holds of every call.
//!
//! [`config`], [`cli`] and [`images`] hold what a program around the library
//! decides from its settings, its arguments and its user's answers;
//! [`text`] and [`decimal`] are the helpers on text and numbers that the
//! rest is built on.

pub mod cli;
pub mod config;
pub mod decimal;
pub mod endpoint;
pub mod error;
pub mod fallback;
pub mod images;
pub mod laws;
pub mod metrics;
pub mod request;
pub mod stream;
pub mod text;
