//! Client-side protocol of a bot-detection verification service.
//!
//! A challenge token issued by a front-end widget is submitted to a remote
//! classification endpoint, which answers whether the token's originator is
//! a bot. This crate holds everything of that exchange but the network: it
//! writes the request, and reads the bytes that come back as a verdict or as
//! one of a closed set of typed failures. The transport is the caller's.
pub mod api;
pub mod errors;
pub mod json;
pub mod types;
pub mod wire;

pub use api::{conclude, interpret, ClassifyRequest, Exchange, Pulse};
pub use errors::{PulseError, TokenExpiredError, TokenNotFoundError, TokenUsedError};
pub use types::{APIClassifyPayload, APIClassifyResponse, APIErrorData};
