//! A small module exported to a scripting host: a Fibonacci function and a
//! request bridge that builds an outbound request from the host's input bundle
//! and completes the host's reply by parsing its body as JSON.
use vstd::prelude::*;

pub mod fibonacci;
pub mod json;
pub mod bridge;

pub use fibonacci::{fib, FIB_MAX_ARG};
pub use bridge::{
    attach_parsed, build_request, complete_response, BridgeError, Bundle, HostReply, RawResponse,
    Request, Response, ENDPOINT, MESSAGE_KEY, METHOD,
};
