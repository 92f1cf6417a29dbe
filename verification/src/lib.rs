//! Core of an OData fetch client for Microsoft Dynamics 365.
//!
//! The crate holds the verified logic of the client: OAuth2 token caching
//! and token-request shaping, query-string building, classification of HTTP
//! responses into a bounded retry policy with exponential backoff, and
//! accumulation of paged results along server-supplied continuation links.
//! The HTTP transport itself is not here: callers perform each request and
//! hand the status, headers and body back to the state machines of this
//! crate.

pub mod auth;
pub mod client;
pub mod config;
pub mod query;
pub mod retry;
pub mod strutil;
pub mod trusted;

use vstd::prelude::*;

verus! {

/// The current UNIX time in whole seconds, rendered in decimal; a
/// lightweight timestamp for log lines.
pub fn chrono_lite() -> (r: String)
    ensures
        exists|n: u64| r@ == #[trigger] strutil::spec_dec_digits(n as int),
{
    let now = trusted::unix_now_secs();
    let r = strutil::u64_to_dec(now);
    proof {
        assert(r@ == strutil::spec_dec_digits(now as int));
    }
    r
}

} // verus!
