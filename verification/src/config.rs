//! Where the run connects to.

use vstd::prelude::*;

verus! {

/// The venue's activity feed.
pub const WS_URL: &'static str = "wss://ws-live-data.polymarket.com";

/// The venue's trading service.
pub const CLOB_URL: &'static str = "https://clob.polymarket.com";

/// The chain endpoint that is used where none is configured.
pub const DEFAULT_RPC: &'static str = "https://polygon-rpc.com";

/// The watchlist file.
pub const TARGETS_PATH: &'static str = "target.csv";

/// The chain endpoint of the run: the configured one, or the default where
/// none is configured.
pub fn rpc_endpoint(configured: Option<String>) -> (url: String)
    ensures
        url@ == (match configured {
            Some(given) => given@,
            None => DEFAULT_RPC@,
        }),
{
    match configured {
        Some(given) => given,
        None => DEFAULT_RPC.to_owned(),
    }
}

} // verus!
