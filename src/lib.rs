use vstd::prelude::*;

pub mod connection;
pub mod query;

verus! {

/// How long a query on the stream resolver may take unless configured
/// otherwise, in milliseconds.
pub const TCP_DEFAULT_TIMEOUT_MS: u64 = 2000;

/// How long a lookup on the datagram resolver may take unless configured
/// otherwise, in milliseconds.
pub const UDP_DEFAULT_TIMEOUT_MS: u64 = 5000;

} // verus!
