//! The verifiable surface of the fetch client: the endpoint the request is
//! aimed at, and the ways a fetch can fail. The HTTP round trip itself is
//! I/O and lives with the caller that drives the run; it hands the decoded
//! records — or the `FetchError` — to the pipeline.

use vstd::prelude::*;
use vstd::string::StringExecFns;

verus! {

/// Why one run fetched nothing. Either way the run persists nothing:
/// partial or corrupt raw data must not become partial normalized output.
#[derive(Debug, Clone, Copy, PartialEq, Eq, Structural)]
pub enum FetchError {
    /// The HTTP round trip failed: connection error, timeout or TLS failure.
    Transport,
    /// The response arrived but its body was not a decodable record array.
    Decode,
}

/// The fixed production-minute endpoint, templated with the site identity.
pub fn endpoint_url(prospect_id: &str) -> (r: String)
    ensures
        r@ == "https://gateway.sunrun.com/performance-api/v1/site-production-minute/"@
            + prospect_id@,
{
    let mut url = String::from_str(
        "https://gateway.sunrun.com/performance-api/v1/site-production-minute/",
    );
    url.append(prospect_id);
    url
}

} // verus!
