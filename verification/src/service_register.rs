//! Parameters for keeping a service registered in an outside registry.

use vstd::prelude::*;

verus! {

/// What a registration keep-alive loop publishes: the service URL, the
/// routing tags, and the lease in seconds.
#[derive(Debug, Clone)]
pub struct ServiceRegisterConfig {
    pub url: String,
    pub tags: Vec<String>,
    pub ttl: i64,
}

impl Default for ServiceRegisterConfig {
    /// No URL, no tags, a 60 second lease.
    fn default() -> (c: Self)
        ensures
            c.url@.len() == 0,
            c.tags@.len() == 0,
            c.ttl == 60,
    {
        ServiceRegisterConfig { url: String::new(), tags: Vec::new(), ttl: 60 }
    }
}

} // verus!
