//! Parameters for keeping a service registered through an etcd lease.

use vstd::prelude::*;

verus! {

/// What the etcd keep-alive loop publishes: the routing tags and the lease
/// in seconds.
#[derive(Debug, Clone)]
pub struct ServiceRegisterConfig {
    pub tags: Vec<String>,
    pub ttl: i64,
}

impl Default for ServiceRegisterConfig {
    /// No tags, a 60 second lease.
    fn default() -> (c: Self)
        ensures
            c.tags@.len() == 0,
            c.ttl == 60,
    {
        ServiceRegisterConfig { tags: Vec::new(), ttl: 60 }
    }
}

} // verus!
