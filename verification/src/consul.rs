//! Parameters for registering a service with a Consul agent.

use vstd::prelude::*;

verus! {

/// How a service presents itself to Consul: where the agent is, what the
/// service is called, where it answers, and how its health check runs. The
/// identity fields `service_id` and `service_address` are filled in from the
/// runtime environment before registration.
#[derive(Debug, Clone)]
pub struct ConsulConfig {
    pub consul_addr: String,
    pub tags: Vec<String>,
    pub service_name: String,
    pub service_id: String,
    pub service_address: String,
    pub service_port: u16,
    pub check_http_path: String,
    pub check_interval: String,
    pub check_timeout: String,
    pub check_deregister_critical_service_after: u64,
}

impl Default for ConsulConfig {
    /// An unnamed service on port 80 with the usual health check.
    fn default() -> (c: Self)
        ensures
            c.consul_addr@.len() == 0,
            c.tags@.len() == 0,
            c.service_name@.len() == 0,
            c.service_id@.len() == 0,
            c.service_address@.len() == 0,
            c.service_port == 80,
            c.check_http_path@ == "/health"@,
            c.check_interval@ == "10s"@,
            c.check_timeout@ == "3s"@,
            c.check_deregister_critical_service_after == 60,
    {
        ConsulConfig {
            consul_addr: String::new(),
            tags: Vec::new(),
            service_name: String::new(),
            service_id: String::new(),
            service_address: String::new(),
            service_port: 80,
            check_http_path: String::from_str("/health"),
            check_interval: String::from_str("10s"),
            check_timeout: String::from_str("3s"),
            check_deregister_critical_service_after: 60,
        }
    }
}

} // verus!
