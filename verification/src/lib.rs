//! Common service-layer building blocks: an SM2 signature and address
//! engine over plain byte buffers, together with the configuration types
//! of the surrounding services (registry clients, HTTP responses, Redis).
//!
//! The cryptographic module `sm` is the load-bearing part: it derives a
//! public key from a private scalar, derives a short address from a public
//! key, and produces and checks self-certifying 128-byte signature blobs
//! that embed the signer's public key.

pub mod consul;
pub mod error;
pub mod etcd;
pub mod redis;
pub mod restful;
pub mod service_register;
pub mod sm;
