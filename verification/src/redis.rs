//! The Redis handle and its configuration. Connecting is I/O and happens
//! outside the library; the handle itself only hands out clones of the
//! client and of the multiplexed connection.

use vstd::prelude::*;

verus! {

/// Names the outside type redis::Client so it can stand in fields.
#[verifier::external_type_specification]
#[verifier::external_body]
pub struct ExRedisClient(redis::Client);

/// Names the outside type redis::aio::MultiplexedConnection.
#[verifier::external_type_specification]
#[verifier::external_body]
pub struct ExRedisConnection(redis::aio::MultiplexedConnection);

/// A connected Redis handle: the client and one multiplexed connection.
pub struct Redis {
    client: redis::Client,
    connection: redis::aio::MultiplexedConnection,
}

/// How to reach Redis.
#[derive(Debug, Clone)]
pub struct RedisConfig {
    pub endpoints: Vec<String>,
}

impl Default for RedisConfig {
    /// One local endpoint.
    fn default() -> (c: Self)
        ensures
            c.endpoints@.len() == 1,
            c.endpoints@[0]@ == "redis://127.0.0.1/"@,
    {
        let mut endpoints: Vec<String> = Vec::new();
        endpoints.push(String::from_str("redis://127.0.0.1/"));
        RedisConfig { endpoints }
    }
}

/// Relies on the derived Clone of redis::Client: the clone is a functionally
/// identical handle, stated as equality of the opaque values.
#[verifier::external_body]
fn clone_client(client: &redis::Client) -> (r: redis::Client)
    ensures
        r == *client,
{
    client.clone()
}

/// Relies on the derived Clone of redis::aio::MultiplexedConnection: the
/// clone drives the same multiplexed channel, stated as equality of the
/// opaque values.
#[verifier::external_body]
fn clone_connection(connection: &redis::aio::MultiplexedConnection) -> (r: redis::aio::MultiplexedConnection)
    ensures
        r == *connection,
{
    connection.clone()
}

impl Redis {
    /// The stored client.
    pub closed spec fn spec_client(self) -> redis::Client {
        self.client
    }

    /// The stored multiplexed connection.
    pub closed spec fn spec_connection(self) -> redis::aio::MultiplexedConnection {
        self.connection
    }

    /// Wraps an already-connected client and connection.
    pub fn from_parts(client: redis::Client, connection: redis::aio::MultiplexedConnection) -> (r: Redis)
        ensures
            r.spec_client() == client,
            r.spec_connection() == connection,
    {
        Redis { client, connection }
    }

    /// A clone of the underlying client.
    pub fn client(&self) -> (r: redis::Client)
        ensures
            r == self.spec_client(),
    {
        clone_client(&self.client)
    }

    /// A clone of the multiplexed connection.
    pub fn conn(&self) -> (r: redis::aio::MultiplexedConnection)
        ensures
            r == self.spec_connection(),
    {
        clone_connection(&self.connection)
    }

    /// Replaces the connection, for a caller that reconnected.
    pub fn set_connection(&mut self, connection: redis::aio::MultiplexedConnection)
        ensures
            final(self).spec_connection() == connection,
            final(self).spec_client() == old(self).spec_client(),
    {
        self.connection = connection;
    }
}

} // verus!
