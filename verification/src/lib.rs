//! A uniform handle over single-node and cluster-mode deployments of a
//! Redis-compatible key-value store.
//!
//! The layer lets an application issue commands without branching on the
//! topology: configuration, client factory and connection handle each come
//! in a `Single` and a `Cluster` form, chosen together at construction and
//! never mixed afterwards. The wire protocol, command serialization, slot
//! routing and redirect handling are delegated to the `redis` crate, which
//! this crate reaches only through a small set of trusted wrappers.

use vstd::prelude::*;

mod command;
mod config;
mod connection;
mod error;
mod ext;
mod reply;

pub use crate::command::Command;
pub use crate::config::RedisClient;
pub use crate::config::RedisConfig;
pub use crate::config::client_matches_config;
pub use crate::config::cluster_nodes_ok;
pub use crate::config::config_ok;
pub use crate::config::single_url_ok;
pub use crate::connection::RedisConnection;
pub use crate::connection::reply_confirms_liveness;
pub use crate::connection::spec_is_pong;
pub use crate::error::GlueError;
pub use crate::reply::Reply;
pub use crate::reply::spec_decode_bytes;
pub use crate::reply::spec_decode_int;
pub use crate::reply::spec_decode_string;
pub use crate::reply::utf8_decode;

verus! {

/// Whether a client and a connection have the same shape: single with
/// single, cluster with cluster. The two are set together at construction
/// and never independently reassigned across shapes.
pub open spec fn client_connection_agree(client: RedisClient, connection: RedisConnection) -> bool {
    match (client, connection) {
        (RedisClient::Single { .. }, RedisConnection::Single(_)) => true,
        (RedisClient::Cluster { .. }, RedisConnection::Cluster(_)) => true,
        _ => false,
    }
}

/// The facade: one retained client (so a fresh connection can be opened
/// later) and one shared connection, handed out to callers as handles.
/// Constructed once per application; callers reach the store through the
/// handles it mints.
pub struct Redis {
    _client: RedisClient,
    connection: RedisConnection,
}

impl Redis {
    /// The facade's invariant: the retained client and the shared
    /// connection agree on the topology.
    pub closed spec fn wf(&self) -> bool {
        client_connection_agree(self._client, self.connection)
    }

    /// Whether the facade's retained client is the one the configuration
    /// calls for: the same topology, opened on exactly the
    /// configuration's address(es).
    pub closed spec fn matches_config(&self, config: RedisConfig) -> bool {
        client_matches_config(self._client, config)
    }

    /// The connection every handle minted from this facade shares.
    pub closed spec fn spec_connection(&self) -> RedisConnection {
        self.connection
    }

    /// The client the facade retains for opening fresh connections.
    pub closed spec fn spec_client(&self) -> RedisClient {
        self._client
    }

    /// Build a facade: make a client from the configuration, open the
    /// first connection from it, and retain both. A configuration the
    /// factory rejects, and an initial connect that fails, both come back
    /// as a `Connection` error; nothing aborts the process.
    pub fn new(redis: RedisConfig) -> (r: Result<Redis, GlueError>)
        ensures
            !config_ok(redis) ==> r is Err,
            match r {
                Ok(facade) => facade.wf() && facade.matches_config(redis) && config_ok(redis),
                Err(e) => e == GlueError::Connection,
            },
    {
        let (client, connection) = match Self::connect(redis) {
            Ok(pair) => pair,
            Err(e) => {
                return Err(e);
            },
        };
        Ok(Redis { _client: client, connection })
    }

    /// Hand out a new handle on the facade's one shared connection: every
    /// handle minted here is the same handle, so a command issued through
    /// one is issued on the connection all of them share.
    pub fn get_client(&self) -> (r: RedisConnection)
        ensures
            r == self.spec_connection(),
    {
        self.connection.get_client()
    }

    /// Discard the current shared connection and open a fresh one from
    /// the retained client, so a caller can recover from a degraded
    /// connection without rebuilding the facade. The client is kept as it
    /// is; on failure the facade is left unchanged.
    pub fn reconnect(&mut self) -> (r: Result<(), GlueError>)
        ensures
            final(self).spec_client() == old(self).spec_client(),
            r is Ok ==> final(self).wf(),
            r matches Err(e) ==> e == GlueError::Connection && *final(self) == *old(self),
    {
        let connection = match &self._client {
            RedisClient::Single { client: c, .. } => match connection::open_single_connection(c) {
                Ok(cell) => RedisConnection::Single(cell),
                Err(e) => {
                    return Err(e);
                },
            },
            RedisClient::Cluster { client: c, .. } => match connection::open_cluster_connection(c) {
                Ok(cell) => RedisConnection::Cluster(cell),
                Err(e) => {
                    return Err(e);
                },
            },
        };
        self.connection = connection;
        Ok(())
    }

    /// Make the client and the first connection for a configuration, of
    /// one and the same topology.
    fn connect(redis: RedisConfig) -> (r: Result<(RedisClient, RedisConnection), GlueError>)
        ensures
            !config_ok(redis) ==> r is Err,
            match r {
                Ok(pair) => client_connection_agree(pair.0, pair.1) && client_matches_config(
                    pair.0,
                    redis,
                ) && config_ok(redis),
                Err(e) => e == GlueError::Connection,
            },
    {
        let client = match redis.connect() {
            Ok(c) => c,
            Err(e) => {
                return Err(e);
            },
        };
        let connection = match &client {
            RedisClient::Single { client: c, .. } => match connection::open_single_connection(c) {
                Ok(cell) => RedisConnection::Single(cell),
                Err(e) => {
                    return Err(e);
                },
            },
            RedisClient::Cluster { client: c, .. } => match connection::open_cluster_connection(c) {
                Ok(cell) => RedisConnection::Cluster(cell),
                Err(e) => {
                    return Err(e);
                },
            },
        };
        Ok((client, connection))
    }
}

/// Two handles minted from the same facade are one and the same handle:
/// each equals the facade's shared connection, so they alias the same
/// underlying connection, and a write issued through one is issued on the
/// very connection the other reads from.
pub proof fn lemma_handles_alias(facade: Redis, a: RedisConnection, b: RedisConnection)
    requires
        a == facade.spec_connection(),
        b == facade.spec_connection(),
    ensures
        a == b,
{
}

} // verus!
