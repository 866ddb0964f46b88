use vstd::prelude::*;

use crate::error::GlueError;

verus! {

/// Client configuration: exactly two forms, one server address or the
/// ordered seed addresses of a cluster. Nothing is validated here;
/// malformed addresses surface when a client is built from it.
#[derive(Clone, Debug)]
pub enum RedisConfig {
    /// URL of a single server.
    Single(String),
    /// URLs of the nodes of a cluster.
    Cluster(Vec<String>),
}

/// Whether a single-node URL is accepted by the client library's URL
/// parser. A function of the URL alone: no connection is involved.
pub uninterp spec fn single_url_ok(url: Seq<char>) -> bool;

/// Whether a list of cluster seed URLs is accepted by the client
/// library's parser and its cross-checks (no unix sockets, one password).
/// A function of the list alone: no connection is involved.
pub uninterp spec fn cluster_nodes_ok(nodes: Seq<Seq<char>>) -> bool;

/// Whether the client factory accepts a configuration.
pub open spec fn config_ok(c: RedisConfig) -> bool {
    match c {
        RedisConfig::Single(url) => single_url_ok(url@),
        RedisConfig::Cluster(nodes) => cluster_nodes_ok(nodes.deep_view()),
    }
}

/// A client for the store, of the same shape as the configuration it was
/// built from. It can mint connections, so a degraded connection can be
/// replaced without reparsing anything, and it keeps the address text it
/// was opened on as plain values beside the client library's object, so
/// contracts can tie the client to exactly its configuration.
pub enum RedisClient {
    /// A client bound to one server.
    Single {
        /// The URL the client was opened on.
        url: String,
        /// The client library's parsed client for that URL.
        client: redis::Client,
    },
    /// A client bound to the seed nodes of a cluster.
    Cluster {
        /// The seed URLs the client was opened on, in their given order.
        nodes: Vec<String>,
        /// The client library's parsed cluster client for those seeds.
        client: redis::cluster::ClusterClient,
    },
}

/// Whether a client is the one a configuration calls for: the same
/// topology, opened on exactly the configuration's address text — the one
/// URL, or the same seed URLs in the same order.
pub open spec fn client_matches_config(client: RedisClient, config: RedisConfig) -> bool {
    match (client, config) {
        (RedisClient::Single { url, .. }, RedisConfig::Single(u)) => url@ == u@,
        (RedisClient::Cluster { nodes, .. }, RedisConfig::Cluster(ns)) => nodes.deep_view()
            == ns.deep_view(),
        _ => false,
    }
}

/// Relies on redis::Client::open: it only parses the URL and opens no
/// connection, so success depends on the URL alone.
#[verifier::external_body]
fn open_single_client(url: &String) -> (r: Result<redis::Client, GlueError>)
    ensures
        r is Ok <==> single_url_ok(url@),
        r matches Err(e) ==> e == GlueError::Connection,
{
    match redis::Client::open(url.as_str()) {
        Ok(c) => Ok(c),
        Err(_) => Err(GlueError::Connection),
    }
}

/// Relies on redis::cluster::ClusterClient::open: it only parses the seed
/// URLs and cross-checks them (no unix sockets, no differing passwords),
/// opening no connection, so success depends on the list alone.
#[verifier::external_body]
fn open_cluster_client(nodes: &Vec<String>) -> (r: Result<redis::cluster::ClusterClient, GlueError>)
    ensures
        r is Ok <==> cluster_nodes_ok(nodes.deep_view()),
        r matches Err(e) ==> e == GlueError::Connection,
{
    match redis::cluster::ClusterClient::open(nodes.clone()) {
        Ok(c) => Ok(c),
        Err(_) => Err(GlueError::Connection),
    }
}

impl RedisConfig {
    /// Build a client on exactly this configuration's address(es).
    /// Succeeds exactly when the factory accepts the configuration; a
    /// rejected configuration comes back as a `Connection` error instead
    /// of aborting the process.
    pub fn connect(&self) -> (r: Result<RedisClient, GlueError>)
        ensures
            r is Ok <==> config_ok(*self),
            match r {
                Ok(client) => client_matches_config(client, *self),
                Err(e) => e == GlueError::Connection,
            },
    {
        match self {
            RedisConfig::Single(url) => match open_single_client(url) {
                Ok(c) => Ok(RedisClient::Single { url: url.clone(), client: c }),
                Err(e) => Err(e),
            },
            RedisConfig::Cluster(nodes) => match open_cluster_client(nodes) {
                Ok(c) => {
                    let kept = nodes.clone();
                    proof {
                        assert forall|i: int| 0 <= i < nodes@.len() implies kept@[i]
                            == nodes@[i] by {
                            assert(cloned::<String>(nodes@[i], kept@[i]));
                        }
                        assert(kept@ =~= nodes@);
                        assert(kept.deep_view() =~= nodes.deep_view());
                    }
                    Ok(RedisClient::Cluster { nodes: kept, client: c })
                },
                Err(e) => Err(e),
            },
        }
    }
}

} // verus!
