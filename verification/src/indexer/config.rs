//! The configuration of the indexer's services, and the redis client that they open with it.

use vstd::prelude::*;

verus! {

/// What the services are configured with.
#[derive(Clone, Debug, PartialEq, Eq)]
pub struct IndexerGrpcConfig {
    /// The address of the fullnode; only the cache worker needs it.
    pub fullnode_grpc_address: Option<String>,
    /// The address of the redis server, without a scheme.
    pub redis_address: String,
    /// The name of the bucket that holds the file store.
    pub file_store_bucket_name: String,
}

/// Why a service cannot be set up with a configuration.
#[derive(Clone, Copy, Debug, PartialEq, Eq, Structural)]
pub enum ConfigError {
    /// No redis client can be opened for the redis address.
    InvalidRedisAddress,
    /// The address of the fullnode is required and missing.
    MissingFullnodeAddress,
}

/// A client of the `redis` crate: where the redis server is, and how to log in to it.
#[verifier::external_type_specification]
#[verifier::external_body]
pub struct ExRedisClient(redis::Client);

/// An error of the `redis` crate.
#[verifier::external_type_specification]
#[verifier::external_body]
pub struct ExRedisError(redis::RedisError);

/// The client that `redis::Client::open` makes of a URL, or none where it rejects the URL.
pub uninterp spec fn redis_client_opened(url: Seq<char>) -> Option<redis::Client>;

/// Calls `redis::Client::open`, which parses a URL and does not connect. Whether it accepts a URL
/// with the scheme `redis`, and the client that it makes of it, depend on nothing but the URL.
#[verifier::external_body]
fn redis_client_open(url: String) -> (result: Result<redis::Client, redis::RedisError>)
    requires
        "redis://"@.is_prefix_of(url@),
    ensures
        match result {
            Ok(client) => redis_client_opened(url@) == Some(client),
            Err(_) => redis_client_opened(url@) is None,
        },
{
    redis::Client::open(url)
}

impl IndexerGrpcConfig {
    /// The URL of the redis server.
    pub open spec fn redis_url(self) -> Seq<char> {
        "redis://"@ + self.redis_address@
    }

    /// The client for the configured redis server, if its address is valid.
    pub open spec fn redis_client(self) -> Option<redis::Client> {
        redis_client_opened(self.redis_url())
    }

    /// Opens a client for the configured redis server.
    pub fn open_redis_client(&self) -> (result: Result<redis::Client, ConfigError>)
        ensures
            match result {
                Ok(client) => self.redis_client() == Some(client),
                Err(error) => self.redis_client() is None && error
                    == ConfigError::InvalidRedisAddress,
            },
    {
        let url: String = "redis://".to_string().concat(self.redis_address.as_str());
        assert("redis://"@ =~= url@.subrange(0, "redis://"@.len() as int));
        match redis_client_open(url) {
            Ok(client) => Ok(client),
            Err(_) => Err(ConfigError::InvalidRedisAddress),
        }
    }
}

} // verus!
