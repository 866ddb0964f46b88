use vstd::prelude::*;

verus! {

/// Declares the client library's single-node client type so that it can
/// stand in signatures and fields. Its values are opaque here.
#[verifier::external_type_specification]
#[verifier::external_body]
pub struct ExClient(redis::Client);

/// Declares the client library's cluster client type. Opaque here.
#[verifier::external_type_specification]
#[verifier::external_body]
pub struct ExClusterClient(redis::cluster::ClusterClient);

/// Declares the client library's single-node connection type. Opaque here.
#[verifier::external_type_specification]
#[verifier::external_body]
pub struct ExConnection(redis::Connection);

/// Declares the client library's cluster connection type. Opaque here.
#[verifier::external_type_specification]
#[verifier::external_body]
pub struct ExClusterConnection(redis::cluster::ClusterConnection);

/// Declares the client library's error type so trusted wrappers can take
/// it apart. Opaque here.
#[verifier::external_type_specification]
#[verifier::external_body]
pub struct ExRedisError(redis::RedisError);

/// Declares the client library's parsed reply type; a trusted wrapper
/// turns it into this crate's own [`crate::Reply`]. Opaque here.
#[verifier::external_type_specification]
#[verifier::external_body]
pub struct ExValue(redis::Value);

/// Declares std's interior-mutability cell, which shares one connection
/// among all handles minted from a facade. Opaque here: all borrowing
/// happens inside trusted wrappers.
#[verifier::external_type_specification]
#[verifier::external_body]
#[verifier::reject_recursive_types(T)]
pub struct ExRefCell<T: ?Sized>(core::cell::RefCell<T>);

} // verus!
