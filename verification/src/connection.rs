use std::cell::RefCell;
use std::rc::Rc;

use vstd::prelude::*;

use crate::command::Command;
use crate::error::GlueError;
use crate::reply::Reply;

verus! {

/// A handle on the one underlying connection: either a single-node
/// connection or a cluster connection, behind a shared interior-mutable
/// cell so every handle minted from the same facade reaches the same
/// connection.
///
/// The cell demands exclusive access for the duration of each command, and
/// the sharing is by plain reference counting: the handle is meant for a
/// single-threaded context, and reaching one cell from two true OS threads
/// at once is a misuse that faults at run time.
#[derive(Clone)]
pub enum RedisConnection {
    /// A connection to one server.
    Single(Rc<RefCell<redis::Connection>>),
    /// A connection into a cluster.
    Cluster(Rc<RefCell<redis::cluster::ClusterConnection>>),
}

/// Relies on std's Rc::clone: the new reference is to the same allocation,
/// hence to the same underlying single-node connection.
#[verifier::external_body]
fn share_single(con: &Rc<RefCell<redis::Connection>>) -> (r: Rc<RefCell<redis::Connection>>)
    ensures
        r == *con,
{
    Rc::clone(con)
}

/// Relies on std's Rc::clone: the new reference is to the same allocation,
/// hence to the same underlying cluster connection.
#[verifier::external_body]
fn share_cluster(
    con: &Rc<RefCell<redis::cluster::ClusterConnection>>,
) -> (r: Rc<RefCell<redis::cluster::ClusterConnection>>)
    ensures
        r == *con,
{
    Rc::clone(con)
}

/// Relies on redis's reply parsing having separated errors out already:
/// this only renames the parsed reply's variants into this crate's own
/// [`Reply`], field for field.
#[verifier::external_body]
fn reply_of_value(v: redis::Value) -> Reply {
    match v {
        redis::Value::Nil => Reply::Nil,
        redis::Value::Okay => Reply::Okay,
        redis::Value::Status(s) => Reply::Status(s),
        redis::Value::Int(i) => Reply::Int(i),
        redis::Value::Data(b) => Reply::Data(b),
        redis::Value::Bulk(items) => Reply::Bulk(items.into_iter().map(reply_of_value).collect()),
    }
}

/// Relies on redis::RedisError::kind to classify a failed command: a type
/// mismatch keeps its class, I/O and cluster-routing failures are
/// transport faults, and everything else is a protocol fault. A failure
/// during a command is never a `Connection` (construction) error.
#[verifier::external_body]
fn glue_error_of(e: redis::RedisError) -> (r: GlueError)
    ensures
        r is TypeMismatch || r is Transport || r is Protocol,
{
    match e.kind() {
        redis::ErrorKind::TypeError => GlueError::TypeMismatch,
        redis::ErrorKind::IoError
        | redis::ErrorKind::Moved
        | redis::ErrorKind::Ask
        | redis::ErrorKind::TryAgain
        | redis::ErrorKind::ClusterDown
        | redis::ErrorKind::MasterDown => GlueError::Transport,
        _ => GlueError::Protocol,
    }
}

/// Relies on redis::Cmd::query over the single-node connection: it sends
/// the command and parses the reply. The outcome depends on the network
/// and the server, so nothing is promised beyond the error's class.
#[verifier::external_body]
fn query_single(con: &Rc<RefCell<redis::Connection>>, cmd: &Command) -> (r: Result<
    Reply,
    GlueError,
>)
    ensures
        r matches Err(e) ==> (e is TypeMismatch || e is Transport || e is Protocol),
{
    let mut c = redis::cmd(cmd.name.as_str());
    c.arg(cmd.args.as_slice());
    match c.query::<redis::Value>(&mut *con.borrow_mut()) {
        Ok(v) => Ok(reply_of_value(v)),
        Err(e) => Err(glue_error_of(e)),
    }
}

/// Relies on redis::Cmd::query over the cluster connection: it routes the
/// command to the responsible node, follows redirects, and parses the
/// reply. The outcome depends on the network and the servers, so nothing
/// is promised beyond the error's class.
#[verifier::external_body]
fn query_cluster(con: &Rc<RefCell<redis::cluster::ClusterConnection>>, cmd: &Command) -> (r: Result<
    Reply,
    GlueError,
>)
    ensures
        r matches Err(e) ==> (e is TypeMismatch || e is Transport || e is Protocol),
{
    let mut c = redis::cmd(cmd.name.as_str());
    c.arg(cmd.args.as_slice());
    match c.query::<redis::Value>(&mut *con.borrow_mut()) {
        Ok(v) => Ok(reply_of_value(v)),
        Err(e) => Err(glue_error_of(e)),
    }
}

/// Relies on redis::Client::get_connection: it opens a connection to the
/// one server. The outcome depends on the network; every failure here is
/// a `Connection` (construction) error.
#[verifier::external_body]
pub(crate) fn open_single_connection(client: &redis::Client) -> (r: Result<
    Rc<RefCell<redis::Connection>>,
    GlueError,
>)
    ensures
        r matches Err(e) ==> e == GlueError::Connection,
{
    match client.get_connection() {
        Ok(c) => Ok(Rc::new(RefCell::new(c))),
        Err(_) => Err(GlueError::Connection),
    }
}

/// Relies on redis::cluster::ClusterClient::get_connection: it opens
/// connections to the reachable seed nodes and reads the slot map; seeds
/// that are down do not by themselves fail it. The outcome depends on the
/// network; every failure here is a `Connection` (construction) error.
#[verifier::external_body]
pub(crate) fn open_cluster_connection(client: &redis::cluster::ClusterClient) -> (r: Result<
    Rc<RefCell<redis::cluster::ClusterConnection>>,
    GlueError,
>)
    ensures
        r matches Err(e) ==> e == GlueError::Connection,
{
    match client.get_connection() {
        Ok(c) => Ok(Rc::new(RefCell::new(c))),
        Err(_) => Err(GlueError::Connection),
    }
}

/// Whether an `exec` outcome is the canonical liveness confirmation: a
/// status reply that reads exactly `PONG`. Any other reply, and any
/// failure, is not.
pub open spec fn spec_is_pong(r: Result<Reply, GlueError>) -> bool {
    match r {
        Ok(Reply::Status(s)) => s@ == "PONG"@,
        _ => false,
    }
}

/// Decide liveness from an `exec` outcome, exactly as [`spec_is_pong`]
/// says: true only for a status reply that reads `PONG`; every other
/// reply and every failure count as not alive.
pub fn reply_confirms_liveness(r: &Result<Reply, GlueError>) -> (alive: bool)
    ensures
        alive == spec_is_pong(*r),
{
    match r {
        Ok(Reply::Status(s)) => *s == "PONG".to_owned(),
        _ => false,
    }
}

impl RedisConnection {
    /// Mint a new handle on the same underlying connection. No new
    /// network connection is made: the result is the same handle value,
    /// sharing the one cell.
    pub fn get_client(&self) -> (r: Self)
        ensures
            r == *self,
    {
        match self {
            RedisConnection::Single(con) => RedisConnection::Single(share_single(con)),
            RedisConnection::Cluster(con) => RedisConnection::Cluster(share_cluster(con)),
        }
    }

    /// Send one command over the underlying connection and hand back the
    /// decoded reply. The command is never retried; a failure in flight
    /// is a transport, protocol or type-mismatch error, never a
    /// `Connection` (construction) error.
    pub fn exec(&self, cmd: &Command) -> (r: Result<Reply, GlueError>)
        ensures
            r matches Err(e) ==> (e is TypeMismatch || e is Transport || e is Protocol),
    {
        match self {
            RedisConnection::Single(con) => query_single(con, cmd),
            RedisConnection::Cluster(con) => query_cluster(con, cmd),
        }
    }

    /// Issue the liveness command and collapse the outcome to a boolean,
    /// as [`reply_confirms_liveness`] decides it: true only when the
    /// store answers `PONG`; any other reply and any failure yield false.
    /// A caller cannot tell "server said no" from "network failed".
    pub fn ping(&self) -> bool {
        let outcome = self.exec(&Command::new("PING"));
        reply_confirms_liveness(&outcome)
    }
}

} // verus!
