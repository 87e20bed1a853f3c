//! The errors of the library, and the error codes of the ZooKeeper service.

use vstd::prelude::*;
use vstd::std_specs::convert::FromSpecImpl;

verus! {

/// The error codes that a ZooKeeper client reports.
#[derive(Clone, Copy, Debug, PartialEq, Eq, Structural)]
pub enum ZkError {
    /// The upper end of the range of API errors; no server sends it.
    APIError,
    /// The client could not authenticate.
    AuthFailed,
    /// The arguments of a request are not valid.
    BadArguments,
    /// The version that a conditional write expects is not the version of the node.
    BadVersion,
    /// The connection to the server was lost.
    ConnectionLoss,
    /// The data is inconsistent.
    DataInconsistency,
    /// An ephemeral node was asked for on a local session.
    EphemeralOnLocalSession,
    /// The access control list is not valid.
    InvalidACL,
    /// The callback is not valid.
    InvalidCallback,
    /// A request or a reply could not be encoded or decoded.
    MarshallingError,
    /// The client is not allowed to do this.
    NoAuth,
    /// Ephemeral nodes may not have children.
    NoChildrenForEphemerals,
    /// The node to be created is there already.
    NodeExists,
    /// The node is not there.
    NoNode,
    /// The node has children.
    NotEmpty,
    /// A request that changes state was sent to a read-only server.
    NotReadOnly,
    /// The watcher to be removed is not there.
    NoWatcher,
    /// The operation took too long.
    OperationTimeout,
    /// The state at run time is inconsistent.
    RuntimeInconsistency,
    /// The server ended the session.
    SessionExpired,
    /// The session moved to another server, so the operation was ignored.
    SessionMoved,
    /// The upper end of the range of system errors; no server sends it.
    SystemError,
    /// The operation does not exist.
    Unimplemented,
}

/// Why an operation on a shared object failed.
#[derive(Clone, Copy, Debug, PartialEq, Eq, Structural)]
pub enum ZkStructError {
    /// Timed out when trying to lock the struct for writing.
    LockAcquireTimeout,
    /// The local object was not verified against the remote one recently enough.
    StaleRead,
    /// The expected version of the object does not match the remote version.
    StaleWrite,
    /// ZooKeeper refused or failed.
    ZkError(ZkError),
    /// A writer panicked while it held the local object.
    Poisoned,
}

impl From<ZkError> for ZkStructError {
    fn from(error: ZkError) -> (e: ZkStructError) {
        ZkStructError::ZkError(error)
    }
}

impl FromSpecImpl<ZkError> for ZkStructError {
    open spec fn obeys_from_spec() -> bool {
        true
    }

    open spec fn from_spec(error: ZkError) -> ZkStructError {
        ZkStructError::ZkError(error)
    }
}

/// An error of ZooKeeper is passed on as it is.
pub proof fn law_zookeeper_errors_are_passed_on(error: ZkError)
    ensures
        <ZkStructError as vstd::std_specs::convert::FromSpec<ZkError>>::from_spec(error)
            == ZkStructError::ZkError(error),
{
}

} // verus!
