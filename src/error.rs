use vstd::prelude::*;

verus! {

/// gRPC status code reported when the requested entity does not exist.
pub const STATUS_NOT_FOUND: i32 = 5;

/// Status of a remote call that did not complete: its gRPC code and message.
#[derive(Debug, Clone, PartialEq, Eq)]
pub struct RpcStatus {
    pub code: i32,
    pub message: String,
}

/// Every failure that a call through the client can end in.
#[derive(Debug, Clone, PartialEq, Eq)]
pub enum Error {
    /// The remote call did not complete.
    TonicError(RpcStatus),
    /// A nested consensus-format field of a response could not be decoded.
    TendermintError(String),
    /// A domain type rejected a value it was asked to interpret.
    CelestiaTypesError(String),
    /// A consensus-format protobuf message could not be decoded.
    TendermintProtoError(String),
    /// A response lacked a field the operation needs.
    FailedToParseResponse,
    /// A response held another message than the one the operation expects.
    UnexpectedResponseType(String),
    /// A blob transaction was submitted without any blob.
    TxEmptyBlobList,
    /// A block was asked for by a negative height.
    NegativeHeight(i64),
}

/// The class of a failure.
#[derive(Debug, Clone, Copy, PartialEq, Eq, Structural)]
pub enum ErrorKind {
    /// The remote call did not complete.
    Transport,
    /// A nested field of a response failed to decode in the consensus format.
    UpstreamDecode,
    /// A domain type rejected a value.
    DomainDecode,
    /// A response did not have the shape the operation expects.
    ResponseShape,
    /// The caller's input was refused before any call.
    LocalValidation,
}

impl Error {
    pub open spec fn spec_kind(&self) -> ErrorKind {
        match self {
            Error::TonicError(_) => ErrorKind::Transport,
            Error::TendermintError(_) => ErrorKind::UpstreamDecode,
            Error::TendermintProtoError(_) => ErrorKind::UpstreamDecode,
            Error::CelestiaTypesError(_) => ErrorKind::DomainDecode,
            Error::FailedToParseResponse => ErrorKind::ResponseShape,
            Error::UnexpectedResponseType(_) => ErrorKind::ResponseShape,
            Error::TxEmptyBlobList => ErrorKind::LocalValidation,
            Error::NegativeHeight(_) => ErrorKind::LocalValidation,
        }
    }

    /// The class that this failure belongs to.
    pub fn kind(&self) -> (r: ErrorKind)
        ensures
            r == self.spec_kind(),
    {
        match self {
            Error::TonicError(_) => ErrorKind::Transport,
            Error::TendermintError(_) => ErrorKind::UpstreamDecode,
            Error::TendermintProtoError(_) => ErrorKind::UpstreamDecode,
            Error::CelestiaTypesError(_) => ErrorKind::DomainDecode,
            Error::FailedToParseResponse => ErrorKind::ResponseShape,
            Error::UnexpectedResponseType(_) => ErrorKind::ResponseShape,
            Error::TxEmptyBlobList => ErrorKind::LocalValidation,
            Error::NegativeHeight(_) => ErrorKind::LocalValidation,
        }
    }

    /// Whether the remote side reported that the requested entity does not exist.
    pub open spec fn spec_is_not_found(&self) -> bool {
        match self {
            Error::TonicError(s) => s.code == STATUS_NOT_FOUND,
            _ => false,
        }
    }

    pub fn is_not_found(&self) -> (r: bool)
        ensures
            r == self.spec_is_not_found(),
    {
        match self {
            Error::TonicError(s) => s.code == STATUS_NOT_FOUND,
            _ => false,
        }
    }
}

/// Every failure that an operation of the node binding can end in.
#[derive(Debug, Clone, PartialEq, Eq)]
pub enum LuminaError {
    /// An operation needs a running node.
    NodeNotRunning,
    /// A network operation failed.
    NetworkError { msg: String },
    /// A storage operation failed.
    StorageError { msg: String },
    /// The node was started while it was running.
    AlreadyRunning,
    /// A lock could not be taken.
    LockError,
    /// A hash string is malformed.
    InvalidHash { msg: String },
    /// A header is malformed.
    InvalidHeader { msg: String },
    /// The storage could not be initialised.
    StorageInit { msg: String },
}

impl LuminaError {
    /// A network error carrying the message of the node error that caused it.
    pub fn from_node_error_message(msg: String) -> (r: LuminaError)
        ensures
            r == (LuminaError::NetworkError { msg }),
    {
        LuminaError::NetworkError { msg }
    }
}

} // verus!
