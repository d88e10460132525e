//! The library's error type: a tagged sum of the failure kinds, each with its text.

use vstd::prelude::*;
use crate::text::{join2, join4};

verus! {

/// Status codes of the RPC transport.
#[derive(Clone, Copy, Debug, PartialEq, Eq, Structural)]
pub enum RpcCode {
    Success,
    Cancelled,
    Unknown,
    InvalidArgument,
    DeadlineExceeded,
    NotFound,
    AlreadyExists,
    PermissionDenied,
    ResourceExhausted,
    FailedPrecondition,
    Aborted,
    OutOfRange,
    Unimplemented,
    Internal,
    Unavailable,
    DataLoss,
    Unauthenticated,
}

impl RpcCode {
    pub open spec fn spec_name(self) -> Seq<char> {
        match self {
            RpcCode::Success => "Ok"@,
            RpcCode::Cancelled => "Cancelled"@,
            RpcCode::Unknown => "Unknown"@,
            RpcCode::InvalidArgument => "InvalidArgument"@,
            RpcCode::DeadlineExceeded => "DeadlineExceeded"@,
            RpcCode::NotFound => "NotFound"@,
            RpcCode::AlreadyExists => "AlreadyExists"@,
            RpcCode::PermissionDenied => "PermissionDenied"@,
            RpcCode::ResourceExhausted => "ResourceExhausted"@,
            RpcCode::FailedPrecondition => "FailedPrecondition"@,
            RpcCode::Aborted => "Aborted"@,
            RpcCode::OutOfRange => "OutOfRange"@,
            RpcCode::Unimplemented => "Unimplemented"@,
            RpcCode::Internal => "Internal"@,
            RpcCode::Unavailable => "Unavailable"@,
            RpcCode::DataLoss => "DataLoss"@,
            RpcCode::Unauthenticated => "Unauthenticated"@,
        }
    }

    /// The code's name as the transport spells it.
    pub fn name(self) -> (r: &'static str)
        ensures
            r@ == self.spec_name(),
    {
        match self {
            RpcCode::Success => "Ok",
            RpcCode::Cancelled => "Cancelled",
            RpcCode::Unknown => "Unknown",
            RpcCode::InvalidArgument => "InvalidArgument",
            RpcCode::DeadlineExceeded => "DeadlineExceeded",
            RpcCode::NotFound => "NotFound",
            RpcCode::AlreadyExists => "AlreadyExists",
            RpcCode::PermissionDenied => "PermissionDenied",
            RpcCode::ResourceExhausted => "ResourceExhausted",
            RpcCode::FailedPrecondition => "FailedPrecondition",
            RpcCode::Aborted => "Aborted",
            RpcCode::OutOfRange => "OutOfRange",
            RpcCode::Unimplemented => "Unimplemented",
            RpcCode::Internal => "Internal",
            RpcCode::Unavailable => "Unavailable",
            RpcCode::DataLoss => "DataLoss",
            RpcCode::Unauthenticated => "Unauthenticated",
        }
    }
}

/// A transport-level rejection: a status code and its message.
#[derive(Clone, Debug)]
pub struct RpcStatus {
    pub code: RpcCode,
    pub message: String,
}

/// Everything that can go wrong in the agent or the client.
#[derive(Clone, Debug)]
pub enum AdeployError {
    Config(String),
    Network(String),
    Auth(String),
    Deploy(String),
    FileSystem(String),
    Service(String),
    Grpc(RpcStatus),
    Io(String),
    Toml(String),
    Serde(String),
}

/// The kind of an error, without its message.
#[derive(Clone, Copy, Debug, PartialEq, Eq, Structural)]
pub enum ErrorKind {
    Config,
    Network,
    Auth,
    Deploy,
    FileSystem,
    Service,
    Grpc(RpcCode),
    Io,
    Toml,
    Serde,
}

/// The human-readable text of an error, from its kind and message.
pub open spec fn error_text(e: (ErrorKind, Seq<char>)) -> Seq<char> {
    let m = e.1;
    match e.0 {
        ErrorKind::Config => "Configuration error: "@ + m,
        ErrorKind::Network => "Network error: "@ + m,
        ErrorKind::Auth => "Authentication error: "@ + m,
        ErrorKind::Deploy => "Deploy error: "@ + m,
        ErrorKind::FileSystem => "File system error: "@ + m,
        ErrorKind::Service => "Service error: "@ + m,
        ErrorKind::Grpc(c) => "gRPC error (code: "@ + c.spec_name() + ", message: "@ + m + ")"@,
        ErrorKind::Io => "IO error: "@ + m,
        ErrorKind::Toml => "TOML parsing error: "@ + m,
        ErrorKind::Serde => "Serialization error: "@ + m,
    }
}

impl View for AdeployError {
    type V = (ErrorKind, Seq<char>);

    /// The error's kind and its message.
    open spec fn view(&self) -> (ErrorKind, Seq<char>) {
        match self {
            AdeployError::Config(m) => (ErrorKind::Config, m@),
            AdeployError::Network(m) => (ErrorKind::Network, m@),
            AdeployError::Auth(m) => (ErrorKind::Auth, m@),
            AdeployError::Deploy(m) => (ErrorKind::Deploy, m@),
            AdeployError::FileSystem(m) => (ErrorKind::FileSystem, m@),
            AdeployError::Service(m) => (ErrorKind::Service, m@),
            AdeployError::Grpc(s) => (ErrorKind::Grpc(s.code), s.message@),
            AdeployError::Io(m) => (ErrorKind::Io, m@),
            AdeployError::Toml(m) => (ErrorKind::Toml, m@),
            AdeployError::Serde(m) => (ErrorKind::Serde, m@),
        }
    }
}

impl AdeployError {
    /// The error's kind.
    pub fn kind(&self) -> (r: ErrorKind)
        ensures
            r == self@.0,
    {
        match self {
            AdeployError::Config(_) => ErrorKind::Config,
            AdeployError::Network(_) => ErrorKind::Network,
            AdeployError::Auth(_) => ErrorKind::Auth,
            AdeployError::Deploy(_) => ErrorKind::Deploy,
            AdeployError::FileSystem(_) => ErrorKind::FileSystem,
            AdeployError::Service(_) => ErrorKind::Service,
            AdeployError::Grpc(s) => ErrorKind::Grpc(s.code),
            AdeployError::Io(_) => ErrorKind::Io,
            AdeployError::Toml(_) => ErrorKind::Toml,
            AdeployError::Serde(_) => ErrorKind::Serde,
        }
    }

    /// The human-readable text of the error.
    pub open spec fn spec_text(&self) -> Seq<char> {
        error_text(self@)
    }

    /// See `spec_text`.
    pub fn text(&self) -> (r: String)
        ensures
            r@ == self.spec_text(),
    {
        match self {
            AdeployError::Config(m) => join2("Configuration error: ", m.as_str()),
            AdeployError::Network(m) => join2("Network error: ", m.as_str()),
            AdeployError::Auth(m) => join2("Authentication error: ", m.as_str()),
            AdeployError::Deploy(m) => join2("Deploy error: ", m.as_str()),
            AdeployError::FileSystem(m) => join2("File system error: ", m.as_str()),
            AdeployError::Service(m) => join2("Service error: ", m.as_str()),
            AdeployError::Grpc(s) => {
                let head = join4("gRPC error (code: ", s.code.name(), ", message: ", s.message.as_str());
                join2(head.as_str(), ")")
            },
            AdeployError::Io(m) => join2("IO error: ", m.as_str()),
            AdeployError::Toml(m) => join2("TOML parsing error: ", m.as_str()),
            AdeployError::Serde(m) => join2("Serialization error: ", m.as_str()),
        }
    }
}

} // verus!
