//! Errors of the manager.

use vstd::prelude::*;
use vstd::string::*;

use crate::text;

verus! {

/// `std::io::Error`, which is only carried.
#[verifier::external_type_specification]
#[verifier::external_body]
pub struct ExIoError(std::io::Error);

#[derive(Debug)]
pub enum OsError {
    VmNotFound(String),
    VmAlreadyExists(String),
    InvalidState { current: String, operation: String },
    ResourceLimitExceeded { resource: String, limit: String, requested: String },
    Firecracker(String),
    FirecrackerApi { status: u16, body: String },
    KernelNotFound(String),
    RootfsNotFound(String),
    Network(String),
    Storage(String),
    Image(String),
    Socket(String),
    Timeout(String),
    /// A name, an address or an identifier that the manager did not make.
    InvalidId { kind: &'static str, value: String, reason: &'static str },
    Io(std::io::Error),
    Json(serde_json::Error),
    /// An error of the content store, by its message.
    Monoce(String),
}

pub type OsResult<T> = Result<T, OsError>;

/// What an error says.
pub enum Failure {
    VmNotFound(Seq<char>),
    VmAlreadyExists(Seq<char>),
    InvalidState { current: Seq<char>, operation: Seq<char> },
    ResourceLimitExceeded { resource: Seq<char>, limit: Seq<char>, requested: Seq<char> },
    Firecracker(Seq<char>),
    FirecrackerApi { status: u16, body: Seq<char> },
    KernelNotFound(Seq<char>),
    RootfsNotFound(Seq<char>),
    Network(Seq<char>),
    Storage(Seq<char>),
    Image(Seq<char>),
    Socket(Seq<char>),
    Timeout(Seq<char>),
    InvalidId { kind: Seq<char>, value: Seq<char>, reason: Seq<char> },
    Io(std::io::Error),
    Json(serde_json::Error),
    Monoce(Seq<char>),
}

impl View for OsError {
    type V = Failure;

    open spec fn view(&self) -> Failure {
        match *self {
            OsError::VmNotFound(id) => Failure::VmNotFound(id@),
            OsError::VmAlreadyExists(id) => Failure::VmAlreadyExists(id@),
            OsError::InvalidState { current, operation } => Failure::InvalidState {
                current: current@,
                operation: operation@,
            },
            OsError::ResourceLimitExceeded { resource, limit, requested } =>
                Failure::ResourceLimitExceeded {
                resource: resource@,
                limit: limit@,
                requested: requested@,
            },
            OsError::Firecracker(message) => Failure::Firecracker(message@),
            OsError::FirecrackerApi { status, body } => Failure::FirecrackerApi {
                status,
                body: body@,
            },
            OsError::KernelNotFound(path) => Failure::KernelNotFound(path@),
            OsError::RootfsNotFound(path) => Failure::RootfsNotFound(path@),
            OsError::Network(message) => Failure::Network(message@),
            OsError::Storage(message) => Failure::Storage(message@),
            OsError::Image(message) => Failure::Image(message@),
            OsError::Socket(message) => Failure::Socket(message@),
            OsError::Timeout(id) => Failure::Timeout(id@),
            OsError::InvalidId { kind, value, reason } => Failure::InvalidId {
                kind: kind@,
                value: value@,
                reason: reason@,
            },
            OsError::Io(error) => Failure::Io(error),
            OsError::Json(error) => Failure::Json(error),
            OsError::Monoce(message) => Failure::Monoce(message@),
        }
    }
}

/// The error that a fallible call came to.
pub open spec fn error_of<T>(r: OsResult<T>) -> Option<Failure> {
    match r {
        Ok(_) => None,
        Err(e) => Some(e@),
    }
}

// ---------------------------------------------------------------------------
// Messages
// ---------------------------------------------------------------------------
impl Failure {
    /// The message that is shown for an error. `cause` is how an error of
    /// another library shows itself, and is used only where there is one.
    pub open spec fn message(self, cause: Seq<char>) -> Seq<char> {
        match self {
            Failure::VmNotFound(id) => "VM not found: "@ + id,
            Failure::VmAlreadyExists(id) => "VM already exists: "@ + id,
            Failure::InvalidState { current, operation } => "VM is in invalid state "@ + current
                + " for operation "@ + operation,
            Failure::ResourceLimitExceeded { resource, limit, requested } =>
                "resource limit exceeded: "@ + resource + " (limit: "@ + limit + ", requested: "@
                + requested + ")"@,
            Failure::Firecracker(message) => "firecracker error: "@ + message,
            Failure::FirecrackerApi { status, body } => "firecracker API error: "@ + text::dec(
                status as nat,
            ) + " "@ + body,
            Failure::KernelNotFound(path) => "kernel image not found: "@ + path,
            Failure::RootfsNotFound(path) => "rootfs not found: "@ + path,
            Failure::Network(message) => "network configuration error: "@ + message,
            Failure::Storage(message) => "storage error: "@ + message,
            Failure::Image(message) => "image error: "@ + message,
            Failure::Socket(message) => "socket error: "@ + message,
            Failure::Timeout(id) => "timeout waiting for VM "@ + id,
            Failure::InvalidId { kind, value, reason } => "invalid "@ + kind + " '"@ + value
                + "': "@ + reason,
            Failure::Io(_) => "IO error: "@ + cause,
            Failure::Json(_) => "JSON error: "@ + cause,
            Failure::Monoce(message) => "monoce error: "@ + message,
        }
    }
}

fn joined(head: &str, tail: &str) -> (r: String)
    ensures
        r@ == head@ + tail@,
{
    let mut s = head.to_string();
    s.append(tail);
    s
}

impl OsError {
    /// The message that is shown for this error. `cause` is how an error of
    /// another library shows itself, and is used only where there is one.
    pub fn message(&self, cause: &str) -> (r: String)
        ensures
            r@ == self@.message(cause@),
    {
        match self {
            OsError::VmNotFound(id) => joined("VM not found: ", id.as_str()),
            OsError::VmAlreadyExists(id) => joined("VM already exists: ", id.as_str()),
            OsError::InvalidState { current, operation } => {
                let mut s = joined("VM is in invalid state ", current.as_str());
                s.append(" for operation ");
                s.append(operation.as_str());
                s
            },
            OsError::ResourceLimitExceeded { resource, limit, requested } => {
                let mut s = joined("resource limit exceeded: ", resource.as_str());
                s.append(" (limit: ");
                s.append(limit.as_str());
                s.append(", requested: ");
                s.append(requested.as_str());
                s.append(")");
                s
            },
            OsError::Firecracker(message) => joined("firecracker error: ", message.as_str()),
            OsError::FirecrackerApi { status, body } => {
                let mut s = joined(
                    "firecracker API error: ",
                    text::decimal(*status as u64).as_str(),
                );
                s.append(" ");
                s.append(body.as_str());
                s
            },
            OsError::KernelNotFound(path) => joined("kernel image not found: ", path.as_str()),
            OsError::RootfsNotFound(path) => joined("rootfs not found: ", path.as_str()),
            OsError::Network(message) => joined(
                "network configuration error: ",
                message.as_str(),
            ),
            OsError::Storage(message) => joined("storage error: ", message.as_str()),
            OsError::Image(message) => joined("image error: ", message.as_str()),
            OsError::Socket(message) => joined("socket error: ", message.as_str()),
            OsError::Timeout(id) => joined("timeout waiting for VM ", id.as_str()),
            OsError::InvalidId { kind, value, reason } => {
                let mut s = joined("invalid ", kind);
                s.append(" '");
                s.append(value.as_str());
                s.append("': ");
                s.append(reason);
                s
            },
            OsError::Io(_) => joined("IO error: ", cause),
            OsError::Json(_) => joined("JSON error: ", cause),
            OsError::Monoce(message) => joined("monoce error: ", message.as_str()),
        }
    }
}

/// How each error is shown.
pub proof fn law_messages(
    a: Seq<char>,
    b: Seq<char>,
    c: Seq<char>,
    status: u16,
    io: std::io::Error,
    json: serde_json::Error,
)
    ensures
        Failure::VmNotFound(a).message(c) == "VM not found: "@ + a,
        Failure::VmAlreadyExists(a).message(c) == "VM already exists: "@ + a,
        (Failure::InvalidState { current: a, operation: b }).message(c)
            == "VM is in invalid state "@ + a + " for operation "@ + b,
        (Failure::ResourceLimitExceeded { resource: a, limit: b, requested: c }).message(c)
            == "resource limit exceeded: "@ + a + " (limit: "@ + b + ", requested: "@ + c + ")"@,
        Failure::Firecracker(a).message(c) == "firecracker error: "@ + a,
        (Failure::FirecrackerApi { status, body: a }).message(c) == "firecracker API error: "@
            + text::dec(status as nat) + " "@ + a,
        Failure::KernelNotFound(a).message(c) == "kernel image not found: "@ + a,
        Failure::RootfsNotFound(a).message(c) == "rootfs not found: "@ + a,
        Failure::Network(a).message(c) == "network configuration error: "@ + a,
        Failure::Storage(a).message(c) == "storage error: "@ + a,
        Failure::Image(a).message(c) == "image error: "@ + a,
        Failure::Socket(a).message(c) == "socket error: "@ + a,
        Failure::Timeout(a).message(c) == "timeout waiting for VM "@ + a,
        (Failure::InvalidId { kind: a, value: b, reason: c }).message(a) == "invalid "@ + a + " '"@
            + b + "': "@ + c,
        Failure::Io(io).message(c) == "IO error: "@ + c,
        Failure::Json(json).message(c) == "JSON error: "@ + c,
        Failure::Monoce(a).message(c) == "monoce error: "@ + a,
{
}

} // verus!
