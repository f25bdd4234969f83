//! What can go wrong, and how far the damage reaches.

use vstd::prelude::*;

verus! {

/// An I/O failure of the platform, `std::io::Error`, carried through unread.
#[verifier::external_type_specification]
#[verifier::external_body]
pub struct ExIoError(std::io::Error);

/// Every failure that the endpoint tells apart.
#[derive(Clone, Copy, Debug, PartialEq, Eq, Structural)]
pub enum PullError {
    /// The listening socket could not be bound.
    Bind,
    /// Accepting a connection failed.
    Accept,
    /// The registry could not be refreshed.
    RegistryRefresh,
    /// No TLS acceptor could be built from the registry's trust material.
    TlsInit,
    /// The peer's address already holds all the connections it may hold.
    TooManyConnections,
    /// The monitoring data could not be collected.
    Collect,
    /// The monitoring data could not be compressed.
    Compress,
    /// A handshake or a write failed.
    Io,
    /// A handshake or a write did not finish in time.
    Timeout,
}

/// How far a failure reaches.
#[derive(Clone, Copy, Debug, PartialEq, Eq, Structural)]
pub enum ErrorClass {
    /// Ends the accept loop.
    Fatal,
    /// The connection is turned away before any work is done for it.
    Rejection,
    /// Ends the one connection it happened on.
    PerConnection,
}

impl PullError {
    /// The class of each failure.
    pub open spec fn spec_class(self) -> ErrorClass {
        match self {
            PullError::Bind
            | PullError::Accept
            | PullError::RegistryRefresh
            | PullError::TlsInit => ErrorClass::Fatal,
            PullError::TooManyConnections => ErrorClass::Rejection,
            PullError::Collect | PullError::Compress | PullError::Io | PullError::Timeout => {
                ErrorClass::PerConnection
            },
        }
    }

    /// How far this failure reaches.
    pub fn class(&self) -> (res: ErrorClass)
        ensures
            res == self.spec_class(),
    {
        match self {
            PullError::Bind => ErrorClass::Fatal,
            PullError::Accept => ErrorClass::Fatal,
            PullError::RegistryRefresh => ErrorClass::Fatal,
            PullError::TlsInit => ErrorClass::Fatal,
            PullError::TooManyConnections => ErrorClass::Rejection,
            PullError::Collect => ErrorClass::PerConnection,
            PullError::Compress => ErrorClass::PerConnection,
            PullError::Io => ErrorClass::PerConnection,
            PullError::Timeout => ErrorClass::PerConnection,
        }
    }

    /// Whether the accept loop ends on this failure.
    pub fn is_fatal(&self) -> (res: bool)
        ensures
            res == (self.spec_class() == ErrorClass::Fatal),
    {
        self.class() == ErrorClass::Fatal
    }

    /// The text of each failure.
    pub open spec fn spec_message(self) -> Seq<char> {
        match self {
            PullError::Bind => "Failed binding the pull socket"@,
            PullError::Accept => "Failed accepting pull connection"@,
            PullError::RegistryRefresh => "Failed refreshing the registry"@,
            PullError::TlsInit => "Could not initialize TLS."@,
            PullError::TooManyConnections => "Too many active connections"@,
            PullError::Collect => "Error collecting monitoring data."@,
            PullError::Compress => "Error compressing monitoring data"@,
            PullError::Io => "Connection failed"@,
            PullError::Timeout => "deadline has elapsed"@,
        }
    }

    /// The text to log for this failure.
    pub fn message(&self) -> (res: &'static str)
        ensures
            res@ == self.spec_message(),
    {
        match self {
            PullError::Bind => "Failed binding the pull socket",
            PullError::Accept => "Failed accepting pull connection",
            PullError::RegistryRefresh => "Failed refreshing the registry",
            PullError::TlsInit => "Could not initialize TLS.",
            PullError::TooManyConnections => "Too many active connections",
            PullError::Collect => "Error collecting monitoring data.",
            PullError::Compress => "Error compressing monitoring data",
            PullError::Io => "Connection failed",
            PullError::Timeout => "deadline has elapsed",
        }
    }
}

} // verus!
