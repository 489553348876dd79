//! The closed error taxonomy of the connection sequence, and its mapping to
//! process-exit categories.

use vstd::prelude::*;

verus! {

/// Every way the connection sequence can fail. Each variant is one kind of
/// the taxonomy: the kind alone decides logging and the process exit
/// category, independently of any wrapped lower-level cause.
#[derive(Clone, Copy, PartialEq, Eq, Structural, Debug)]
pub enum RdpError {
    /// A local read or write fault on the established stream.
    IOError,
    /// The host could not be reached when opening the socket.
    ConnectionError,
    /// A malformed X.224 envelope outside the data-transfer phase.
    X224Error,
    /// The server rejected protocol selection or chose a protocol that was
    /// never offered.
    NegotiationError,
    /// A structurally invalid PDU at some framing layer.
    UnexpectedPdu,
    /// A structurally valid PDU whose content is semantically wrong.
    InvalidResponse,
    /// A general TLS fault after the handshake.
    TlsConnectorError,
    /// A TLS fault during the handshake itself.
    TlsHandshakeError,
    /// CredSSP authentication failed.
    CredSspError,
    /// A malformed CredSSP TSRequest message.
    TsRequestError,
    /// A malformed early user authentication result message.
    EarlyUserAuthResultError,
    /// The server denied access through the early user authentication
    /// result: a successful exchange reporting an authorization failure.
    AccessDenied,
    /// The MCS Connect-Initial / Connect-Response exchange failed.
    McsConnectError,
    /// Local user information could not be gathered.
    UserInfoError,
    /// An MCS fault after connect, channel joins included.
    McsError,
    /// The Client-Info PDU could not be formed or sent.
    ClientInfoError,
    /// The server licensing exchange failed.
    ServerLicenseError,
    /// A malformed Share-Control envelope.
    ShareControlHeaderError,
    /// The capability exchange failed.
    CapabilitySetsError,
}

/// The three failure categories a process exit code distinguishes
/// (success is the fourth, used when no error occurred at all).
#[derive(Clone, Copy, PartialEq, Eq, Structural, Debug)]
pub enum ExitCategory {
    /// A plain local I/O failure.
    Io,
    /// The host could not be reached.
    NoHost,
    /// Every other protocol-level failure.
    Protocol,
}

impl RdpError {
    /// The exit category of this error kind: I/O faults and unreachable
    /// hosts each map to their own category, everything else is a protocol
    /// failure.
    pub fn exit_category(self) -> (r: ExitCategory)
        ensures
            r == self.spec_exit_category(),
    {
        match self {
            RdpError::IOError => ExitCategory::Io,
            RdpError::ConnectionError => ExitCategory::NoHost,
            _ => ExitCategory::Protocol,
        }
    }

    /// The exit category, as a specification.
    pub open spec fn spec_exit_category(self) -> ExitCategory {
        match self {
            RdpError::IOError => ExitCategory::Io,
            RdpError::ConnectionError => ExitCategory::NoHost,
            _ => ExitCategory::Protocol,
        }
    }
}

} // verus!
