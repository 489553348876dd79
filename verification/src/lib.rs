//! Client-side RDP connection sequence: protocol negotiation, the layered
//! transport framing stack (TPKT/X.224, MCS Send-Data, Share-Control,
//! Share-Data), MCS channel management, and the phase state machine that
//! orders the handshake from a fresh socket to an active session.

pub mod bytes;
pub mod channels;
pub mod config;
pub mod credssp;
pub mod error;
pub mod mcs;
pub mod rdp;
pub mod sequence;
pub mod transport;
pub mod x224;

use vstd::prelude::*;

verus! {

/// Bit assigned to TLS ("SSL") security in the RDP negotiation exchange.
pub const PROTOCOL_SSL: u32 = 1;

/// Bit assigned to CredSSP ("hybrid") security in the RDP negotiation exchange.
pub const PROTOCOL_HYBRID: u32 = 2;

/// Bit assigned to extended CredSSP security (with the early user
/// authentication result message) in the RDP negotiation exchange.
pub const PROTOCOL_HYBRID_EX: u32 = 8;

/// Marker for this client's deliberate trust policy: the TLS server
/// certificate is accepted without validation, so the handshake succeeds
/// against self-signed test servers. The caller installs this policy in
/// its TLS stack; nothing in the verified sequence depends on certificate
/// contents.
pub struct NoCertificateVerification {}

/// A set of RDP security protocols, as carried in the `requestedProtocols`
/// and `selectedProtocol` fields of the negotiation PDUs. The empty set
/// stands for standard RDP security.
#[derive(Clone, Copy, PartialEq, Eq, Structural, Debug)]
pub struct SecurityProtocol {
    pub flags: u32,
}

impl SecurityProtocol {
    /// The protocol set containing exactly the given wire bits.
    pub fn new(flags: u32) -> (r: SecurityProtocol)
        ensures
            r.flags == flags,
    {
        SecurityProtocol { flags }
    }

    /// Standard RDP security: no TLS, no CredSSP.
    pub fn standard() -> (r: SecurityProtocol)
        ensures
            r.flags == 0,
    {
        SecurityProtocol { flags: 0 }
    }

    /// True when every protocol bit of `self` is also in `other`.
    pub open spec fn spec_subset_of(self, other: SecurityProtocol) -> bool {
        self.flags & other.flags == self.flags
    }

    /// True when the set requires a TLS upgrade (TLS itself or either
    /// CredSSP mode, which runs over TLS).
    pub open spec fn spec_requires_tls(self) -> bool {
        self.flags & (PROTOCOL_SSL | PROTOCOL_HYBRID | PROTOCOL_HYBRID_EX) != 0
    }

    /// True when the set includes a CredSSP (hybrid) mode.
    pub open spec fn spec_includes_hybrid(self) -> bool {
        self.flags & (PROTOCOL_HYBRID | PROTOCOL_HYBRID_EX) != 0
    }

    /// True when the set includes the extended CredSSP mode.
    pub open spec fn spec_includes_hybrid_ex(self) -> bool {
        self.flags & PROTOCOL_HYBRID_EX != 0
    }

    pub fn subset_of(self, other: SecurityProtocol) -> (r: bool)
        ensures
            r == self.spec_subset_of(other),
    {
        self.flags & other.flags == self.flags
    }

    pub fn requires_tls(self) -> (r: bool)
        ensures
            r == self.spec_requires_tls(),
    {
        self.flags & (PROTOCOL_SSL | PROTOCOL_HYBRID | PROTOCOL_HYBRID_EX) != 0
    }

    pub fn includes_hybrid(self) -> (r: bool)
        ensures
            r == self.spec_includes_hybrid(),
    {
        self.flags & (PROTOCOL_HYBRID | PROTOCOL_HYBRID_EX) != 0
    }

    pub fn includes_hybrid_ex(self) -> (r: bool)
        ensures
            r == self.spec_includes_hybrid_ex(),
    {
        self.flags & PROTOCOL_HYBRID_EX != 0
    }
}

} // verus!
