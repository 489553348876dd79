//! The resolved configuration the connection sequence runs under. It is
//! fixed before the sequence starts and never mutated while it runs.

use vstd::prelude::*;
use crate::SecurityProtocol;

verus! {

/// The credentials CredSSP authenticates with and the Client-Info PDU
/// carries.
pub struct Credentials {
    /// The account name; also sent as the negotiation routing cookie.
    pub username: Vec<u8>,
    /// The account password.
    pub password: Vec<u8>,
    /// The account domain, when one is set.
    pub domain: Option<Vec<u8>>,
}

/// Everything the sequence needs, resolved before it starts: the security
/// protocols to offer, the credentials, the static channels to request,
/// and the capability data the capability exchange forwards opaquely.
pub struct Config {
    /// The protocol set advertised in the negotiation request.
    pub security_protocol: SecurityProtocol,
    /// The credentials used by CredSSP and Client-Info.
    pub credentials: Credentials,
    /// The names of the static channels to request beyond the mandatory
    /// global and user channels.
    pub static_channels: Vec<Vec<u8>>,
    /// The combined capability data sent in Confirm-Active.
    pub capability_data: Vec<u8>,
}

} // verus!
