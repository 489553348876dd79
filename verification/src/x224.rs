//! The TPKT/X.224 framing layer and the X.224 connection
//! request/confirm exchange that carries RDP protocol negotiation.

use vstd::prelude::*;
use crate::bytes::{
    lemma_u16_be_round, push_all, push_u16_be, push_u32_le, read_u16_be, read_u16_le, read_u32_le,
    spec_read_u16_be, spec_read_u16_le, spec_read_u32_le, spec_u16_be, spec_u32_le, sub_vec,
};
use crate::error::RdpError;
use crate::SecurityProtocol;

verus! {

/// X.224 data transfer code with EOT bit.
pub const X224_DATA_CODE: u8 = 0xF0;

/// X.224 connection request code.
pub const X224_CONNECTION_REQUEST_CODE: u8 = 0xE0;

/// X.224 connection confirm code.
pub const X224_CONNECTION_CONFIRM_CODE: u8 = 0xD0;

/// RDP negotiation response message type.
pub const NEGO_RESPONSE_TYPE: u8 = 2;

/// RDP negotiation failure message type.
pub const NEGO_FAILURE_TYPE: u8 = 3;

/// A TPKT header and an X.224 data-transfer header around the payload:
/// version 3, reserved 0, total length big-endian, then length indicator 2,
/// the data code, and the end-of-transmission mark.
pub open spec fn spec_x224_data_encode(payload: Seq<u8>) -> Seq<u8> {
    seq![3u8, 0u8] + spec_u16_be((payload.len() + 7) as u16) + seq![2u8, X224_DATA_CODE, 0x80u8]
        + payload
}

/// Strips and validates a TPKT/X.224 data envelope; `None` when the
/// envelope is truncated or structurally invalid.
pub open spec fn spec_x224_data_decode(b: Seq<u8>) -> Option<Seq<u8>> {
    if b.len() >= 7 && b[0] == 3 && b[1] == 0 && spec_read_u16_be(b[2], b[3]) == b.len() && b[4]
        == 2 && b[5] == X224_DATA_CODE && b[6] == 0x80 {
        Some(b.subrange(7, b.len() as int))
    } else {
        None
    }
}

/// A payload wrapped by the TPKT/X.224 data layer is given back unchanged
/// when its envelope is stripped.
pub proof fn lemma_x224_data_round_trip(payload: Seq<u8>)
    requires
        payload.len() + 7 <= 0xFFFF,
    ensures
        spec_x224_data_decode(spec_x224_data_encode(payload)) == Some(payload),
{
    let e = spec_x224_data_encode(payload);
    lemma_u16_be_round((payload.len() + 7) as u16);
    assert(e.subrange(7, e.len() as int) =~= payload);
}

/// Wraps a payload in the TPKT/X.224 data envelope.
pub fn x224_data_encode(payload: &Vec<u8>) -> (r: Vec<u8>)
    requires
        payload@.len() + 7 <= 0xFFFF,
    ensures
        r@ == spec_x224_data_encode(payload@),
{
    let total: u16 = (payload.len() + 7) as u16;
    let mut out: Vec<u8> = Vec::new();
    out.push(3u8);
    out.push(0u8);
    push_u16_be(&mut out, total);
    out.push(2u8);
    out.push(X224_DATA_CODE);
    out.push(0x80u8);
    push_all(&mut out, payload);
    proof {
        assert(out@ =~= spec_x224_data_encode(payload@));
    }
    out
}

/// Strips the TPKT/X.224 data envelope, rejecting truncated or invalid
/// framing as an unexpected PDU.
pub fn x224_data_decode(bytes: &Vec<u8>) -> (r: Result<Vec<u8>, RdpError>)
    ensures
        match r {
            Ok(p) => spec_x224_data_decode(bytes@) == Some(p@),
            Err(e) => spec_x224_data_decode(bytes@) is None && e == RdpError::UnexpectedPdu,
        },
{
    let n: usize = bytes.len();
    if n < 7 {
        return Err(RdpError::UnexpectedPdu);
    }
    if bytes[0] != 3 || bytes[1] != 0 {
        return Err(RdpError::UnexpectedPdu);
    }
    let total: u16 = read_u16_be(bytes, 2);
    if total as usize != n {
        return Err(RdpError::UnexpectedPdu);
    }
    if bytes[4] != 2 || bytes[5] != X224_DATA_CODE || bytes[6] != 0x80 {
        return Err(RdpError::UnexpectedPdu);
    }
    Ok(sub_vec(bytes, 7, n))
}

/// The fixed cookie tag sent in the connection request before the
/// user name.
pub open spec fn spec_cookie_prefix() -> Seq<u8> {
    seq![
        67u8, 111u8, 111u8, 107u8, 105u8, 101u8, 58u8, 32u8, 109u8, 115u8, 116u8, 115u8, 104u8,
        97u8, 115u8, 104u8, 61u8,
    ]
}

/// The X.224 connection request advertising the requested protocols:
/// TPKT, connection-request header, the routing cookie built from the
/// user name, and the negotiation request structure.
pub open spec fn spec_nego_request_encode(username: Seq<u8>, protocols: u32) -> Seq<u8> {
    seq![3u8, 0u8] + spec_u16_be((username.len() + 38) as u16) + seq![
        (username.len() + 33) as u8,
        X224_CONNECTION_REQUEST_CODE,
        0u8,
        0u8,
        0u8,
        0u8,
        0u8,
    ] + spec_cookie_prefix() + username + seq![13u8, 10u8] + seq![1u8, 0u8, 8u8, 0u8]
        + spec_u32_le(protocols)
}

/// Builds the X.224 connection request for the given user name and
/// requested protocol set.
pub fn nego_request_encode(username: &Vec<u8>, protocols: SecurityProtocol) -> (r: Vec<u8>)
    requires
        username@.len() <= 221,
    ensures
        r@ == spec_nego_request_encode(username@, protocols.flags),
{
    let mut out: Vec<u8> = Vec::new();
    out.push(3u8);
    out.push(0u8);
    push_u16_be(&mut out, (username.len() + 38) as u16);
    out.push((username.len() + 33) as u8);
    out.push(X224_CONNECTION_REQUEST_CODE);
    out.push(0u8);
    out.push(0u8);
    out.push(0u8);
    out.push(0u8);
    out.push(0u8);
    out.push(67u8);
    out.push(111u8);
    out.push(111u8);
    out.push(107u8);
    out.push(105u8);
    out.push(101u8);
    out.push(58u8);
    out.push(32u8);
    out.push(109u8);
    out.push(115u8);
    out.push(116u8);
    out.push(115u8);
    out.push(104u8);
    out.push(97u8);
    out.push(115u8);
    out.push(104u8);
    out.push(61u8);
    push_all(&mut out, username);
    out.push(13u8);
    out.push(10u8);
    out.push(1u8);
    out.push(0u8);
    out.push(8u8);
    out.push(0u8);
    push_u32_le(&mut out, protocols.flags);
    proof {
        assert(out@ =~= spec_nego_request_encode(username@, protocols.flags));
    }
    out
}

/// What a structurally valid connection confirm says: either the protocol
/// the server selected, or an explicit negotiation failure code.
#[derive(Clone, Copy, PartialEq, Eq, Structural, Debug)]
pub enum NegoConfirm {
    /// The server selected this protocol set.
    Selected(u32),
    /// The server answered with this negotiation failure code.
    Failure(u32),
}

/// Parses an X.224 connection confirm. A confirm without a negotiation
/// structure selects standard RDP security; one with a response or failure
/// structure carries its value; anything else is structurally invalid.
pub open spec fn spec_nego_confirm_decode(b: Seq<u8>) -> Option<NegoConfirm> {
    if b.len() >= 11 && b[0] == 3 && b[1] == 0 && spec_read_u16_be(b[2], b[3]) == b.len() && b[4]
        >= 6 && b[5] == X224_CONNECTION_CONFIRM_CODE {
        if b.len() == 11 {
            Some(NegoConfirm::Selected(0))
        } else if b.len() == 19 && spec_read_u16_le(b[13], b[14]) == 8 {
            if b[11] == NEGO_RESPONSE_TYPE {
                Some(NegoConfirm::Selected(spec_read_u32_le(b[15], b[16], b[17], b[18])))
            } else if b[11] == NEGO_FAILURE_TYPE {
                Some(NegoConfirm::Failure(spec_read_u32_le(b[15], b[16], b[17], b[18])))
            } else {
                None
            }
        } else {
            None
        }
    } else {
        None
    }
}

/// Parses the connection confirm bytes, rejecting malformed envelopes.
pub fn nego_confirm_decode(bytes: &Vec<u8>) -> (r: Result<NegoConfirm, RdpError>)
    ensures
        match r {
            Ok(c) => spec_nego_confirm_decode(bytes@) == Some(c),
            Err(e) => spec_nego_confirm_decode(bytes@) is None && e == RdpError::X224Error,
        },
{
    let n: usize = bytes.len();
    if n < 11 {
        return Err(RdpError::X224Error);
    }
    if bytes[0] != 3 || bytes[1] != 0 {
        return Err(RdpError::X224Error);
    }
    let total: u16 = read_u16_be(bytes, 2);
    if total as usize != n {
        return Err(RdpError::X224Error);
    }
    if bytes[4] < 6 || bytes[5] != X224_CONNECTION_CONFIRM_CODE {
        return Err(RdpError::X224Error);
    }
    if n == 11 {
        return Ok(NegoConfirm::Selected(0));
    }
    if n != 19 {
        return Err(RdpError::X224Error);
    }
    let len: u16 = read_u16_le(bytes, 13);
    if len != 8 {
        return Err(RdpError::X224Error);
    }
    let value: u32 = read_u32_le(bytes, 15);
    if bytes[11] == NEGO_RESPONSE_TYPE {
        Ok(NegoConfirm::Selected(value))
    } else if bytes[11] == NEGO_FAILURE_TYPE {
        Ok(NegoConfirm::Failure(value))
    } else {
        Err(RdpError::X224Error)
    }
}

/// Reads the server's connection confirm and checks the selected protocol
/// against what was requested. The result is `Ok` exactly when the confirm
/// is well formed, carries a selection rather than a failure code, and that
/// selection is a subset of the requested set; the selected protocol is
/// never one that was not offered.
pub fn process_negotiation_response(requested: SecurityProtocol, bytes: &Vec<u8>) -> (r: Result<
    SecurityProtocol,
    RdpError,
>)
    ensures
        match r {
            Ok(sel) => spec_nego_confirm_decode(bytes@) == Some(NegoConfirm::Selected(sel.flags))
                && sel.spec_subset_of(requested),
            Err(e) => match spec_nego_confirm_decode(bytes@) {
                Option::None => e == RdpError::X224Error,
                Option::Some(NegoConfirm::Failure(_)) => e == RdpError::NegotiationError,
                Option::Some(NegoConfirm::Selected(f)) => e == RdpError::NegotiationError && !(
                SecurityProtocol { flags: f }).spec_subset_of(requested),
            },
        },
{
    let confirm: NegoConfirm = match nego_confirm_decode(bytes) {
        Ok(c) => c,
        Err(e) => {
            return Err(e);
        },
    };
    match confirm {
        NegoConfirm::Failure(_) => Err(RdpError::NegotiationError),
        NegoConfirm::Selected(flags) => {
            let selected = SecurityProtocol { flags };
            if selected.subset_of(requested) {
                Ok(selected)
            } else {
                Err(RdpError::NegotiationError)
            }
        },
    }
}

} // verus!
