//! The RDP application framing and phase PDUs: Share-Control and
//! Share-Data envelopes, the server licensing result, the capability
//! exchange, and the finalization sequence.

use vstd::prelude::*;
use crate::bytes::{
    lemma_u16_le_round, lemma_u32_le_round, push_all, push_u16_le, push_u32_le, read_u16_le,
    read_u32_le, spec_read_u16_le, spec_read_u32_le, spec_u16_le, spec_u32_le, sub_vec,
};
use crate::error::RdpError;

verus! {

/// Share-Control PDU type of a Demand-Active PDU.
pub const PDU_TYPE_DEMAND_ACTIVE: u8 = 1;

/// Share-Control PDU type of a Confirm-Active PDU.
pub const PDU_TYPE_CONFIRM_ACTIVE: u8 = 3;

/// Share-Control PDU type of a Share-Data PDU.
pub const PDU_TYPE_DATA: u8 = 7;

/// Share-Data PDU type of a Control PDU.
pub const PDU_TYPE2_CONTROL: u8 = 20;

/// Share-Data PDU type of a Synchronize PDU.
pub const PDU_TYPE2_SYNCHRONIZE: u8 = 31;

/// Share-Data PDU type of a Font-List PDU.
pub const PDU_TYPE2_FONT_LIST: u8 = 39;

/// Share-Data PDU type of a Font-Map PDU.
pub const PDU_TYPE2_FONT_MAP: u8 = 40;

/// Control PDU action requesting control.
pub const CONTROL_ACTION_REQUEST_CONTROL: u16 = 1;

/// Control PDU action granting control.
pub const CONTROL_ACTION_GRANTED_CONTROL: u16 = 2;

/// Control PDU action announcing cooperation.
pub const CONTROL_ACTION_COOPERATE: u16 = 4;

/// A Share-Control envelope: total length, the 4-bit PDU type beside
/// protocol version one, and the PDU source, all little-endian, around the
/// payload.
pub open spec fn spec_share_control_encode(
    pdu_type: u8,
    pdu_source: u16,
    payload: Seq<u8>,
) -> Seq<u8> {
    spec_u16_le((payload.len() + 6) as u16) + spec_u16_le((pdu_type as u16) | 0x10) + spec_u16_le(
        pdu_source,
    ) + payload
}

/// Strips a Share-Control envelope: the total length must match the
/// buffer and the version nibble must be one. Gives the PDU type, the PDU
/// source and the payload.
pub open spec fn spec_share_control_decode(b: Seq<u8>) -> Option<(u8, u16, Seq<u8>)> {
    if b.len() >= 6 && spec_read_u16_le(b[0], b[1]) == b.len() && (spec_read_u16_le(b[2], b[3])
        & 0xFFF0) == 0x10 {
        Some(
            (
                (spec_read_u16_le(b[2], b[3]) & 0xF) as u8,
                spec_read_u16_le(b[4], b[5]),
                b.subrange(6, b.len() as int),
            ),
        )
    } else {
        None
    }
}

/// A payload wrapped in a Share-Control envelope is given back unchanged,
/// with its type and source, when the envelope is stripped.
pub proof fn lemma_share_control_round_trip(pdu_type: u8, pdu_source: u16, payload: Seq<u8>)
    requires
        pdu_type < 16,
        payload.len() + 6 <= 0xFFFF,
    ensures
        spec_share_control_decode(spec_share_control_encode(pdu_type, pdu_source, payload))
            == Some((pdu_type, pdu_source, payload)),
{
    let e = spec_share_control_encode(pdu_type, pdu_source, payload);
    lemma_u16_le_round((payload.len() + 6) as u16);
    lemma_u16_le_round((pdu_type as u16) | 0x10);
    lemma_u16_le_round(pdu_source);
    let t: u16 = pdu_type as u16;
    assert(t < 16 ==> (((t | 0x10) & 0xFFF0) == 0x10 && ((t | 0x10) & 0xF) == t)) by (bit_vector);
    assert(e.subrange(6, e.len() as int) =~= payload);
}

/// Wraps a payload in a Share-Control envelope.
pub fn share_control_encode(pdu_type: u8, pdu_source: u16, payload: &Vec<u8>) -> (r: Vec<u8>)
    requires
        pdu_type < 16,
        payload@.len() + 6 <= 0xFFFF,
    ensures
        r@ == spec_share_control_encode(pdu_type, pdu_source, payload@),
{
    let mut out: Vec<u8> = Vec::new();
    push_u16_le(&mut out, (payload.len() + 6) as u16);
    push_u16_le(&mut out, (pdu_type as u16) | 0x10);
    push_u16_le(&mut out, pdu_source);
    push_all(&mut out, payload);
    proof {
        assert(out@ =~= spec_share_control_encode(pdu_type, pdu_source, payload@));
    }
    out
}

/// Strips a Share-Control envelope; a malformed one is a Share-Control
/// header fault.
pub fn share_control_decode(bytes: &Vec<u8>) -> (r: Result<(u8, u16, Vec<u8>), RdpError>)
    ensures
        match r {
            Ok(p) => spec_share_control_decode(bytes@) == Some((p.0, p.1, p.2@)),
            Err(e) => spec_share_control_decode(bytes@) is None && e
                == RdpError::ShareControlHeaderError,
        },
{
    let n: usize = bytes.len();
    if n < 6 {
        return Err(RdpError::ShareControlHeaderError);
    }
    let total: u16 = read_u16_le(bytes, 0);
    if total as usize != n {
        return Err(RdpError::ShareControlHeaderError);
    }
    let type_field: u16 = read_u16_le(bytes, 2);
    if type_field & 0xFFF0 != 0x10 {
        return Err(RdpError::ShareControlHeaderError);
    }
    let source: u16 = read_u16_le(bytes, 4);
    proof {
        assert((type_field & 0xF) < 16) by (bit_vector);
    }
    Ok(((type_field & 0xF) as u8, source, sub_vec(bytes, 6, n)))
}

/// A Share-Data header after the Share-Control fields: share id, padding,
/// stream id, the uncompressed length, the PDU subtype, and the (empty)
/// compression fields, around the payload.
pub open spec fn spec_share_data_encode(
    share_id: u32,
    stream_id: u8,
    pdu_type2: u8,
    payload: Seq<u8>,
) -> Seq<u8> {
    spec_u32_le(share_id) + seq![0u8, stream_id] + spec_u16_le((payload.len() + 18) as u16)
        + seq![pdu_type2, 0u8] + spec_u16_le(0u16) + payload
}

/// Strips a Share-Data header, refusing compressed payloads. Gives the
/// share id, the stream id, the PDU subtype and the payload.
pub open spec fn spec_share_data_decode(b: Seq<u8>) -> Option<(u32, u8, u8, Seq<u8>)> {
    if b.len() >= 12 && b[9] == 0 {
        Some(
            (
                spec_read_u32_le(b[0], b[1], b[2], b[3]),
                b[5],
                b[8],
                b.subrange(12, b.len() as int),
            ),
        )
    } else {
        None
    }
}

/// A payload wrapped in a Share-Data header is given back unchanged, with
/// its share id, stream id and subtype, when the header is stripped.
pub proof fn lemma_share_data_round_trip(
    share_id: u32,
    stream_id: u8,
    pdu_type2: u8,
    payload: Seq<u8>,
)
    requires
        payload.len() + 18 <= 0xFFFF,
    ensures
        spec_share_data_decode(spec_share_data_encode(share_id, stream_id, pdu_type2, payload))
            == Some((share_id, stream_id, pdu_type2, payload)),
{
    let e = spec_share_data_encode(share_id, stream_id, pdu_type2, payload);
    lemma_u32_le_round(share_id);
    lemma_u16_le_round((payload.len() + 18) as u16);
    lemma_u16_le_round(0u16);
    assert(e.subrange(12, e.len() as int) =~= payload);
}

/// Wraps a payload in a Share-Data header.
pub fn share_data_encode(share_id: u32, stream_id: u8, pdu_type2: u8, payload: &Vec<u8>) -> (r:
    Vec<u8>)
    requires
        payload@.len() + 18 <= 0xFFFF,
    ensures
        r@ == spec_share_data_encode(share_id, stream_id, pdu_type2, payload@),
{
    let mut out: Vec<u8> = Vec::new();
    push_u32_le(&mut out, share_id);
    out.push(0u8);
    out.push(stream_id);
    push_u16_le(&mut out, (payload.len() + 18) as u16);
    out.push(pdu_type2);
    out.push(0u8);
    push_u16_le(&mut out, 0u16);
    push_all(&mut out, payload);
    proof {
        assert(out@ =~= spec_share_data_encode(share_id, stream_id, pdu_type2, payload@));
    }
    out
}

/// Strips a Share-Data header; a malformed or compressed one is an
/// unexpected PDU.
pub fn share_data_decode(bytes: &Vec<u8>) -> (r: Result<(u32, u8, u8, Vec<u8>), RdpError>)
    ensures
        match r {
            Ok(p) => spec_share_data_decode(bytes@) == Some((p.0, p.1, p.2, p.3@)),
            Err(e) => spec_share_data_decode(bytes@) is None && e == RdpError::UnexpectedPdu,
        },
{
    let n: usize = bytes.len();
    if n < 12 {
        return Err(RdpError::UnexpectedPdu);
    }
    if bytes[9] != 0 {
        return Err(RdpError::UnexpectedPdu);
    }
    let share_id: u32 = read_u32_le(bytes, 0);
    Ok((share_id, bytes[5], bytes[8], sub_vec(bytes, 12, n)))
}

/// True when a licensing payload reports that the client may proceed: a
/// basic security header with the license flag, followed either by a
/// New-License message or by an Error-Alert whose code is
/// status-valid-client.
pub open spec fn spec_license_accepted(b: Seq<u8>) -> bool {
    &&& b.len() >= 8
    &&& spec_read_u16_le(b[0], b[1]) & 0x80 != 0
    &&& (b[4] == 3 || (b[4] == 0xFF && b.len() >= 16 && spec_read_u32_le(b[8], b[9], b[10], b[11])
        == 7))
}

/// Validates the server licensing result. `Ok` exactly when the payload
/// carries a license message that lets the session proceed; anything else
/// is a server license fault.
pub fn process_server_license(bytes: &Vec<u8>) -> (r: Result<(), RdpError>)
    ensures
        match r {
            Ok(u) => spec_license_accepted(bytes@),
            Err(e) => e == RdpError::ServerLicenseError && !spec_license_accepted(bytes@),
        },
{
    let n: usize = bytes.len();
    if n < 8 {
        return Err(RdpError::ServerLicenseError);
    }
    let flags: u16 = read_u16_le(bytes, 0);
    if flags & 0x80 == 0 {
        return Err(RdpError::ServerLicenseError);
    }
    if bytes[4] == 3 {
        return Ok(());
    }
    if bytes[4] == 0xFF && n >= 16 {
        let code: u32 = read_u32_le(bytes, 8);
        if code == 7 {
            return Ok(());
        }
    }
    Err(RdpError::ServerLicenseError)
}

/// Extracts the share id from a Demand-Active body whose declared source
/// descriptor and capability lengths, together with the mandatory trailing
/// four-byte session id, cover the buffer exactly; `None` otherwise.
pub open spec fn spec_demand_active_share_id(b: Seq<u8>) -> Option<u32> {
    if b.len() >= 12 && b.len() == 12 + spec_read_u16_le(b[4], b[5]) + spec_read_u16_le(
        b[6],
        b[7],
    ) {
        Some(spec_read_u32_le(b[0], b[1], b[2], b[3]))
    } else {
        None
    }
}

/// Validates the shape of the server's Demand-Active body and returns its
/// share id; a mis-shaped body is a capability-exchange fault.
pub fn process_demand_active(body: &Vec<u8>) -> (r: Result<u32, RdpError>)
    ensures
        match r {
            Ok(id) => spec_demand_active_share_id(body@) == Some(id),
            Err(e) => spec_demand_active_share_id(body@) is None && e
                == RdpError::CapabilitySetsError,
        },
{
    let n: usize = body.len();
    if n < 12 {
        return Err(RdpError::CapabilitySetsError);
    }
    let src_len: u16 = read_u16_le(body, 4);
    let caps_len: u16 = read_u16_le(body, 6);
    if n != 12 + src_len as usize + caps_len as usize {
        return Err(RdpError::CapabilitySetsError);
    }
    Ok(read_u32_le(body, 0))
}

/// The Confirm-Active body: the share id, the originator id, a four-byte
/// source descriptor, and the combined capability data taken opaquely
/// from configuration.
pub open spec fn spec_confirm_active_encode(share_id: u32, capabilities: Seq<u8>) -> Seq<u8> {
    spec_u32_le(share_id) + spec_u16_le(0x03EA) + spec_u16_le(4u16) + spec_u16_le(
        capabilities.len() as u16,
    ) + seq![77u8, 83u8, 84u8, 67u8] + capabilities
}

/// Builds the Confirm-Active body around configuration-derived capability
/// data.
pub fn confirm_active_encode(share_id: u32, capabilities: &Vec<u8>) -> (r: Vec<u8>)
    requires
        capabilities@.len() <= 0xFFFF,
    ensures
        r@ == spec_confirm_active_encode(share_id, capabilities@),
{
    let mut out: Vec<u8> = Vec::new();
    push_u32_le(&mut out, share_id);
    push_u16_le(&mut out, 0x03EA);
    push_u16_le(&mut out, 4u16);
    push_u16_le(&mut out, capabilities.len() as u16);
    out.push(77u8);
    out.push(83u8);
    out.push(84u8);
    out.push(67u8);
    push_all(&mut out, capabilities);
    proof {
        assert(out@ =~= spec_confirm_active_encode(share_id, capabilities@));
    }
    out
}

/// Where the client stands in the fixed finalization exchange. Each step
/// sends one PDU and waits for the server's answer before the next.
#[derive(Clone, Copy, PartialEq, Eq, Structural, Debug)]
pub enum FinalizationStep {
    /// Send Synchronize, await the server's Synchronize.
    Synchronize,
    /// Send Control cooperate, await the server's cooperate.
    ControlCooperate,
    /// Send Control request-control, await granted-control.
    RequestControl,
    /// Send the Font-List, await the Font-Map.
    FontList,
    /// The exchange is complete.
    Done,
}

/// The Share-Data subtype and, for Control PDUs, the action the client
/// sends at each finalization step; nothing remains to send when done.
pub fn finalization_pdu_to_send(step: &FinalizationStep) -> (r: Option<(u8, u16)>)
    ensures
        r == (match *step {
            FinalizationStep::Synchronize => Some((PDU_TYPE2_SYNCHRONIZE, 0u16)),
            FinalizationStep::ControlCooperate => Some(
                (PDU_TYPE2_CONTROL, CONTROL_ACTION_COOPERATE),
            ),
            FinalizationStep::RequestControl => Some(
                (PDU_TYPE2_CONTROL, CONTROL_ACTION_REQUEST_CONTROL),
            ),
            FinalizationStep::FontList => Some((PDU_TYPE2_FONT_LIST, 0u16)),
            FinalizationStep::Done => None,
        }),
{
    match step {
        FinalizationStep::Synchronize => Some((PDU_TYPE2_SYNCHRONIZE, 0u16)),
        FinalizationStep::ControlCooperate => Some((PDU_TYPE2_CONTROL, CONTROL_ACTION_COOPERATE)),
        FinalizationStep::RequestControl => Some(
            (PDU_TYPE2_CONTROL, CONTROL_ACTION_REQUEST_CONTROL),
        ),
        FinalizationStep::FontList => Some((PDU_TYPE2_FONT_LIST, 0u16)),
        FinalizationStep::Done => None,
    }
}

/// The control action carried by a Control PDU body, when it is long
/// enough to hold one.
pub open spec fn spec_control_action_of(body: Seq<u8>) -> Option<u16> {
    if body.len() >= 2 {
        Some(spec_read_u16_le(body[0], body[1]))
    } else {
        None
    }
}

/// Reads the action field of a Control PDU body.
pub fn control_action_of(body: &Vec<u8>) -> (r: Option<u16>)
    ensures
        r == spec_control_action_of(body@),
{
    if body.len() >= 2 {
        Some(read_u16_le(body, 0))
    } else {
        None
    }
}

/// The next finalization step after the server's answer: the wrong
/// subtype is an unexpected PDU; a Control PDU with the wrong action is
/// an invalid response; after the exchange is done nothing more may
/// arrive.
pub open spec fn spec_finalization_advance(
    step: FinalizationStep,
    received_type2: u8,
    control_action: u16,
) -> Result<FinalizationStep, RdpError> {
    match step {
        FinalizationStep::Synchronize => if received_type2 == PDU_TYPE2_SYNCHRONIZE {
            Ok(FinalizationStep::ControlCooperate)
        } else {
            Err(RdpError::UnexpectedPdu)
        },
        FinalizationStep::ControlCooperate => if received_type2 == PDU_TYPE2_CONTROL {
            if control_action == CONTROL_ACTION_COOPERATE {
                Ok(FinalizationStep::RequestControl)
            } else {
                Err(RdpError::InvalidResponse)
            }
        } else {
            Err(RdpError::UnexpectedPdu)
        },
        FinalizationStep::RequestControl => if received_type2 == PDU_TYPE2_CONTROL {
            if control_action == CONTROL_ACTION_GRANTED_CONTROL {
                Ok(FinalizationStep::FontList)
            } else {
                Err(RdpError::InvalidResponse)
            }
        } else {
            Err(RdpError::UnexpectedPdu)
        },
        FinalizationStep::FontList => if received_type2 == PDU_TYPE2_FONT_MAP {
            Ok(FinalizationStep::Done)
        } else {
            Err(RdpError::UnexpectedPdu)
        },
        FinalizationStep::Done => Err(RdpError::UnexpectedPdu),
    }
}

/// Advances the finalization exchange by one server answer.
pub fn finalization_advance(
    step: &FinalizationStep,
    received_type2: u8,
    control_action: u16,
) -> (r: Result<FinalizationStep, RdpError>)
    ensures
        r == spec_finalization_advance(*step, received_type2, control_action),
{
    match step {
        FinalizationStep::Synchronize => if received_type2 == PDU_TYPE2_SYNCHRONIZE {
            Ok(FinalizationStep::ControlCooperate)
        } else {
            Err(RdpError::UnexpectedPdu)
        },
        FinalizationStep::ControlCooperate => if received_type2 == PDU_TYPE2_CONTROL {
            if control_action == CONTROL_ACTION_COOPERATE {
                Ok(FinalizationStep::RequestControl)
            } else {
                Err(RdpError::InvalidResponse)
            }
        } else {
            Err(RdpError::UnexpectedPdu)
        },
        FinalizationStep::RequestControl => if received_type2 == PDU_TYPE2_CONTROL {
            if control_action == CONTROL_ACTION_GRANTED_CONTROL {
                Ok(FinalizationStep::FontList)
            } else {
                Err(RdpError::InvalidResponse)
            }
        } else {
            Err(RdpError::UnexpectedPdu)
        },
        FinalizationStep::FontList => if received_type2 == PDU_TYPE2_FONT_MAP {
            Ok(FinalizationStep::Done)
        } else {
            Err(RdpError::UnexpectedPdu)
        },
        FinalizationStep::Done => Err(RdpError::UnexpectedPdu),
    }
}

/// The Synchronize PDU body: message type one, then the target user id.
pub fn synchronize_encode(target_user_id: u16) -> (r: Vec<u8>)
    ensures
        r@ == spec_u16_le(1u16) + spec_u16_le(target_user_id),
{
    let mut out: Vec<u8> = Vec::new();
    push_u16_le(&mut out, 1u16);
    push_u16_le(&mut out, target_user_id);
    out
}

/// A Control PDU body: the action, no grant id, no control id.
pub fn control_encode(action: u16) -> (r: Vec<u8>)
    ensures
        r@ == spec_u16_le(action) + spec_u16_le(0u16) + spec_u32_le(0u32),
{
    let mut out: Vec<u8> = Vec::new();
    push_u16_le(&mut out, action);
    push_u16_le(&mut out, 0u16);
    push_u32_le(&mut out, 0u32);
    out
}

/// The Font-List PDU body: no fonts, list flags two (last), entry size 50.
pub fn font_list_encode() -> (r: Vec<u8>)
    ensures
        r@ == spec_u16_le(0u16) + spec_u16_le(0u16) + spec_u16_le(2u16) + spec_u16_le(50u16),
{
    let mut out: Vec<u8> = Vec::new();
    push_u16_le(&mut out, 0u16);
    push_u16_le(&mut out, 0u16);
    push_u16_le(&mut out, 2u16);
    push_u16_le(&mut out, 50u16);
    out
}

} // verus!
