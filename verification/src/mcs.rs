//! The MCS (T.125) layer: the Send-Data framing used by every later phase,
//! domain establishment, the Connect-Response check, and the channel-join
//! bookkeeping that produces the joined static channel mapping.

use vstd::prelude::*;
use crate::bytes::{
    push_all, push_u16_be, read_u16_be, spec_read_u16_be, spec_u16_be, sub_vec,
};
use crate::error::RdpError;

verus! {

/// T.125 Send-Data-Request application tag, shifted into a PER choice byte.
pub const SEND_DATA_REQUEST_CHOICE: u8 = 0x64;

/// T.125 Send-Data-Indication application tag, shifted into a PER choice byte.
pub const SEND_DATA_INDICATION_CHOICE: u8 = 0x68;

/// T.125 Erect-Domain-Request choice byte.
pub const ERECT_DOMAIN_CHOICE: u8 = 0x04;

/// T.125 Attach-User-Request choice byte.
pub const ATTACH_USER_REQUEST_CHOICE: u8 = 0x28;

/// T.125 Attach-User-Confirm choice byte, with the initiator-present option.
pub const ATTACH_USER_CONFIRM_CHOICE: u8 = 0x2E;

/// T.125 Channel-Join-Request choice byte.
pub const CHANNEL_JOIN_REQUEST_CHOICE: u8 = 0x38;

/// T.125 Channel-Join-Confirm choice byte, with the channel-present option.
pub const CHANNEL_JOIN_CONFIRM_CHOICE: u8 = 0x3E;

/// T.125 user ids and dynamic channel ids start here; the wire carries the
/// id minus this base.
pub const BASE_CHANNEL_ID: u16 = 1001;

/// The fixed data-priority and segmentation byte of a send-data PDU.
pub const SEND_DATA_PRIORITY_AND_SEGMENTATION: u8 = 0x70;

/// A PER length determinant: one byte below 0x80, otherwise two bytes with
/// the high bit of the first set.
pub open spec fn spec_per_length(n: nat) -> Seq<u8> {
    if n < 0x80 {
        seq![n as u8]
    } else {
        seq![(0x80 + n / 256) as u8, (n % 256) as u8]
    }
}

/// An MCS Send-Data envelope: choice byte, initiator id (offset from the
/// channel base), channel id, the data-priority byte, and the PER length
/// of the payload.
pub open spec fn spec_mcs_send_data_encode(
    choice: u8,
    initiator_id: u16,
    channel_id: u16,
    payload: Seq<u8>,
) -> Seq<u8> {
    seq![choice] + spec_u16_be((initiator_id - BASE_CHANNEL_ID) as u16) + spec_u16_be(channel_id)
        + seq![SEND_DATA_PRIORITY_AND_SEGMENTATION] + spec_per_length(payload.len()) + payload
}

/// Strips an MCS Send-Data envelope with the given choice byte; `None`
/// when the envelope is truncated, mis-tagged, or its length determinant
/// disagrees with the buffer. The data-priority and segmentation byte is
/// skipped, not validated.
pub open spec fn spec_mcs_send_data_decode(choice: u8, b: Seq<u8>) -> Option<(u16, u16, Seq<u8>)> {
    if b.len() >= 7 && b[0] == choice && spec_read_u16_be(b[1], b[2])
        <= 0xFFFF - BASE_CHANNEL_ID {
        let initiator_id = (spec_read_u16_be(b[1], b[2]) + BASE_CHANNEL_ID) as u16;
        let channel_id = spec_read_u16_be(b[3], b[4]);
        if b[6] < 0x80 {
            if b.len() == 7 + b[6] {
                Some((initiator_id, channel_id, b.subrange(7, b.len() as int)))
            } else {
                None
            }
        } else if b[6] < 0xC0 && b.len() >= 8 {
            if b.len() == 8 + (b[6] - 0x80) * 256 + b[7] {
                Some((initiator_id, channel_id, b.subrange(8, b.len() as int)))
            } else {
                None
            }
        } else {
            None
        }
    } else {
        None
    }
}

/// A payload wrapped in an MCS Send-Data envelope is given back unchanged,
/// with its addressing, when the envelope is stripped.
pub proof fn lemma_mcs_send_data_round_trip(
    choice: u8,
    initiator_id: u16,
    channel_id: u16,
    payload: Seq<u8>,
)
    requires
        BASE_CHANNEL_ID <= initiator_id,
        payload.len() < 0x4000,
    ensures
        spec_mcs_send_data_decode(choice, spec_mcs_send_data_encode(
            choice,
            initiator_id,
            channel_id,
            payload,
        )) == Some((initiator_id, channel_id, payload)),
{
    let e = spec_mcs_send_data_encode(choice, initiator_id, channel_id, payload);
    crate::bytes::lemma_u16_be_round((initiator_id - BASE_CHANNEL_ID) as u16);
    crate::bytes::lemma_u16_be_round(channel_id);
    if payload.len() < 0x80 {
        assert(e.len() == 7 + payload.len());
        assert(e.subrange(7, e.len() as int) =~= payload);
    } else {
        vstd::arithmetic::div_mod::lemma_fundamental_div_mod(payload.len() as int, 256);
        assert(e.len() == 8 + payload.len());
        assert(e[6] == (0x80 + payload.len() / 256) as u8);
        assert(e.subrange(8, e.len() as int) =~= payload);
    }
}

/// Appends a PER length determinant for `n`.
fn push_per_length(dst: &mut Vec<u8>, n: usize)
    requires
        n < 0x4000,
    ensures
        final(dst)@ == old(dst)@ + spec_per_length(n as nat),
{
    if n < 0x80 {
        dst.push(n as u8);
    } else {
        dst.push((0x80 + n / 256) as u8);
        dst.push((n % 256) as u8);
    }
    proof {
        assert(dst@ =~= old(dst)@ + spec_per_length(n as nat));
    }
}

/// Wraps a payload in an MCS Send-Data envelope.
pub fn mcs_send_data_encode(
    choice: u8,
    initiator_id: u16,
    channel_id: u16,
    payload: &Vec<u8>,
) -> (r: Vec<u8>)
    requires
        BASE_CHANNEL_ID <= initiator_id,
        payload@.len() < 0x4000,
    ensures
        r@ == spec_mcs_send_data_encode(choice, initiator_id, channel_id, payload@),
{
    let mut out: Vec<u8> = Vec::new();
    out.push(choice);
    push_u16_be(&mut out, initiator_id - BASE_CHANNEL_ID);
    push_u16_be(&mut out, channel_id);
    out.push(SEND_DATA_PRIORITY_AND_SEGMENTATION);
    push_per_length(&mut out, payload.len());
    push_all(&mut out, payload);
    proof {
        assert(out@ =~= spec_mcs_send_data_encode(choice, initiator_id, channel_id, payload@));
    }
    out
}

/// Strips an MCS Send-Data envelope, returning the initiator id, the
/// channel id and the payload; a malformed envelope is an unexpected PDU.
pub fn mcs_send_data_decode(choice: u8, bytes: &Vec<u8>) -> (r: Result<
    (u16, u16, Vec<u8>),
    RdpError,
>)
    ensures
        match r {
            Ok(p) => spec_mcs_send_data_decode(choice, bytes@) == Some((p.0, p.1, p.2@)),
            Err(e) => spec_mcs_send_data_decode(choice, bytes@) is None && e
                == RdpError::UnexpectedPdu,
        },
{
    let n: usize = bytes.len();
    if n < 7 {
        return Err(RdpError::UnexpectedPdu);
    }
    if bytes[0] != choice {
        return Err(RdpError::UnexpectedPdu);
    }
    let raw_initiator: u16 = read_u16_be(bytes, 1);
    if raw_initiator > 0xFFFF - BASE_CHANNEL_ID {
        return Err(RdpError::UnexpectedPdu);
    }
    let initiator_id: u16 = raw_initiator + BASE_CHANNEL_ID;
    let channel_id: u16 = read_u16_be(bytes, 3);
    let first: u8 = bytes[6];
    if first < 0x80 {
        if n == 7 + first as usize {
            Ok((initiator_id, channel_id, sub_vec(bytes, 7, n)))
        } else {
            Err(RdpError::UnexpectedPdu)
        }
    } else if first < 0xC0 && n >= 8 {
        let len: usize = (first - 0x80) as usize * 256 + bytes[7] as usize;
        if n == 8 + len {
            Ok((initiator_id, channel_id, sub_vec(bytes, 8, n)))
        } else {
            Err(RdpError::UnexpectedPdu)
        }
    } else {
        Err(RdpError::UnexpectedPdu)
    }
}

/// Validates the BER envelope and result code of an MCS Connect-Response:
/// application tag 102, a definite length that matches the buffer, and a
/// leading enumerated result. `None` when truncated or mis-shaped;
/// otherwise the result code (zero is rt-successful).
pub open spec fn spec_mcs_connect_response_result(b: Seq<u8>) -> Option<u8> {
    if b.len() >= 3 && b[0] == 0x7F && b[1] == 0x66 {
        if b[2] < 0x80 {
            spec_connect_response_body(b, 3, b[2] as nat)
        } else if b[2] == 0x81 && b.len() >= 4 {
            spec_connect_response_body(b, 4, b[3] as nat)
        } else if b[2] == 0x82 && b.len() >= 5 {
            spec_connect_response_body(b, 5, spec_read_u16_be(b[3], b[4]) as nat)
        } else {
            None
        }
    } else {
        None
    }
}

/// The body of a Connect-Response after its BER header: the declared
/// length must cover the rest of the buffer and open with an enumerated
/// result (tag 0x0A, length 1).
pub open spec fn spec_connect_response_body(b: Seq<u8>, hdr: nat, len: nat) -> Option<u8> {
    if b.len() == hdr + len && len >= 3 && b[hdr as int] == 0x0A && b[hdr as int + 1] == 1 {
        Some(b[hdr as int + 2])
    } else {
        None
    }
}

/// Checks the server's MCS Connect-Response. `Ok` exactly when the
/// envelope is well formed and the result code is rt-successful; a
/// truncated or mis-shaped response, or a non-zero result, is an MCS
/// connect failure.
pub fn process_mcs_connect_response(bytes: &Vec<u8>) -> (r: Result<(), RdpError>)
    ensures
        match r {
            Ok(u) => spec_mcs_connect_response_result(bytes@) == Some(0u8),
            Err(e) => e == RdpError::McsConnectError && spec_mcs_connect_response_result(bytes@)
                != Some(0u8),
        },
{
    let n: usize = bytes.len();
    if n < 3 {
        return Err(RdpError::McsConnectError);
    }
    if bytes[0] != 0x7F || bytes[1] != 0x66 {
        return Err(RdpError::McsConnectError);
    }
    let hdr: usize;
    let len: usize;
    if bytes[2] < 0x80 {
        hdr = 3;
        len = bytes[2] as usize;
    } else if bytes[2] == 0x81 && n >= 4 {
        hdr = 4;
        len = bytes[3] as usize;
    } else if bytes[2] == 0x82 && n >= 5 {
        hdr = 5;
        len = read_u16_be(bytes, 3) as usize;
    } else {
        return Err(RdpError::McsConnectError);
    }
    if n != hdr + len || len < 3 {
        return Err(RdpError::McsConnectError);
    }
    if bytes[hdr] != 0x0A || bytes[hdr + 1] != 1 {
        return Err(RdpError::McsConnectError);
    }
    if bytes[hdr + 2] != 0 {
        return Err(RdpError::McsConnectError);
    }
    Ok(())
}

/// The Erect-Domain-Request sent right after a successful connect:
/// sub-height and sub-interval both zero, as PER integers.
pub fn erect_domain_request_encode() -> (r: Vec<u8>)
    ensures
        r@ == seq![ERECT_DOMAIN_CHOICE, 1u8, 0u8, 1u8, 0u8],
{
    let mut out: Vec<u8> = Vec::new();
    out.push(ERECT_DOMAIN_CHOICE);
    out.push(1u8);
    out.push(0u8);
    out.push(1u8);
    out.push(0u8);
    proof {
        assert(out@ =~= seq![ERECT_DOMAIN_CHOICE, 1u8, 0u8, 1u8, 0u8]);
    }
    out
}

/// The Attach-User-Request PDU: a bare choice byte.
pub fn attach_user_request_encode() -> (r: Vec<u8>)
    ensures
        r@ == seq![ATTACH_USER_REQUEST_CHOICE],
{
    let mut out: Vec<u8> = Vec::new();
    out.push(ATTACH_USER_REQUEST_CHOICE);
    out
}

/// Parses an Attach-User-Confirm: choice byte with the initiator present,
/// an enumerated result below 16, and the initiator id offset from the
/// channel base.
pub open spec fn spec_attach_user_confirm_decode(b: Seq<u8>) -> Option<(u8, u16)> {
    if b.len() == 4 && b[0] == ATTACH_USER_CONFIRM_CHOICE && b[1] < 16 && spec_read_u16_be(
        b[2],
        b[3],
    ) <= 0xFFFF - BASE_CHANNEL_ID {
        Some((b[1], (spec_read_u16_be(b[2], b[3]) + BASE_CHANNEL_ID) as u16))
    } else {
        None
    }
}

/// Reads the Attach-User-Confirm and returns the initiator (user) id the
/// server assigned. `Ok` exactly when the PDU is well formed and its
/// result is rt-successful.
pub fn process_attach_user_confirm(bytes: &Vec<u8>) -> (r: Result<u16, RdpError>)
    ensures
        match r {
            Ok(id) => spec_attach_user_confirm_decode(bytes@) == Some((0u8, id))
                && BASE_CHANNEL_ID <= id,
            Err(e) => e == RdpError::McsError && (match spec_attach_user_confirm_decode(bytes@) {
                Option::Some(c) => c.0 != 0,
                Option::None => true,
            }),
        },
{
    let n: usize = bytes.len();
    if n != 4 {
        return Err(RdpError::McsError);
    }
    if bytes[0] != ATTACH_USER_CONFIRM_CHOICE || bytes[1] >= 16 {
        return Err(RdpError::McsError);
    }
    let raw: u16 = read_u16_be(bytes, 2);
    if raw > 0xFFFF - BASE_CHANNEL_ID {
        return Err(RdpError::McsError);
    }
    if bytes[1] != 0 {
        return Err(RdpError::McsError);
    }
    Ok(raw + BASE_CHANNEL_ID)
}

/// A Channel-Join-Request for one channel id, from the given initiator.
pub open spec fn spec_channel_join_request_encode(initiator_id: u16, channel_id: u16) -> Seq<u8> {
    seq![CHANNEL_JOIN_REQUEST_CHOICE] + spec_u16_be((initiator_id - BASE_CHANNEL_ID) as u16)
        + spec_u16_be(channel_id)
}

/// Builds the Channel-Join-Request PDU for one channel.
pub fn channel_join_request_encode(initiator_id: u16, channel_id: u16) -> (r: Vec<u8>)
    requires
        BASE_CHANNEL_ID <= initiator_id,
    ensures
        r@ == spec_channel_join_request_encode(initiator_id, channel_id),
{
    let mut out: Vec<u8> = Vec::new();
    out.push(CHANNEL_JOIN_REQUEST_CHOICE);
    push_u16_be(&mut out, initiator_id - BASE_CHANNEL_ID);
    push_u16_be(&mut out, channel_id);
    proof {
        assert(out@ =~= spec_channel_join_request_encode(initiator_id, channel_id));
    }
    out
}

/// One parsed Channel-Join-Confirm.
#[derive(Clone, Copy, PartialEq, Eq, Structural, Debug)]
pub struct ChannelJoinConfirm {
    /// The server's result code; zero is rt-successful.
    pub result: u8,
    /// The initiator the confirm addresses.
    pub initiator_id: u16,
    /// The channel id the join asked for.
    pub requested_channel_id: u16,
    /// The channel id the server actually joined.
    pub channel_id: u16,
}

/// Parses a Channel-Join-Confirm: choice byte with the joined channel
/// present, an enumerated result below 16, the initiator offset from the
/// channel base, the requested id and the joined id.
pub open spec fn spec_channel_join_confirm_decode(b: Seq<u8>) -> Option<ChannelJoinConfirm> {
    if b.len() == 8 && b[0] == CHANNEL_JOIN_CONFIRM_CHOICE && b[1] < 16 && spec_read_u16_be(
        b[2],
        b[3],
    ) <= 0xFFFF - BASE_CHANNEL_ID {
        Some(
            ChannelJoinConfirm {
                result: b[1],
                initiator_id: (spec_read_u16_be(b[2], b[3]) + BASE_CHANNEL_ID) as u16,
                requested_channel_id: spec_read_u16_be(b[4], b[5]),
                channel_id: spec_read_u16_be(b[6], b[7]),
            },
        )
    } else {
        None
    }
}

/// Decodes one Channel-Join-Confirm PDU; a malformed one is an MCS fault.
pub fn channel_join_confirm_decode(bytes: &Vec<u8>) -> (r: Result<ChannelJoinConfirm, RdpError>)
    ensures
        match r {
            Ok(c) => spec_channel_join_confirm_decode(bytes@) == Some(c),
            Err(e) => spec_channel_join_confirm_decode(bytes@) is None && e == RdpError::McsError,
        },
{
    let n: usize = bytes.len();
    if n != 8 {
        return Err(RdpError::McsError);
    }
    if bytes[0] != CHANNEL_JOIN_CONFIRM_CHOICE || bytes[1] >= 16 {
        return Err(RdpError::McsError);
    }
    let raw: u16 = read_u16_be(bytes, 2);
    if raw > 0xFFFF - BASE_CHANNEL_ID {
        return Err(RdpError::McsError);
    }
    Ok(
        ChannelJoinConfirm {
            result: bytes[1],
            initiator_id: raw + BASE_CHANNEL_ID,
            requested_channel_id: read_u16_be(bytes, 4),
            channel_id: read_u16_be(bytes, 6),
        },
    )
}

} // verus!
