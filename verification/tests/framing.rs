//! Loopback tests of the framing codecs and the transport chain: what one
//! layer's send produces, the same layer's receive strips back to the
//! original payload.

use rdp_client::mcs::{
    channel_join_request_encode, erect_domain_request_encode, mcs_send_data_decode,
    mcs_send_data_encode, SEND_DATA_INDICATION_CHOICE, SEND_DATA_REQUEST_CHOICE,
};
use rdp_client::rdp::{
    confirm_active_encode, control_encode, font_list_encode, share_control_decode,
    share_control_encode, share_data_decode, share_data_encode, synchronize_encode,
    PDU_TYPE_DATA,
};
use rdp_client::transport::{
    DataTransport, McsTransport, RawTransport, ShareControlHeaderTransport,
    ShareDataHeaderTransport,
};
use rdp_client::x224::{x224_data_decode, x224_data_encode};

#[test]
fn raw_transport_round_trip() {
    let t = RawTransport::new();
    let payload = vec![9u8, 8, 7];
    let wire = t.send(&payload);
    assert_eq!(wire, payload);
    assert_eq!(t.receive(&wire).unwrap(), payload);
}

#[test]
fn x224_data_round_trip() {
    let payload = vec![1u8, 2, 3, 4, 5];
    let framed = x224_data_encode(&payload);
    assert_eq!(framed[..7], [3, 0, 0, 12, 2, 0xF0, 0x80]);
    assert_eq!(x224_data_decode(&framed).unwrap(), payload);
}

#[test]
fn x224_data_rejects_truncated() {
    assert!(x224_data_decode(&vec![3u8, 0, 0]).is_err());
    let mut framed = x224_data_encode(&vec![1u8, 2, 3]);
    framed.pop();
    assert!(x224_data_decode(&framed).is_err());
}

#[test]
fn mcs_send_data_round_trip_short() {
    let payload = vec![0xAAu8; 5];
    let framed = mcs_send_data_encode(SEND_DATA_REQUEST_CHOICE, 1003, 1007, &payload);
    assert_eq!(framed[0], 0x64);
    assert_eq!(&framed[1..3], &[0, 2]);
    assert_eq!(&framed[3..5], &[1007u16.to_be_bytes()[0], 1007u16.to_be_bytes()[1]]);
    assert_eq!(framed[5], 0x70);
    assert_eq!(framed[6], 5);
    let (initiator, channel, inner) =
        mcs_send_data_decode(SEND_DATA_REQUEST_CHOICE, &framed).unwrap();
    assert_eq!(initiator, 1003);
    assert_eq!(channel, 1007);
    assert_eq!(inner, payload);
}

#[test]
fn mcs_send_data_round_trip_long() {
    let payload = vec![0x55u8; 300];
    let framed = mcs_send_data_encode(SEND_DATA_INDICATION_CHOICE, 1002, 1003, &payload);
    assert_eq!(framed[6], 0x80 | 1);
    assert_eq!(framed[7], 44);
    let (initiator, channel, inner) =
        mcs_send_data_decode(SEND_DATA_INDICATION_CHOICE, &framed).unwrap();
    assert_eq!(initiator, 1002);
    assert_eq!(channel, 1003);
    assert_eq!(inner, payload);
}

#[test]
fn mcs_send_data_rejects_wrong_choice() {
    let framed = mcs_send_data_encode(SEND_DATA_REQUEST_CHOICE, 1002, 1003, &vec![1u8]);
    assert!(mcs_send_data_decode(SEND_DATA_INDICATION_CHOICE, &framed).is_err());
}

#[test]
fn share_control_round_trip() {
    let payload = vec![1u8, 2, 3];
    let framed = share_control_encode(7, 1004, &payload);
    assert_eq!(framed[..2], [9, 0]);
    assert_eq!(framed[..6], [9, 0, 0x17, 0, 0xEC, 0x03]);
    let (pdu_type, source, inner) = share_control_decode(&framed).unwrap();
    assert_eq!(pdu_type, 7);
    assert_eq!(source, 1004);
    assert_eq!(inner, payload);
}

#[test]
fn share_control_rejects_bad_version() {
    let mut framed = share_control_encode(7, 1004, &vec![1u8]);
    framed[3] = 0x20;
    assert!(share_control_decode(&framed).is_err());
}

#[test]
fn share_data_round_trip() {
    let payload = vec![4u8, 5, 6, 7];
    let framed = share_data_encode(0x0001_0002, 1, 31, &payload);
    let (share_id, stream_id, pdu_type2, inner) = share_data_decode(&framed).unwrap();
    assert_eq!(share_id, 0x0001_0002);
    assert_eq!(stream_id, 1);
    assert_eq!(pdu_type2, 31);
    assert_eq!(inner, payload);
}

#[test]
fn share_data_rejects_compressed() {
    let mut framed = share_data_encode(1, 1, 31, &vec![1u8]);
    framed[9] = 0x21;
    assert!(share_data_decode(&framed).is_err());
}

#[test]
fn transport_chain_send_nests_every_envelope() {
    let data = DataTransport::new(RawTransport::new());
    let mcs = McsTransport::new(data, 1004, 1003);
    let ctl = ShareControlHeaderTransport::new(mcs, 1004);
    let sd = ShareDataHeaderTransport::new(ctl, 66538);
    let payload = vec![0xABu8, 0xCD];
    let wire = sd.send(31, &payload);
    // Outermost envelope: TPKT/X.224 data.
    assert_eq!(wire[0], 3);
    assert_eq!(wire[4..7], [2, 0xF0, 0x80]);
    // Then the MCS Send-Data-Request.
    assert_eq!(wire[7], 0x64);
    // Strip each layer in turn and compare the payload.
    let inner = x224_data_decode(&wire).unwrap();
    let (initiator, channel, inner) =
        mcs_send_data_decode(SEND_DATA_REQUEST_CHOICE, &inner).unwrap();
    assert_eq!((initiator, channel), (1004, 1003));
    let (pdu_type, source, inner) = share_control_decode(&inner).unwrap();
    assert_eq!((pdu_type, source), (PDU_TYPE_DATA, 1004));
    let (share_id, _stream, pdu_type2, inner) = share_data_decode(&inner).unwrap();
    assert_eq!(share_id, 66538);
    assert_eq!(pdu_type2, 31);
    assert_eq!(inner, payload);
}

#[test]
fn transport_chain_receive_strips_every_envelope() {
    let data = DataTransport::new(RawTransport::new());
    let mcs = McsTransport::new(data, 1004, 1003);
    let ctl = ShareControlHeaderTransport::new(mcs, 1004);
    let sd = ShareDataHeaderTransport::new(ctl, 66538);
    // A server PDU: the mirror image of a send, tagged as an indication.
    let payload = vec![1u8, 2, 3, 4];
    let body = share_data_encode(66538, 1, 40, &payload);
    let ctl_framed = share_control_encode(PDU_TYPE_DATA, 1002, &body);
    let mcs_framed =
        mcs_send_data_encode(SEND_DATA_INDICATION_CHOICE, 1002, 1003, &ctl_framed);
    let wire = x224_data_encode(&mcs_framed);
    let (pdu_type2, inner) = sd.receive(&wire).unwrap();
    assert_eq!(pdu_type2, 40);
    assert_eq!(inner, payload);
}

#[test]
fn mcs_transport_rejects_other_channel() {
    let data = DataTransport::new(RawTransport::new());
    let mcs = McsTransport::new(data, 1004, 1003);
    let framed = mcs_send_data_encode(SEND_DATA_INDICATION_CHOICE, 1002, 1099, &vec![1u8]);
    let wire = x224_data_encode(&framed);
    assert!(mcs.receive(&wire).is_err());
}

#[test]
fn fixed_pdu_bodies_have_exact_bytes() {
    assert_eq!(erect_domain_request_encode(), vec![0x04, 1, 0, 1, 0]);
    assert_eq!(channel_join_request_encode(1004, 1003), vec![0x38, 0, 3, 3, 0xEB]);
    assert_eq!(synchronize_encode(1002), vec![1, 0, 0xEA, 0x03]);
    assert_eq!(control_encode(4), vec![4, 0, 0, 0, 0, 0, 0, 0]);
    assert_eq!(font_list_encode(), vec![0, 0, 0, 0, 2, 0, 50, 0]);
    assert_eq!(
        confirm_active_encode(0x0102_0304, &vec![9, 9]),
        vec![4, 3, 2, 1, 0xEA, 0x03, 4, 0, 2, 0, 77, 83, 84, 67, 9, 9]
    );
}
