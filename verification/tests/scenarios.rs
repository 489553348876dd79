//! End-to-end scenarios of the connection sequence: negotiation outcomes,
//! channel joins, the phase order under each security mode, and the
//! failure paths.

use rdp_client::channels::{
    build_channel_list, global_channel_name, process_channel_joins, user_channel_name,
};
use rdp_client::config::{Config, Credentials};
use rdp_client::credssp::process_early_user_auth_result;
use rdp_client::error::{ExitCategory, RdpError};
use rdp_client::mcs::{
    channel_join_confirm_decode, process_attach_user_confirm, process_mcs_connect_response,
    ChannelJoinConfirm,
};
use rdp_client::rdp::{
    control_action_of, finalization_advance, finalization_pdu_to_send, process_demand_active,
    process_server_license, FinalizationStep, CONTROL_ACTION_COOPERATE,
    CONTROL_ACTION_GRANTED_CONTROL, PDU_TYPE2_CONTROL, PDU_TYPE2_FONT_MAP,
    PDU_TYPE2_SYNCHRONIZE,
};
use rdp_client::sequence::{apply_event, next_phase, Phase, PhaseEvent, SequenceState};
use rdp_client::x224::{nego_request_encode, process_negotiation_response};
use rdp_client::{SecurityProtocol, PROTOCOL_HYBRID, PROTOCOL_HYBRID_EX, PROTOCOL_SSL};

fn confirm_with_response(kind: u8, value: u32) -> Vec<u8> {
    let mut b = vec![3u8, 0, 0, 19, 14, 0xD0, 0, 0, 0, 0, 0];
    b.push(kind);
    b.push(0);
    b.push(8);
    b.push(0);
    b.extend_from_slice(&value.to_le_bytes());
    b
}

#[test]
fn negotiation_request_has_exact_bytes() {
    let username = vec![b'a'];
    let request = nego_request_encode(&username, SecurityProtocol::new(3));
    let mut expected = vec![3u8, 0, 0, 39, 34, 0xE0, 0, 0, 0, 0, 0];
    expected.extend_from_slice(b"Cookie: mstshash=a\r\n");
    expected.extend_from_slice(&[1, 0, 8, 0, 3, 0, 0, 0]);
    assert_eq!(request, expected);
}

#[test]
fn negotiation_accepts_subset_selection() {
    let requested = SecurityProtocol::new(PROTOCOL_SSL | PROTOCOL_HYBRID);
    let confirm = confirm_with_response(2, PROTOCOL_HYBRID);
    let selected = process_negotiation_response(requested, &confirm).unwrap();
    assert_eq!(selected.flags, PROTOCOL_HYBRID);
}

#[test]
fn negotiation_rejects_protocol_not_offered() {
    let requested = SecurityProtocol::new(PROTOCOL_SSL);
    let confirm = confirm_with_response(2, PROTOCOL_HYBRID);
    assert_eq!(
        process_negotiation_response(requested, &confirm),
        Err(RdpError::NegotiationError)
    );
}

#[test]
fn negotiation_rejects_failure_code() {
    let requested = SecurityProtocol::new(PROTOCOL_SSL);
    let confirm = confirm_with_response(3, 2);
    assert_eq!(
        process_negotiation_response(requested, &confirm),
        Err(RdpError::NegotiationError)
    );
}

#[test]
fn negotiation_rejects_truncated_confirm() {
    let requested = SecurityProtocol::new(PROTOCOL_SSL);
    let confirm = vec![3u8, 0, 0, 5, 14];
    assert_eq!(process_negotiation_response(requested, &confirm), Err(RdpError::X224Error));
}

#[test]
fn negotiation_without_structure_selects_standard() {
    let requested = SecurityProtocol::new(PROTOCOL_SSL);
    let confirm = vec![3u8, 0, 0, 11, 6, 0xD0, 0, 0, 0, 0, 0];
    let selected = process_negotiation_response(requested, &confirm).unwrap();
    assert_eq!(selected, SecurityProtocol::standard());
}

#[test]
fn hybrid_selection_runs_tls_then_credssp_then_mcs() {
    // The client requests standard, TLS and hybrid security; the server
    // confirms hybrid: the TLS and CredSSP phases both run, then MCS
    // connect.
    let requested = SecurityProtocol::new(PROTOCOL_SSL | PROTOCOL_HYBRID);
    let confirm = confirm_with_response(2, PROTOCOL_HYBRID);
    let selected = process_negotiation_response(requested, &confirm).unwrap();

    let state = SequenceState::Start;
    assert_eq!(next_phase(&state), Some(Phase::Negotiation));
    let state = apply_event(&state, &PhaseEvent::NegotiationDone { selected });
    assert_eq!(next_phase(&state), Some(Phase::TlsUpgrade));
    let state = apply_event(&state, &PhaseEvent::TlsDone);
    assert_eq!(next_phase(&state), Some(Phase::CredSsp));
    let state = apply_event(&state, &PhaseEvent::CredSspDone);
    assert_eq!(next_phase(&state), Some(Phase::McsConnect));
}

#[test]
fn without_hybrid_no_credssp_phase_runs() {
    // TLS-only security: from TLS establishment the sequence goes
    // straight to MCS connect.
    let selected = SecurityProtocol::new(PROTOCOL_SSL);
    let state = SequenceState::TlsEstablished { selected };
    assert_eq!(next_phase(&state), Some(Phase::McsConnect));
    // Standard security: no TLS either; negotiation leads directly to
    // MCS connect.
    let standard = SecurityProtocol::new(0);
    let state = SequenceState::Negotiated { selected: standard };
    assert_eq!(next_phase(&state), Some(Phase::McsConnect));
}

#[test]
fn denied_early_auth_terminates_with_access_denied() {
    let selected = SecurityProtocol::new(PROTOCOL_HYBRID_EX);
    let state = SequenceState::CredSspFinished { selected };
    assert_eq!(next_phase(&state), Some(Phase::EarlyUserAuth));
    let state = apply_event(&state, &PhaseEvent::EarlyUserAuthDone { allowed: false });
    assert_eq!(state, SequenceState::Failed { error: RdpError::AccessDenied });
    assert_eq!(next_phase(&state), None);
    assert_eq!(RdpError::AccessDenied.exit_category(), ExitCategory::Protocol);
}

#[test]
fn allowed_early_auth_continues_to_mcs_connect() {
    let selected = SecurityProtocol::new(PROTOCOL_HYBRID_EX);
    let state = SequenceState::CredSspFinished { selected };
    let state = apply_event(&state, &PhaseEvent::EarlyUserAuthDone { allowed: true });
    assert_eq!(state, SequenceState::Authenticated { selected });
    assert_eq!(next_phase(&state), Some(Phase::McsConnect));
}

#[test]
fn joined_channels_contain_global_and_user() {
    let names = vec![b"global-io".to_vec()];
    let ids = vec![1005u16];
    let list = build_channel_list(1003, 1004, &names, &ids).unwrap();
    let confirms = vec![
        ChannelJoinConfirm { result: 0, initiator_id: 1004, requested_channel_id: 1003, channel_id: 1003 },
        ChannelJoinConfirm { result: 0, initiator_id: 1004, requested_channel_id: 1004, channel_id: 1004 },
        ChannelJoinConfirm { result: 0, initiator_id: 1004, requested_channel_id: 1005, channel_id: 1005 },
    ];
    let joined = process_channel_joins(&list, &confirms).unwrap();
    assert_eq!(joined.id_of(&global_channel_name()), Some(1003));
    assert_eq!(joined.id_of(&user_channel_name()), Some(1004));
    assert_eq!(joined.id_of(&b"global-io".to_vec()), Some(1005));
    assert_eq!(joined.id_of(&b"clipboard".to_vec()), None);
}

#[test]
fn refused_channel_join_fails_before_client_info() {
    // The client requests "global-io" and "clipboard"; the server
    // confirms only "global-io": the join phase fails at once and the
    // Client-Info phase is never scheduled.
    let names = vec![b"global-io".to_vec(), b"clipboard".to_vec()];
    let ids = vec![1005u16, 1006u16];
    let list = build_channel_list(1003, 1004, &names, &ids).unwrap();
    let confirms = vec![
        ChannelJoinConfirm { result: 0, initiator_id: 1004, requested_channel_id: 1003, channel_id: 1003 },
        ChannelJoinConfirm { result: 0, initiator_id: 1004, requested_channel_id: 1004, channel_id: 1004 },
        ChannelJoinConfirm { result: 0, initiator_id: 1004, requested_channel_id: 1005, channel_id: 1005 },
        ChannelJoinConfirm { result: 15, initiator_id: 1004, requested_channel_id: 1006, channel_id: 0 },
    ];
    let error = process_channel_joins(&list, &confirms).unwrap_err();
    assert_eq!(error, RdpError::McsError);
    let selected = SecurityProtocol::new(PROTOCOL_SSL);
    let state = SequenceState::McsConnected { selected };
    let state = apply_event(&state, &PhaseEvent::PhaseFailed { error });
    assert_eq!(state, SequenceState::Failed { error: RdpError::McsError });
    assert_eq!(next_phase(&state), None);
}

#[test]
fn config_drives_the_join_list() {
    let config = Config {
        security_protocol: SecurityProtocol::new(PROTOCOL_SSL),
        credentials: Credentials {
            username: b"user".to_vec(),
            password: b"pw".to_vec(),
            domain: None,
        },
        static_channels: vec![b"global-io".to_vec()],
        capability_data: vec![0, 0, 0, 0],
    };
    let list = build_channel_list(1003, 1004, &config.static_channels, &vec![1005]).unwrap();
    assert_eq!(list.entries.len(), 3);
    assert_eq!(list.id_of(&b"global-io".to_vec()), Some(1005));
    assert!(config.security_protocol.requires_tls());
}

#[test]
fn channel_count_mismatch_is_invalid_response() {
    let names = vec![b"global-io".to_vec(), b"clipboard".to_vec()];
    let ids = vec![1005u16];
    assert_eq!(build_channel_list(1003, 1004, &names, &ids).unwrap_err(), RdpError::InvalidResponse);
}

#[test]
fn missing_confirm_fails_the_join_phase() {
    let names: Vec<Vec<u8>> = Vec::new();
    let ids: Vec<u16> = Vec::new();
    let list = build_channel_list(1003, 1004, &names, &ids).unwrap();
    let confirms = vec![ChannelJoinConfirm {
        result: 0,
        initiator_id: 1004,
        requested_channel_id: 1003,
        channel_id: 1003,
    }];
    assert_eq!(process_channel_joins(&list, &confirms).unwrap_err(), RdpError::McsError);
}

#[test]
fn channel_join_confirm_decodes_from_wire() {
    let bytes = vec![0x3E, 0, 0, 3, 3, 0xEB, 3, 0xEB];
    let confirm = channel_join_confirm_decode(&bytes).unwrap();
    assert_eq!(confirm.result, 0);
    assert_eq!(confirm.initiator_id, 1004);
    assert_eq!(confirm.requested_channel_id, 1003);
    assert_eq!(confirm.channel_id, 1003);
    assert!(channel_join_confirm_decode(&vec![0x3E, 0, 0]).is_err());
}

#[test]
fn malformed_connect_response_is_mcs_connect_failure() {
    // A truncated MCS header fails the connect phase, and from there the
    // Client-Info phase is never scheduled.
    let truncated = vec![0x7Fu8, 0x66];
    let error = process_mcs_connect_response(&truncated).unwrap_err();
    assert_eq!(error, RdpError::McsConnectError);
    let selected = SecurityProtocol::new(PROTOCOL_SSL);
    let state = SequenceState::TlsEstablished { selected };
    let state = apply_event(&state, &PhaseEvent::PhaseFailed { error });
    assert_eq!(state, SequenceState::Failed { error: RdpError::McsConnectError });
    assert_eq!(next_phase(&state), None);
}

#[test]
fn connect_response_result_codes() {
    // rt-successful, short BER length.
    assert!(process_mcs_connect_response(&vec![0x7F, 0x66, 3, 0x0A, 1, 0]).is_ok());
    // rt-successful, long BER length form.
    assert!(process_mcs_connect_response(&vec![0x7F, 0x66, 0x82, 0, 3, 0x0A, 1, 0]).is_ok());
    // A non-zero result is a connect failure.
    assert_eq!(
        process_mcs_connect_response(&vec![0x7F, 0x66, 3, 0x0A, 1, 1]).unwrap_err(),
        RdpError::McsConnectError
    );
    // A length that disagrees with the buffer is a connect failure.
    assert_eq!(
        process_mcs_connect_response(&vec![0x7F, 0x66, 9, 0x0A, 1, 0]).unwrap_err(),
        RdpError::McsConnectError
    );
}

#[test]
fn attach_user_confirm_yields_initiator() {
    assert_eq!(process_attach_user_confirm(&vec![0x2E, 0, 0, 3]).unwrap(), 1004);
    assert_eq!(
        process_attach_user_confirm(&vec![0x2E, 2, 0, 3]).unwrap_err(),
        RdpError::McsError
    );
    assert_eq!(process_attach_user_confirm(&vec![0x2E, 0]).unwrap_err(), RdpError::McsError);
}

#[test]
fn license_results() {
    // Error-Alert carrying status-valid-client lets the session proceed.
    let valid = vec![0x80, 0, 0, 0, 0xFF, 3, 16, 0, 7, 0, 0, 0, 2, 0, 0, 0];
    assert!(process_server_license(&valid).is_ok());
    // A New-License message does too.
    let new_license = vec![0x80, 0, 0, 0, 3, 3, 8, 0];
    assert!(process_server_license(&new_license).is_ok());
    // Any other license error code is a license failure.
    let rejected = vec![0x80, 0, 0, 0, 0xFF, 3, 16, 0, 6, 0, 0, 0, 2, 0, 0, 0];
    assert_eq!(process_server_license(&rejected).unwrap_err(), RdpError::ServerLicenseError);
    // A payload without the license flag is a license failure.
    let not_license = vec![0x40, 0, 0, 0, 3, 3, 8, 0];
    assert_eq!(process_server_license(&not_license).unwrap_err(), RdpError::ServerLicenseError);
}

#[test]
fn demand_active_share_id() {
    // Share id, descriptor and capability lengths, their bytes, and the
    // mandatory trailing session id.
    let mut body = vec![4u8, 3, 2, 1];
    body.extend_from_slice(&[1, 0, 2, 0]);
    body.extend_from_slice(&[b'x', 9, 9]);
    body.extend_from_slice(&[0, 0, 0, 0]);
    assert_eq!(process_demand_active(&body).unwrap(), 0x0102_0304);
    // A body without the session id is mis-shaped.
    let mut truncated = vec![4u8, 3, 2, 1];
    truncated.extend_from_slice(&[1, 0, 2, 0]);
    truncated.extend_from_slice(&[b'x', 9, 9]);
    assert_eq!(process_demand_active(&truncated).unwrap_err(), RdpError::CapabilitySetsError);
    // Declared lengths that overrun the buffer are mis-shaped too.
    assert_eq!(
        process_demand_active(&vec![4u8, 3, 2, 1, 9, 0, 2, 0, 0, 0, 0, 0]).unwrap_err(),
        RdpError::CapabilitySetsError
    );
}

#[test]
fn early_user_auth_result_codes() {
    assert_eq!(process_early_user_auth_result(&vec![0, 0, 0, 0]).unwrap(), true);
    assert_eq!(process_early_user_auth_result(&vec![5, 0, 0, 0]).unwrap(), false);
    assert_eq!(
        process_early_user_auth_result(&vec![1, 0, 0, 0]).unwrap_err(),
        RdpError::EarlyUserAuthResultError
    );
    assert_eq!(
        process_early_user_auth_result(&vec![5, 0, 0]).unwrap_err(),
        RdpError::EarlyUserAuthResultError
    );
}

#[test]
fn finalization_runs_in_fixed_order() {
    let step = FinalizationStep::Synchronize;
    assert_eq!(finalization_pdu_to_send(&step), Some((PDU_TYPE2_SYNCHRONIZE, 0)));
    let step = finalization_advance(&step, PDU_TYPE2_SYNCHRONIZE, 0).unwrap();
    assert_eq!(step, FinalizationStep::ControlCooperate);
    let step = finalization_advance(&step, PDU_TYPE2_CONTROL, CONTROL_ACTION_COOPERATE).unwrap();
    assert_eq!(step, FinalizationStep::RequestControl);
    let step =
        finalization_advance(&step, PDU_TYPE2_CONTROL, CONTROL_ACTION_GRANTED_CONTROL).unwrap();
    assert_eq!(step, FinalizationStep::FontList);
    let step = finalization_advance(&step, PDU_TYPE2_FONT_MAP, 0).unwrap();
    assert_eq!(step, FinalizationStep::Done);
    assert_eq!(finalization_pdu_to_send(&step), None);
}

#[test]
fn finalization_rejects_out_of_order_answers() {
    assert_eq!(
        finalization_advance(&FinalizationStep::Synchronize, PDU_TYPE2_CONTROL, 0).unwrap_err(),
        RdpError::UnexpectedPdu
    );
    assert_eq!(
        finalization_advance(&FinalizationStep::ControlCooperate, PDU_TYPE2_CONTROL, 9)
            .unwrap_err(),
        RdpError::InvalidResponse
    );
    assert_eq!(control_action_of(&vec![4, 0, 0, 0, 0, 0, 0, 0]), Some(4));
    assert_eq!(control_action_of(&vec![4]), None);
}

#[test]
fn full_sequence_reaches_the_active_state() {
    let selected = SecurityProtocol::new(PROTOCOL_HYBRID_EX);
    let mut state = SequenceState::Start;
    let events = [
        PhaseEvent::NegotiationDone { selected },
        PhaseEvent::TlsDone,
        PhaseEvent::CredSspDone,
        PhaseEvent::EarlyUserAuthDone { allowed: true },
        PhaseEvent::McsConnectDone,
        PhaseEvent::ChannelJoinDone { initiator_id: 1004, global_channel_id: 1003 },
        PhaseEvent::ClientInfoDone,
        PhaseEvent::LicensingDone,
        PhaseEvent::CapabilityExchangeDone { share_id: 66538 },
        PhaseEvent::FinalizationDone,
    ];
    let expected_phases = [
        Phase::Negotiation,
        Phase::TlsUpgrade,
        Phase::CredSsp,
        Phase::EarlyUserAuth,
        Phase::McsConnect,
        Phase::ChannelJoin,
        Phase::ClientInfo,
        Phase::Licensing,
        Phase::CapabilityExchange,
        Phase::Finalization,
    ];
    for (event, expected) in events.iter().zip(expected_phases.iter()) {
        assert_eq!(next_phase(&state), Some(*expected));
        state = apply_event(&state, event);
    }
    assert_eq!(state, SequenceState::Finalized);
    assert_eq!(next_phase(&state), None);
}

#[test]
fn exit_categories_split_io_host_and_protocol() {
    assert_eq!(RdpError::IOError.exit_category(), ExitCategory::Io);
    assert_eq!(RdpError::ConnectionError.exit_category(), ExitCategory::NoHost);
    assert_eq!(RdpError::NegotiationError.exit_category(), ExitCategory::Protocol);
    assert_eq!(RdpError::TlsHandshakeError.exit_category(), ExitCategory::Protocol);
    assert_eq!(RdpError::McsConnectError.exit_category(), ExitCategory::Protocol);
}
