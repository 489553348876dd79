//! The connection-sequence state machine: the strict order of handshake
//! phases from a fresh socket to an active session. Each phase's outside
//! work happens at the caller's edge; this module decides which phase runs
//! next and how each phase's outcome moves the sequence forward, and makes
//! a skipped or re-entered phase unrepresentable.

use vstd::prelude::*;
use crate::error::RdpError;
use crate::SecurityProtocol;

verus! {

/// The phases of the connection sequence, in the order they may run.
#[derive(Clone, Copy, PartialEq, Eq, Structural, Debug)]
pub enum Phase {
    /// X.224 connection request/confirm with protocol negotiation.
    Negotiation,
    /// TLS handshake over the raw socket.
    TlsUpgrade,
    /// CredSSP authentication over the TLS stream.
    CredSsp,
    /// The early user authentication result read in extended hybrid mode.
    EarlyUserAuth,
    /// MCS Connect-Initial / Connect-Response, erect domain, attach user.
    McsConnect,
    /// Channel-Join requests and confirms for every static channel.
    ChannelJoin,
    /// The Client-Info PDU.
    ClientInfo,
    /// The server licensing exchange.
    Licensing,
    /// Demand-Active / Confirm-Active capability exchange.
    CapabilityExchange,
    /// The finalization PDU exchange.
    Finalization,
}

/// Where the sequence stands. States carry exactly the data later phases
/// address the server with.
#[derive(Clone, Copy, PartialEq, Eq, Structural, Debug)]
pub enum SequenceState {
    /// Nothing has run yet.
    Start,
    /// Negotiation chose this protocol set.
    Negotiated { selected: SecurityProtocol },
    /// The TLS session is established.
    TlsEstablished { selected: SecurityProtocol },
    /// CredSSP finished its exchange.
    CredSspFinished { selected: SecurityProtocol },
    /// Network-level authentication is complete.
    Authenticated { selected: SecurityProtocol },
    /// The MCS domain is connected and the user is attached.
    McsConnected { selected: SecurityProtocol },
    /// Every required channel is joined; later phases address the server
    /// with these ids.
    ChannelsJoined { selected: SecurityProtocol, initiator_id: u16, global_channel_id: u16 },
    /// The Client-Info PDU is sent.
    ClientInfoSent { selected: SecurityProtocol, initiator_id: u16, global_channel_id: u16 },
    /// The server licensing exchange accepted the client.
    Licensed { selected: SecurityProtocol, initiator_id: u16, global_channel_id: u16 },
    /// Capability sets are exchanged under this share id.
    CapabilitiesExchanged {
        selected: SecurityProtocol,
        initiator_id: u16,
        global_channel_id: u16,
        share_id: u32,
    },
    /// The session is active: the terminal success state.
    Finalized,
    /// The sequence failed with this error: the terminal failure state.
    Failed { error: RdpError },
}

/// What one phase reports back when it finishes.
#[derive(Clone, Copy, PartialEq, Eq, Structural, Debug)]
pub enum PhaseEvent {
    /// Negotiation succeeded with this selected protocol set.
    NegotiationDone { selected: SecurityProtocol },
    /// The TLS handshake succeeded.
    TlsDone,
    /// CredSSP authentication succeeded.
    CredSspDone,
    /// The early user authentication result arrived; denied access is
    /// reported here, not as a phase failure.
    EarlyUserAuthDone { allowed: bool },
    /// MCS connect, erect domain and attach user succeeded.
    McsConnectDone,
    /// Every channel join was confirmed; the sequence records the client's
    /// initiator id and the global channel id.
    ChannelJoinDone { initiator_id: u16, global_channel_id: u16 },
    /// The Client-Info PDU was sent.
    ClientInfoDone,
    /// The licensing exchange accepted the client.
    LicensingDone,
    /// The capability exchange succeeded under this share id.
    CapabilityExchangeDone { share_id: u32 },
    /// The finalization exchange ran to completion.
    FinalizationDone,
    /// The running phase failed with this error.
    PhaseFailed { error: RdpError },
}

/// True in the two states the sequence can never leave.
pub open spec fn spec_is_terminal(state: SequenceState) -> bool {
    state is Finalized || state is Failed
}

/// The protocol set a state carries, once negotiation has chosen one.
pub open spec fn spec_state_selected(state: SequenceState) -> Option<SecurityProtocol> {
    match state {
        SequenceState::Start => None,
        SequenceState::Negotiated { selected } => Some(selected),
        SequenceState::TlsEstablished { selected } => Some(selected),
        SequenceState::CredSspFinished { selected } => Some(selected),
        SequenceState::Authenticated { selected } => Some(selected),
        SequenceState::McsConnected { selected } => Some(selected),
        SequenceState::ChannelsJoined { selected, .. } => Some(selected),
        SequenceState::ClientInfoSent { selected, .. } => Some(selected),
        SequenceState::Licensed { selected, .. } => Some(selected),
        SequenceState::CapabilitiesExchanged { selected, .. } => Some(selected),
        SequenceState::Finalized => None,
        SequenceState::Failed { .. } => None,
    }
}

/// Which phase runs next from each state. TLS runs only when the selected
/// protocols require it; CredSSP only in a hybrid mode; the early user
/// authentication result only in the extended hybrid mode. Terminal states
/// schedule nothing.
pub open spec fn spec_next_phase(state: SequenceState) -> Option<Phase> {
    match state {
        SequenceState::Start => Some(Phase::Negotiation),
        SequenceState::Negotiated { selected } => if selected.spec_requires_tls() {
            Some(Phase::TlsUpgrade)
        } else {
            Some(Phase::McsConnect)
        },
        SequenceState::TlsEstablished { selected } => if selected.spec_includes_hybrid() {
            Some(Phase::CredSsp)
        } else {
            Some(Phase::McsConnect)
        },
        SequenceState::CredSspFinished { selected } => if selected.spec_includes_hybrid_ex() {
            Some(Phase::EarlyUserAuth)
        } else {
            Some(Phase::McsConnect)
        },
        SequenceState::Authenticated { .. } => Some(Phase::McsConnect),
        SequenceState::McsConnected { .. } => Some(Phase::ChannelJoin),
        SequenceState::ChannelsJoined { .. } => Some(Phase::ClientInfo),
        SequenceState::ClientInfoSent { .. } => Some(Phase::Licensing),
        SequenceState::Licensed { .. } => Some(Phase::CapabilityExchange),
        SequenceState::CapabilitiesExchanged { .. } => Some(Phase::Finalization),
        SequenceState::Finalized => None,
        SequenceState::Failed { .. } => None,
    }
}

/// Which phase runs next from this state.
pub fn next_phase(state: &SequenceState) -> (r: Option<Phase>)
    ensures
        r == spec_next_phase(*state),
{
    match state {
        SequenceState::Start => Some(Phase::Negotiation),
        SequenceState::Negotiated { selected } => if selected.requires_tls() {
            Some(Phase::TlsUpgrade)
        } else {
            Some(Phase::McsConnect)
        },
        SequenceState::TlsEstablished { selected } => if selected.includes_hybrid() {
            Some(Phase::CredSsp)
        } else {
            Some(Phase::McsConnect)
        },
        SequenceState::CredSspFinished { selected } => if selected.includes_hybrid_ex() {
            Some(Phase::EarlyUserAuth)
        } else {
            Some(Phase::McsConnect)
        },
        SequenceState::Authenticated { .. } => Some(Phase::McsConnect),
        SequenceState::McsConnected { .. } => Some(Phase::ChannelJoin),
        SequenceState::ChannelsJoined { .. } => Some(Phase::ClientInfo),
        SequenceState::ClientInfoSent { .. } => Some(Phase::Licensing),
        SequenceState::Licensed { .. } => Some(Phase::CapabilityExchange),
        SequenceState::CapabilitiesExchanged { .. } => Some(Phase::Finalization),
        SequenceState::Finalized => None,
        SequenceState::Failed { .. } => None,
    }
}

/// True when the event is the outcome of exactly the phase that
/// `spec_next_phase` schedules from this state; a phase failure fits any
/// state that is not terminal.
pub open spec fn spec_event_fits(state: SequenceState, event: PhaseEvent) -> bool {
    match event {
        PhaseEvent::NegotiationDone { .. } => spec_next_phase(state) == Some(Phase::Negotiation),
        PhaseEvent::TlsDone => spec_next_phase(state) == Some(Phase::TlsUpgrade),
        PhaseEvent::CredSspDone => spec_next_phase(state) == Some(Phase::CredSsp),
        PhaseEvent::EarlyUserAuthDone { .. } => spec_next_phase(state) == Some(
            Phase::EarlyUserAuth,
        ),
        PhaseEvent::McsConnectDone => spec_next_phase(state) == Some(Phase::McsConnect),
        PhaseEvent::ChannelJoinDone { .. } => spec_next_phase(state) == Some(Phase::ChannelJoin),
        PhaseEvent::ClientInfoDone => spec_next_phase(state) == Some(Phase::ClientInfo),
        PhaseEvent::LicensingDone => spec_next_phase(state) == Some(Phase::Licensing),
        PhaseEvent::CapabilityExchangeDone { .. } => spec_next_phase(state) == Some(
            Phase::CapabilityExchange,
        ),
        PhaseEvent::FinalizationDone => spec_next_phase(state) == Some(Phase::Finalization),
        PhaseEvent::PhaseFailed { .. } => !spec_is_terminal(state),
    }
}

/// The state after an event. A phase failure moves to the terminal failed
/// state with its error; a denied early user authentication result moves
/// to the terminal failed state with the access-denied error; every other
/// fitting event moves the sequence one phase forward.
pub open spec fn spec_apply_event(state: SequenceState, event: PhaseEvent) -> SequenceState {
    match event {
        PhaseEvent::PhaseFailed { error } => SequenceState::Failed { error },
        PhaseEvent::NegotiationDone { selected } => SequenceState::Negotiated { selected },
        PhaseEvent::TlsDone => match spec_state_selected(state) {
            Some(selected) => SequenceState::TlsEstablished { selected },
            None => state,
        },
        PhaseEvent::CredSspDone => match spec_state_selected(state) {
            Some(selected) => SequenceState::CredSspFinished { selected },
            None => state,
        },
        PhaseEvent::EarlyUserAuthDone { allowed } => if allowed {
            match spec_state_selected(state) {
                Some(selected) => SequenceState::Authenticated { selected },
                None => state,
            }
        } else {
            SequenceState::Failed { error: RdpError::AccessDenied }
        },
        PhaseEvent::McsConnectDone => match spec_state_selected(state) {
            Some(selected) => SequenceState::McsConnected { selected },
            None => state,
        },
        PhaseEvent::ChannelJoinDone { initiator_id, global_channel_id } => match spec_state_selected(
            state,
        ) {
            Some(selected) => SequenceState::ChannelsJoined {
                selected,
                initiator_id,
                global_channel_id,
            },
            None => state,
        },
        PhaseEvent::ClientInfoDone => match state {
            SequenceState::ChannelsJoined { selected, initiator_id, global_channel_id } => (
            SequenceState::ClientInfoSent { selected, initiator_id, global_channel_id }),
            _ => state,
        },
        PhaseEvent::LicensingDone => match state {
            SequenceState::ClientInfoSent { selected, initiator_id, global_channel_id } => (
            SequenceState::Licensed { selected, initiator_id, global_channel_id }),
            _ => state,
        },
        PhaseEvent::CapabilityExchangeDone { share_id } => match state {
            SequenceState::Licensed { selected, initiator_id, global_channel_id } => (
            SequenceState::CapabilitiesExchanged {
                selected,
                initiator_id,
                global_channel_id,
                share_id,
            }),
            _ => state,
        },
        PhaseEvent::FinalizationDone => SequenceState::Finalized,
    }
}

/// Applies one phase outcome to the sequence.
pub fn apply_event(state: &SequenceState, event: &PhaseEvent) -> (r: SequenceState)
    requires
        spec_event_fits(*state, *event),
    ensures
        r == spec_apply_event(*state, *event),
{
    match event {
        PhaseEvent::PhaseFailed { error } => SequenceState::Failed { error: *error },
        PhaseEvent::NegotiationDone { selected } => SequenceState::Negotiated {
            selected: *selected,
        },
        PhaseEvent::TlsDone => match state {
            SequenceState::Negotiated { selected } => SequenceState::TlsEstablished {
                selected: *selected,
            },
            _ => *state,
        },
        PhaseEvent::CredSspDone => match state {
            SequenceState::TlsEstablished { selected } => SequenceState::CredSspFinished {
                selected: *selected,
            },
            _ => *state,
        },
        PhaseEvent::EarlyUserAuthDone { allowed } => if *allowed {
            match state {
                SequenceState::CredSspFinished { selected } => SequenceState::Authenticated {
                    selected: *selected,
                },
                _ => *state,
            }
        } else {
            SequenceState::Failed { error: RdpError::AccessDenied }
        },
        PhaseEvent::McsConnectDone => match state {
            SequenceState::Negotiated { selected } => SequenceState::McsConnected {
                selected: *selected,
            },
            SequenceState::TlsEstablished { selected } => SequenceState::McsConnected {
                selected: *selected,
            },
            SequenceState::CredSspFinished { selected } => SequenceState::McsConnected {
                selected: *selected,
            },
            SequenceState::Authenticated { selected } => SequenceState::McsConnected {
                selected: *selected,
            },
            _ => *state,
        },
        PhaseEvent::ChannelJoinDone { initiator_id, global_channel_id } => match state {
            SequenceState::McsConnected { selected } => SequenceState::ChannelsJoined {
                selected: *selected,
                initiator_id: *initiator_id,
                global_channel_id: *global_channel_id,
            },
            _ => *state,
        },
        PhaseEvent::ClientInfoDone => match state {
            SequenceState::ChannelsJoined { selected, initiator_id, global_channel_id } => (
            SequenceState::ClientInfoSent {
                selected: *selected,
                initiator_id: *initiator_id,
                global_channel_id: *global_channel_id,
            }),
            _ => *state,
        },
        PhaseEvent::LicensingDone => match state {
            SequenceState::ClientInfoSent { selected, initiator_id, global_channel_id } => (
            SequenceState::Licensed {
                selected: *selected,
                initiator_id: *initiator_id,
                global_channel_id: *global_channel_id,
            }),
            _ => *state,
        },
        PhaseEvent::CapabilityExchangeDone { share_id } => match state {
            SequenceState::Licensed { selected, initiator_id, global_channel_id } => (
            SequenceState::CapabilitiesExchanged {
                selected: *selected,
                initiator_id: *initiator_id,
                global_channel_id: *global_channel_id,
                share_id: *share_id,
            }),
            _ => *state,
        },
        PhaseEvent::FinalizationDone => SequenceState::Finalized,
    }
}

/// When no hybrid mode was selected, no CredSSP phase and no early user
/// authentication phase is ever scheduled: from TLS establishment — or
/// straight from negotiation, when no TLS is required — the sequence goes
/// directly to MCS connect.
pub proof fn lemma_credssp_skipped(selected: SecurityProtocol)
    requires
        !selected.spec_includes_hybrid(),
    ensures
        spec_next_phase(SequenceState::TlsEstablished { selected }) == Some(Phase::McsConnect),
        !selected.spec_requires_tls() ==> spec_next_phase(SequenceState::Negotiated { selected })
            == Some(Phase::McsConnect),
        forall|s: SequenceState|
            spec_state_selected(s) == Some(selected) ==> #[trigger] spec_next_phase(s) != Some(
                Phase::CredSsp,
            ) && spec_next_phase(s) != Some(Phase::EarlyUserAuth),
{
    let f = selected.flags;
    assert(f & (crate::PROTOCOL_HYBRID | crate::PROTOCOL_HYBRID_EX) == 0 ==> f
        & crate::PROTOCOL_HYBRID_EX == 0) by (bit_vector);
}

/// A denied early user authentication result terminates the sequence at
/// once with the access-denied error, and the failed state schedules no
/// further phase, whatever the configuration was.
pub proof fn lemma_access_denied_terminates(state: SequenceState)
    ensures
        spec_apply_event(state, PhaseEvent::EarlyUserAuthDone { allowed: false })
            == (SequenceState::Failed { error: RdpError::AccessDenied }),
        spec_next_phase(SequenceState::Failed { error: RdpError::AccessDenied }) is None,
        spec_is_terminal(spec_apply_event(state, PhaseEvent::EarlyUserAuthDone { allowed: false })),
{
}

/// A failed phase, whichever it was, moves the sequence to the terminal
/// failed state carrying that error, and nothing runs after it.
pub proof fn lemma_failure_terminates(state: SequenceState, error: RdpError)
    ensures
        spec_apply_event(state, PhaseEvent::PhaseFailed { error }) == (SequenceState::Failed {
            error,
        }),
        spec_next_phase(SequenceState::Failed { error }) is None,
{
}

} // verus!
