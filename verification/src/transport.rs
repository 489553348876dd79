//! The layered transport chain. Each wrapper owns the layer beneath it,
//! exposes one send and one receive of its own PDU unit, and delegates the
//! rest of the framing to the inner layer. A later phase consumes the
//! previous phase's wrapper by value, so an outer layer can never be
//! bypassed once it is built.

use vstd::prelude::*;
use crate::error::RdpError;
use crate::mcs::{
    mcs_send_data_decode, mcs_send_data_encode, spec_mcs_send_data_decode,
    spec_mcs_send_data_encode, BASE_CHANNEL_ID, SEND_DATA_INDICATION_CHOICE,
    SEND_DATA_REQUEST_CHOICE,
};
use crate::rdp::{
    share_control_decode, share_control_encode, share_data_decode, share_data_encode,
    spec_share_control_decode, spec_share_control_encode, spec_share_data_decode,
    spec_share_data_encode, PDU_TYPE_DATA,
};
use crate::x224::{spec_x224_data_decode, spec_x224_data_encode, x224_data_decode, x224_data_encode};

verus! {

/// The stream id used for the PDUs this client sends.
pub const STREAM_LOW: u8 = 1;

/// The bottom of the chain: the raw byte stream, passed through unchanged.
#[derive(Clone, Copy)]
pub struct RawTransport {}

impl RawTransport {
    /// A fresh pass-through layer over the peer byte stream.
    pub fn new() -> (r: RawTransport) {
        RawTransport {  }
    }

    /// What this layer puts on the wire: the payload itself.
    pub open spec fn spec_send(self, payload: Seq<u8>) -> Seq<u8> {
        payload
    }

    /// What this layer yields from wire bytes: the bytes themselves.
    pub open spec fn spec_receive(self, b: Seq<u8>) -> Option<Seq<u8>> {
        Some(b)
    }

    /// Sends a payload: the wire bytes are the payload unchanged.
    pub fn send(&self, payload: &Vec<u8>) -> (r: Vec<u8>)
        ensures
            r@ == self.spec_send(payload@),
    {
        crate::channels::copy_bytes(payload)
    }

    /// Receives wire bytes: yields them unchanged.
    pub fn receive(&self, bytes: &Vec<u8>) -> (r: Result<Vec<u8>, RdpError>)
        ensures
            match r {
                Ok(p) => self.spec_receive(bytes@) == Some(p@),
                Err(e) => false,
            },
    {
        Ok(crate::channels::copy_bytes(bytes))
    }
}

/// The raw layer gives back exactly what it was asked to send.
pub proof fn lemma_raw_round_trip(t: RawTransport, payload: Seq<u8>)
    ensures
        t.spec_receive(t.spec_send(payload)) == Some(payload),
{
}

/// The TPKT/X.224 data layer over the raw stream.
#[derive(Clone, Copy)]
pub struct DataTransport {
    /// The raw stream this layer frames.
    pub inner: RawTransport,
}

impl DataTransport {
    /// Builds the X.224 data layer over the raw stream.
    pub fn new(inner: RawTransport) -> (r: DataTransport) {
        DataTransport { inner }
    }

    /// The wire bytes of one payload: the TPKT/X.224 envelope around it.
    pub open spec fn spec_send(self, payload: Seq<u8>) -> Seq<u8> {
        self.inner.spec_send(spec_x224_data_encode(payload))
    }

    /// The payload of one incoming frame, when its envelope is valid.
    pub open spec fn spec_receive(self, b: Seq<u8>) -> Option<Seq<u8>> {
        match self.inner.spec_receive(b) {
            Some(m) => spec_x224_data_decode(m),
            None => None,
        }
    }

    /// Wraps and forwards one payload.
    pub fn send(&self, payload: &Vec<u8>) -> (r: Vec<u8>)
        requires
            payload@.len() + 7 <= 0xFFFF,
        ensures
            r@ == self.spec_send(payload@),
    {
        let framed = x224_data_encode(payload);
        self.inner.send(&framed)
    }

    /// Receives one frame and strips its envelope.
    pub fn receive(&self, bytes: &Vec<u8>) -> (r: Result<Vec<u8>, RdpError>)
        ensures
            match r {
                Ok(p) => self.spec_receive(bytes@) == Some(p@),
                Err(e) => self.spec_receive(bytes@) is None && e == RdpError::UnexpectedPdu,
            },
    {
        let m = match self.inner.receive(bytes) {
            Ok(m) => m,
            Err(e) => {
                return Err(e);
            },
        };
        x224_data_decode(&m)
    }
}

/// The X.224 data layer gives back exactly what it sent.
pub proof fn lemma_data_transport_round_trip(t: DataTransport, payload: Seq<u8>)
    requires
        payload.len() + 7 <= 0xFFFF,
    ensures
        t.spec_receive(t.spec_send(payload)) == Some(payload),
{
    crate::x224::lemma_x224_data_round_trip(payload);
}

/// The MCS Send-Data layer: addresses every PDU with the client's
/// initiator id and one joined channel id, over the X.224 data layer.
#[derive(Clone, Copy)]
pub struct McsTransport {
    /// The X.224 layer this layer frames over.
    pub inner: DataTransport,
    /// The client's own user id, assigned at attach-user time.
    pub initiator_id: u16,
    /// The channel all traffic of this transport is addressed to.
    pub channel_id: u16,
}

impl McsTransport {
    /// A well-formed MCS layer carries an initiator at or above the
    /// channel base.
    pub open spec fn wf(self) -> bool {
        self.initiator_id >= BASE_CHANNEL_ID
    }

    /// Builds the MCS Send-Data layer, consuming the X.224 layer.
    pub fn new(inner: DataTransport, initiator_id: u16, channel_id: u16) -> (r: McsTransport)
        requires
            initiator_id >= BASE_CHANNEL_ID,
        ensures
            r.wf(),
            r.inner == inner,
            r.initiator_id == initiator_id,
            r.channel_id == channel_id,
    {
        McsTransport { inner, initiator_id, channel_id }
    }

    /// The wire bytes of one payload: a Send-Data-Request envelope from
    /// this initiator to this channel, wrapped by the inner layer.
    pub open spec fn spec_send(self, payload: Seq<u8>) -> Seq<u8> {
        self.inner.spec_send(
            spec_mcs_send_data_encode(
                SEND_DATA_REQUEST_CHOICE,
                self.initiator_id,
                self.channel_id,
                payload,
            ),
        )
    }

    /// The payload of one incoming Send-Data-Indication on this
    /// transport's channel.
    pub open spec fn spec_receive(self, b: Seq<u8>) -> Option<Seq<u8>> {
        match self.inner.spec_receive(b) {
            Some(m) => match spec_mcs_send_data_decode(SEND_DATA_INDICATION_CHOICE, m) {
                Some(p) => if p.1 == self.channel_id {
                    Some(p.2)
                } else {
                    None
                },
                None => None,
            },
            None => None,
        }
    }

    /// Wraps one payload in the Send-Data-Request envelope and forwards it.
    pub fn send(&self, payload: &Vec<u8>) -> (r: Vec<u8>)
        requires
            self.wf(),
            payload@.len() < 0x4000,
        ensures
            r@ == self.spec_send(payload@),
    {
        let framed = mcs_send_data_encode(
            SEND_DATA_REQUEST_CHOICE,
            self.initiator_id,
            self.channel_id,
            payload,
        );
        self.inner.send(&framed)
    }

    /// Receives one Send-Data-Indication, checks it addresses this
    /// transport's channel, and strips its envelope.
    pub fn receive(&self, bytes: &Vec<u8>) -> (r: Result<Vec<u8>, RdpError>)
        ensures
            match r {
                Ok(p) => self.spec_receive(bytes@) == Some(p@),
                Err(e) => self.spec_receive(bytes@) is None && e == RdpError::UnexpectedPdu,
            },
    {
        let m = match self.inner.receive(bytes) {
            Ok(m) => m,
            Err(e) => {
                return Err(e);
            },
        };
        let (_initiator, channel, payload) = match mcs_send_data_decode(
            SEND_DATA_INDICATION_CHOICE,
            &m,
        ) {
            Ok(p) => p,
            Err(e) => {
                return Err(e);
            },
        };
        if channel != self.channel_id {
            return Err(RdpError::UnexpectedPdu);
        }
        Ok(payload)
    }
}

/// An MCS Send-Data envelope built towards this transport's channel is
/// stripped back to the same payload, whichever direction tag it carries:
/// receiving the mirror image of a send yields the payload unchanged.
pub proof fn lemma_mcs_transport_round_trip(
    t: McsTransport,
    server_initiator_id: u16,
    payload: Seq<u8>,
)
    requires
        t.wf(),
        server_initiator_id >= BASE_CHANNEL_ID,
        payload.len() < 0x4000,
    ensures
        t.spec_receive(
            t.inner.spec_send(
                spec_mcs_send_data_encode(
                    SEND_DATA_INDICATION_CHOICE,
                    server_initiator_id,
                    t.channel_id,
                    payload,
                ),
            ),
        ) == Some(payload),
{
    let m = spec_mcs_send_data_encode(
        SEND_DATA_INDICATION_CHOICE,
        server_initiator_id,
        t.channel_id,
        payload,
    );
    crate::x224::lemma_x224_data_round_trip(m);
    crate::mcs::lemma_mcs_send_data_round_trip(
        SEND_DATA_INDICATION_CHOICE,
        server_initiator_id,
        t.channel_id,
        payload,
    );
}

/// The Share-Control layer: frames each PDU with its 4-bit type and this
/// client's initiator id as the PDU source.
#[derive(Clone, Copy)]
pub struct ShareControlHeaderTransport {
    /// The MCS layer this layer frames over.
    pub inner: McsTransport,
    /// The PDU source stamped on every sent PDU: the client's initiator id.
    pub pdu_source: u16,
}

impl ShareControlHeaderTransport {
    /// A well-formed Share-Control layer sits on a well-formed MCS layer.
    pub open spec fn wf(self) -> bool {
        self.inner.wf()
    }

    /// Builds the Share-Control layer, consuming the MCS layer.
    pub fn new(inner: McsTransport, pdu_source: u16) -> (r: ShareControlHeaderTransport)
        requires
            inner.wf(),
        ensures
            r.wf(),
            r.inner == inner,
            r.pdu_source == pdu_source,
    {
        ShareControlHeaderTransport { inner, pdu_source }
    }

    /// The wire bytes of one PDU of the given type.
    pub open spec fn spec_send(self, pdu_type: u8, payload: Seq<u8>) -> Seq<u8> {
        self.inner.spec_send(spec_share_control_encode(pdu_type, self.pdu_source, payload))
    }

    /// The type and payload of one incoming Share-Control PDU.
    pub open spec fn spec_receive(self, b: Seq<u8>) -> Option<(u8, Seq<u8>)> {
        match self.inner.spec_receive(b) {
            Some(m) => match spec_share_control_decode(m) {
                Some(p) => Some((p.0, p.2)),
                None => None,
            },
            None => None,
        }
    }

    /// Wraps one PDU in its Share-Control envelope and forwards it.
    pub fn send(&self, pdu_type: u8, payload: &Vec<u8>) -> (r: Vec<u8>)
        requires
            self.wf(),
            pdu_type < 16,
            payload@.len() + 6 < 0x4000,
        ensures
            r@ == self.spec_send(pdu_type, payload@),
    {
        let framed = share_control_encode(pdu_type, self.pdu_source, payload);
        self.inner.send(&framed)
    }

    /// Receives one Share-Control PDU, returning its type and payload.
    pub fn receive(&self, bytes: &Vec<u8>) -> (r: Result<(u8, Vec<u8>), RdpError>)
        ensures
            match r {
                Ok(p) => self.spec_receive(bytes@) == Some((p.0, p.1@)),
                Err(e) => self.spec_receive(bytes@) is None && e == (
                if self.inner.spec_receive(bytes@) is None {
                    RdpError::UnexpectedPdu
                } else {
                    RdpError::ShareControlHeaderError
                }),
            },
    {
        let m = match self.inner.receive(bytes) {
            Ok(m) => m,
            Err(e) => {
                return Err(e);
            },
        };
        let (pdu_type, _source, payload) = match share_control_decode(&m) {
            Ok(p) => p,
            Err(e) => {
                return Err(e);
            },
        };
        Ok((pdu_type, payload))
    }
}

/// A Share-Control envelope received as the mirror image of a send yields
/// the same type and payload.
pub proof fn lemma_share_control_transport_round_trip(
    t: ShareControlHeaderTransport,
    server_initiator_id: u16,
    server_source: u16,
    pdu_type: u8,
    payload: Seq<u8>,
)
    requires
        t.wf(),
        server_initiator_id >= BASE_CHANNEL_ID,
        pdu_type < 16,
        payload.len() + 6 < 0x4000,
    ensures
        t.spec_receive(
            t.inner.inner.spec_send(
                spec_mcs_send_data_encode(
                    SEND_DATA_INDICATION_CHOICE,
                    server_initiator_id,
                    t.inner.channel_id,
                    spec_share_control_encode(pdu_type, server_source, payload),
                ),
            ),
        ) == Some((pdu_type, payload)),
{
    let m = spec_share_control_encode(pdu_type, server_source, payload);
    lemma_mcs_transport_round_trip(t.inner, server_initiator_id, m);
    crate::rdp::lemma_share_control_round_trip(pdu_type, server_source, payload);
}

/// The Share-Data layer: the last wrapper, framing finalization and later
/// session PDUs by their subtype inside a data-typed Share-Control PDU.
#[derive(Clone, Copy)]
pub struct ShareDataHeaderTransport {
    /// The Share-Control layer this layer frames over.
    pub inner: ShareControlHeaderTransport,
    /// The share id learned from the server's Demand-Active PDU.
    pub share_id: u32,
}

impl ShareDataHeaderTransport {
    /// A well-formed Share-Data layer sits on a well-formed chain.
    pub open spec fn wf(self) -> bool {
        self.inner.wf()
    }

    /// Builds the Share-Data layer, consuming the Share-Control layer.
    pub fn new(inner: ShareControlHeaderTransport, share_id: u32) -> (r: ShareDataHeaderTransport)
        requires
            inner.wf(),
        ensures
            r.wf(),
            r.inner == inner,
            r.share_id == share_id,
    {
        ShareDataHeaderTransport { inner, share_id }
    }

    /// The wire bytes of one PDU of the given subtype.
    pub open spec fn spec_send(self, pdu_type2: u8, payload: Seq<u8>) -> Seq<u8> {
        self.inner.spec_send(
            PDU_TYPE_DATA,
            spec_share_data_encode(self.share_id, STREAM_LOW, pdu_type2, payload),
        )
    }

    /// The subtype and payload of one incoming Share-Data PDU.
    pub open spec fn spec_receive(self, b: Seq<u8>) -> Option<(u8, Seq<u8>)> {
        match self.inner.spec_receive(b) {
            Some(p) => if p.0 == PDU_TYPE_DATA {
                match spec_share_data_decode(p.1) {
                    Some(d) => Some((d.2, d.3)),
                    None => None,
                }
            } else {
                None
            },
            None => None,
        }
    }

    /// Wraps one PDU in its Share-Data header and forwards it.
    pub fn send(&self, pdu_type2: u8, payload: &Vec<u8>) -> (r: Vec<u8>)
        requires
            self.wf(),
            payload@.len() + 24 < 0x4000,
        ensures
            r@ == self.spec_send(pdu_type2, payload@),
    {
        let framed = share_data_encode(self.share_id, STREAM_LOW, pdu_type2, payload);
        self.inner.send(PDU_TYPE_DATA, &framed)
    }

    /// Receives one Share-Data PDU, returning its subtype and payload.
    pub fn receive(&self, bytes: &Vec<u8>) -> (r: Result<(u8, Vec<u8>), RdpError>)
        ensures
            match r {
                Ok(p) => self.spec_receive(bytes@) == Some((p.0, p.1@)),
                Err(e) => self.spec_receive(bytes@) is None && e == (
                if self.inner.inner.spec_receive(bytes@) is None {
                    RdpError::UnexpectedPdu
                } else if self.inner.spec_receive(bytes@) is None {
                    RdpError::ShareControlHeaderError
                } else {
                    RdpError::UnexpectedPdu
                }),
            },
    {
        let (pdu_type, m) = match self.inner.receive(bytes) {
            Ok(p) => p,
            Err(e) => {
                return Err(e);
            },
        };
        if pdu_type != PDU_TYPE_DATA {
            return Err(RdpError::UnexpectedPdu);
        }
        let (_share_id, _stream_id, pdu_type2, payload) = match share_data_decode(&m) {
            Ok(d) => d,
            Err(e) => {
                return Err(e);
            },
        };
        Ok((pdu_type2, payload))
    }
}

/// A Share-Data header received as the mirror image of a send yields the
/// same subtype and payload.
pub proof fn lemma_share_data_transport_round_trip(
    t: ShareDataHeaderTransport,
    server_initiator_id: u16,
    server_source: u16,
    stream_id: u8,
    pdu_type2: u8,
    payload: Seq<u8>,
)
    requires
        t.wf(),
        server_initiator_id >= BASE_CHANNEL_ID,
        payload.len() + 24 < 0x4000,
    ensures
        t.spec_receive(
            t.inner.inner.inner.spec_send(
                spec_mcs_send_data_encode(
                    SEND_DATA_INDICATION_CHOICE,
                    server_initiator_id,
                    t.inner.inner.channel_id,
                    spec_share_control_encode(
                        PDU_TYPE_DATA,
                        server_source,
                        spec_share_data_encode(t.share_id, stream_id, pdu_type2, payload),
                    ),
                ),
            ),
        ) == Some((pdu_type2, payload)),
{
    let d = spec_share_data_encode(t.share_id, stream_id, pdu_type2, payload);
    lemma_share_control_transport_round_trip(
        t.inner,
        server_initiator_id,
        server_source,
        PDU_TYPE_DATA,
        d,
    );
    crate::rdp::lemma_share_data_round_trip(t.share_id, stream_id, pdu_type2, payload);
}

} // verus!
