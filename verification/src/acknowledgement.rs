//! Packets, their acknowledgements, and the message that relays an
//! acknowledgement, each read from its raw form.
//!
//! The raw form of a message is what arrives over the wire, field for
//! field: every field is there, but none has been checked.

use vstd::prelude::*;

use crate::commitment::CommitmentProofBytes;
use crate::height::{Height, RawHeight};
use crate::identifier::{ChannelId, PortId, Signer};
use crate::timestamp::Timestamp;

verus! {

/// Why a packet, or a message about a packet, was refused.
#[derive(Clone, Copy, Debug, PartialEq, Eq, Structural)]
pub enum PacketError {
    /// The message holds no packet.
    MissingPacket,
    /// The sequence number of the packet is zero.
    ZeroPacketSequence,
    /// The timeout height has a revision but no height within it.
    InvalidTimeoutHeight,
    /// The packet carries no data.
    ZeroPacketData,
    /// The packet times out neither at a height nor at a time.
    MissingTimeout,
    /// The acknowledgement is empty.
    InvalidAcknowledgement,
    /// The proof is empty.
    InvalidProof,
    /// The message names no height for its proof, or none that is a height.
    MissingHeight,
}

/// A packet as it arrives.
#[derive(Clone, Debug, PartialEq, Eq)]
pub struct RawPacket {
    pub sequence: u64,
    pub source_port: String,
    pub source_channel: String,
    pub destination_port: String,
    pub destination_channel: String,
    pub data: Vec<u8>,
    pub timeout_height: Option<RawHeight>,
    pub timeout_timestamp: u64,
}

/// The message that relays an acknowledgement, as it arrives.
#[derive(Clone, Debug, PartialEq, Eq)]
pub struct RawMsgAcknowledgement {
    pub packet: Option<RawPacket>,
    pub acknowledgement: Vec<u8>,
    pub proof_acked: Vec<u8>,
    pub proof_height: Option<RawHeight>,
    pub signer: String,
}

/// The height at which a packet times out, if it does.
#[derive(Clone, Copy, Debug, PartialEq, Eq, Structural)]
pub enum TimeoutHeight {
    Never,
    At(Height),
}

/// The timeout height that a raw height stands for. No height and the
/// height of two zeros stand for no timeout; a height of zero within a
/// revision that is not zero stands for nothing.
pub open spec fn timeout_height_of(raw: Option<RawHeight>) -> Result<TimeoutHeight, PacketError> {
    match raw {
        None => Ok(TimeoutHeight::Never),
        Some(h) => if h.revision_number == 0 && h.revision_height == 0 {
            Ok(TimeoutHeight::Never)
        } else if h.revision_height == 0 {
            Err(PacketError::InvalidTimeoutHeight)
        } else {
            Ok(
                TimeoutHeight::At(
                    Height {
                        revision_number: h.revision_number,
                        revision_height: h.revision_height,
                    },
                ),
            )
        },
    }
}

impl TimeoutHeight {
    pub fn is_set(&self) -> (r: bool)
        ensures
            r == (*self is At),
    {
        match self {
            TimeoutHeight::Never => false,
            TimeoutHeight::At(_) => true,
        }
    }

    /// Reads a timeout height from its raw form.
    pub fn try_from_raw(raw: Option<RawHeight>) -> (r: Result<TimeoutHeight, PacketError>)
        ensures
            r == timeout_height_of(raw),
    {
        match raw {
            None => Ok(TimeoutHeight::Never),
            Some(h) => {
                if h.revision_number == 0 && h.revision_height == 0 {
                    return Ok(TimeoutHeight::Never);
                }
                match Height::new(h.revision_number, h.revision_height) {
                    Ok(height) => Ok(TimeoutHeight::At(height)),
                    Err(_) => Err(PacketError::InvalidTimeoutHeight),
                }
            },
        }
    }

    /// The raw form of a timeout height: the height, or two zeros for no
    /// timeout.
    pub fn into_raw(self) -> (r: Option<RawHeight>)
        ensures
            r == raw_of_timeout_height(self),
    {
        match self {
            TimeoutHeight::Never => Some(RawHeight { revision_number: 0, revision_height: 0 }),
            TimeoutHeight::At(h) => Some(h.into_raw()),
        }
    }
}

/// The raw form of a timeout height.
pub open spec fn raw_of_timeout_height(timeout: TimeoutHeight) -> Option<RawHeight> {
    match timeout {
        TimeoutHeight::Never => Some(RawHeight { revision_number: 0, revision_height: 0 }),
        TimeoutHeight::At(h) => Some(
            RawHeight { revision_number: h.revision_number, revision_height: h.revision_height },
        ),
    }
}

/// A timeout height is read back from its raw form as it was, where its
/// height, if it has one, is well formed.
pub proof fn lemma_timeout_height_round_trip(timeout: TimeoutHeight)
    requires
        timeout matches TimeoutHeight::At(h) ==> h.wf(),
    ensures
        timeout_height_of(raw_of_timeout_height(timeout)) == Ok::<TimeoutHeight, PacketError>(
            timeout,
        ),
{
}

/// A packet: data on its way from a port of chain A to a port of chain B.
#[derive(Clone, Debug, PartialEq, Eq)]
pub struct Packet {
    pub seq_on_a: u64,
    pub port_id_on_a: PortId,
    pub chan_id_on_a: ChannelId,
    pub port_id_on_b: PortId,
    pub chan_id_on_b: ChannelId,
    pub data: Vec<u8>,
    pub timeout_height_on_b: TimeoutHeight,
    pub timeout_timestamp_on_b: Timestamp,
}

pub struct PacketView {
    pub seq_on_a: u64,
    pub port_id_on_a: Seq<char>,
    pub chan_id_on_a: Seq<char>,
    pub port_id_on_b: Seq<char>,
    pub chan_id_on_b: Seq<char>,
    pub data: Seq<u8>,
    pub timeout_height_on_b: TimeoutHeight,
    pub timeout_timestamp_on_b: Timestamp,
}

impl View for Packet {
    type V = PacketView;

    open spec fn view(&self) -> PacketView {
        PacketView {
            seq_on_a: self.seq_on_a,
            port_id_on_a: self.port_id_on_a@,
            chan_id_on_a: self.chan_id_on_a@,
            port_id_on_b: self.port_id_on_b@,
            chan_id_on_b: self.chan_id_on_b@,
            data: self.data@,
            timeout_height_on_b: self.timeout_height_on_b,
            timeout_timestamp_on_b: self.timeout_timestamp_on_b,
        }
    }
}

/// The packet that a raw packet stands for. A packet has a sequence number
/// that is not zero, data, and a timeout: a height, a time, or both.
pub open spec fn packet_of(raw: RawPacket) -> Result<PacketView, PacketError> {
    if raw.sequence == 0 {
        Err(PacketError::ZeroPacketSequence)
    } else {
        match timeout_height_of(raw.timeout_height) {
            Err(e) => Err(e),
            Ok(timeout_height) => if raw.data@.len() == 0 {
                Err(PacketError::ZeroPacketData)
            } else if timeout_height is Never && raw.timeout_timestamp == 0 {
                Err(PacketError::MissingTimeout)
            } else {
                Ok(
                    PacketView {
                        seq_on_a: raw.sequence,
                        port_id_on_a: raw.source_port@,
                        chan_id_on_a: raw.source_channel@,
                        port_id_on_b: raw.destination_port@,
                        chan_id_on_b: raw.destination_channel@,
                        data: raw.data@,
                        timeout_height_on_b: timeout_height,
                        timeout_timestamp_on_b: Timestamp { nanos: raw.timeout_timestamp },
                    },
                )
            },
        }
    }
}

impl Packet {
    /// Reads a packet from its raw form.
    pub fn try_from_raw(raw_pkt: RawPacket) -> (r: Result<Packet, PacketError>)
        ensures
            match packet_of(raw_pkt) {
                Ok(packet) => r is Ok && r->Ok_0@ == packet,
                Err(e) => r == Err::<Packet, PacketError>(e),
            },
    {
        if raw_pkt.sequence == 0 {
            return Err(PacketError::ZeroPacketSequence);
        }
        let packet_timeout_height = match TimeoutHeight::try_from_raw(raw_pkt.timeout_height) {
            Ok(h) => h,
            Err(e) => {
                return Err(e);
            },
        };
        if raw_pkt.data.len() == 0 {
            return Err(PacketError::ZeroPacketData);
        }
        let timeout_timestamp_on_b = Timestamp::from_nanoseconds(raw_pkt.timeout_timestamp);
        // the timeout height and the timeout timestamp cannot both be unset
        if !packet_timeout_height.is_set() && timeout_timestamp_on_b.nanoseconds() == 0 {
            return Err(PacketError::MissingTimeout);
        }
        Ok(
            Packet {
                seq_on_a: raw_pkt.sequence,
                port_id_on_a: PortId::new(raw_pkt.source_port),
                chan_id_on_a: ChannelId::new(raw_pkt.source_channel),
                port_id_on_b: PortId::new(raw_pkt.destination_port),
                chan_id_on_b: ChannelId::new(raw_pkt.destination_channel),
                data: raw_pkt.data,
                timeout_height_on_b: packet_timeout_height,
                timeout_timestamp_on_b,
            },
        )
    }

    /// The raw form of a packet.
    pub fn into_raw(self) -> (r: RawPacket)
        ensures
            r.sequence == self@.seq_on_a,
            r.source_port@ == self@.port_id_on_a,
            r.source_channel@ == self@.chan_id_on_a,
            r.destination_port@ == self@.port_id_on_b,
            r.destination_channel@ == self@.chan_id_on_b,
            r.data@ == self@.data,
            r.timeout_height == raw_of_timeout_height(self@.timeout_height_on_b),
            r.timeout_timestamp == self@.timeout_timestamp_on_b.nanos,
    {
        RawPacket {
            sequence: self.seq_on_a,
            source_port: self.port_id_on_a.id,
            source_channel: self.chan_id_on_a.id,
            destination_port: self.port_id_on_b.id,
            destination_channel: self.chan_id_on_b.id,
            data: self.data,
            timeout_height: self.timeout_height_on_b.into_raw(),
            timeout_timestamp: self.timeout_timestamp_on_b.nanoseconds(),
        }
    }
}

/// A packet that was read from a raw packet is read back from its own raw
/// form as it was.
pub proof fn lemma_packet_round_trip(raw: RawPacket, back: RawPacket)
    requires
        packet_of(raw) is Ok,
        back.sequence == packet_of(raw)->Ok_0.seq_on_a,
        back.source_port@ == packet_of(raw)->Ok_0.port_id_on_a,
        back.source_channel@ == packet_of(raw)->Ok_0.chan_id_on_a,
        back.destination_port@ == packet_of(raw)->Ok_0.port_id_on_b,
        back.destination_channel@ == packet_of(raw)->Ok_0.chan_id_on_b,
        back.data@ == packet_of(raw)->Ok_0.data,
        back.timeout_height == raw_of_timeout_height(packet_of(raw)->Ok_0.timeout_height_on_b),
        back.timeout_timestamp == packet_of(raw)->Ok_0.timeout_timestamp_on_b.nanos,
    ensures
        packet_of(back) == packet_of(raw),
{
}

/// What the receiving module answers to a packet. It is never empty.
#[derive(Debug, PartialEq, Eq)]
pub struct Acknowledgement {
    bytes: Vec<u8>,
}

impl View for Acknowledgement {
    type V = Seq<u8>;

    closed spec fn view(&self) -> Seq<u8> {
        self.bytes@
    }
}

impl Clone for Acknowledgement {
    fn clone(&self) -> (r: Acknowledgement)
        ensures
            r@ == self@,
    {
        proof {
            use_type_invariant(self);
        }
        Acknowledgement { bytes: crate::bytes::bytes_copy(self.bytes.as_slice()) }
    }
}

impl Acknowledgement {
    #[verifier::type_invariant]
    spec fn inv(&self) -> bool {
        self.bytes@.len() > 0
    }

    /// Accepts every byte string but the empty one.
    pub fn try_from_vec(bytes: Vec<u8>) -> (r: Result<Acknowledgement, PacketError>)
        ensures
            bytes@.len() == 0 ==> r == Err::<Acknowledgement, PacketError>(
                PacketError::InvalidAcknowledgement,
            ),
            bytes@.len() > 0 ==> r is Ok && r->Ok_0@ == bytes@,
    {
        if bytes.len() == 0 {
            Err(PacketError::InvalidAcknowledgement)
        } else {
            Ok(Acknowledgement { bytes })
        }
    }

    pub fn as_bytes(&self) -> (r: &[u8])
        ensures
            r@ == self@,
            r@.len() > 0,
    {
        proof {
            use_type_invariant(self);
        }
        self.bytes.as_slice()
    }

    pub fn into_vec(self) -> (r: Vec<u8>)
        ensures
            r@ == self@,
            r@.len() > 0,
    {
        proof {
            use_type_invariant(&self);
        }
        self.bytes
    }
}

/// The message that relays the acknowledgement of a packet to the chain
/// that sent the packet.
#[derive(Clone, Debug, PartialEq, Eq)]
pub struct MsgAcknowledgement {
    pub packet: Packet,
    pub acknowledgement: Acknowledgement,
    /// The proof that the receiving chain stores the acknowledgement.
    pub proof_acked_on_b: CommitmentProofBytes,
    /// The height of the receiving chain at which the proof was taken.
    pub proof_height_on_b: Height,
    pub signer: Signer,
}

pub struct MsgAcknowledgementView {
    pub packet: PacketView,
    pub acknowledgement: Seq<u8>,
    pub proof_acked_on_b: Seq<u8>,
    pub proof_height_on_b: Height,
    pub signer: Seq<char>,
}

impl View for MsgAcknowledgement {
    type V = MsgAcknowledgementView;

    open spec fn view(&self) -> MsgAcknowledgementView {
        MsgAcknowledgementView {
            packet: self.packet@,
            acknowledgement: self.acknowledgement@,
            proof_acked_on_b: self.proof_acked_on_b@,
            proof_height_on_b: self.proof_height_on_b,
            signer: self.signer@,
        }
    }
}

/// The message that a raw message stands for. The checks come in this
/// order: there is a packet, and it is one; the acknowledgement is not
/// empty; the proof is not empty; there is a proof height, with a height
/// within its revision that is not zero.
pub open spec fn msg_acknowledgement_of(raw: RawMsgAcknowledgement) -> Result<
    MsgAcknowledgementView,
    PacketError,
> {
    match raw.packet {
        None => Err(PacketError::MissingPacket),
        Some(raw_packet) => match packet_of(raw_packet) {
            Err(e) => Err(e),
            Ok(packet) => if raw.acknowledgement@.len() == 0 {
                Err(PacketError::InvalidAcknowledgement)
            } else if raw.proof_acked@.len() == 0 {
                Err(PacketError::InvalidProof)
            } else {
                match raw.proof_height {
                    None => Err(PacketError::MissingHeight),
                    Some(h) => if h.revision_height == 0 {
                        Err(PacketError::MissingHeight)
                    } else {
                        Ok(
                            MsgAcknowledgementView {
                                packet,
                                acknowledgement: raw.acknowledgement@,
                                proof_acked_on_b: raw.proof_acked@,
                                proof_height_on_b: Height {
                                    revision_number: h.revision_number,
                                    revision_height: h.revision_height,
                                },
                                signer: raw.signer@,
                            },
                        )
                    },
                }
            },
        },
    }
}

impl MsgAcknowledgement {
    /// Reads the message from its raw form.
    pub fn try_from_raw(raw_msg: RawMsgAcknowledgement) -> (r: Result<
        MsgAcknowledgement,
        PacketError,
    >)
        ensures
            match msg_acknowledgement_of(raw_msg) {
                Ok(msg) => r is Ok && r->Ok_0@ == msg,
                Err(e) => r == Err::<MsgAcknowledgement, PacketError>(e),
            },
    {
        let packet = match raw_msg.packet {
            None => {
                return Err(PacketError::MissingPacket);
            },
            Some(raw_packet) => match Packet::try_from_raw(raw_packet) {
                Ok(packet) => packet,
                Err(e) => {
                    return Err(e);
                },
            },
        };
        let acknowledgement = match Acknowledgement::try_from_vec(raw_msg.acknowledgement) {
            Ok(ack) => ack,
            Err(e) => {
                return Err(e);
            },
        };
        let proof_acked_on_b = match CommitmentProofBytes::try_from_vec(raw_msg.proof_acked) {
            Ok(proof) => proof,
            Err(_) => {
                return Err(PacketError::InvalidProof);
            },
        };
        let proof_height_on_b = match raw_msg.proof_height {
            None => {
                return Err(PacketError::MissingHeight);
            },
            Some(h) => match Height::new(h.revision_number, h.revision_height) {
                Ok(height) => height,
                Err(_) => {
                    return Err(PacketError::MissingHeight);
                },
            },
        };
        Ok(
            MsgAcknowledgement {
                packet,
                acknowledgement,
                proof_acked_on_b,
                proof_height_on_b,
                signer: Signer::new(raw_msg.signer),
            },
        )
    }

    /// The raw form of the message.
    pub fn into_raw(self) -> (r: RawMsgAcknowledgement)
        ensures
            r.packet is Some,
            r.packet->0.sequence == self@.packet.seq_on_a,
            r.packet->0.source_port@ == self@.packet.port_id_on_a,
            r.packet->0.source_channel@ == self@.packet.chan_id_on_a,
            r.packet->0.destination_port@ == self@.packet.port_id_on_b,
            r.packet->0.destination_channel@ == self@.packet.chan_id_on_b,
            r.packet->0.data@ == self@.packet.data,
            r.packet->0.timeout_height == raw_of_timeout_height(self@.packet.timeout_height_on_b),
            r.packet->0.timeout_timestamp == self@.packet.timeout_timestamp_on_b.nanos,
            r.acknowledgement@ == self@.acknowledgement,
            r.proof_acked@ == self@.proof_acked_on_b,
            r.proof_height == Some(
                RawHeight {
                    revision_number: self@.proof_height_on_b.revision_number,
                    revision_height: self@.proof_height_on_b.revision_height,
                },
            ),
            r.signer@ == self@.signer,
    {
        RawMsgAcknowledgement {
            packet: Some(self.packet.into_raw()),
            acknowledgement: self.acknowledgement.into_vec(),
            proof_acked: self.proof_acked_on_b.into_vec(),
            proof_height: Some(self.proof_height_on_b.into_raw()),
            signer: self.signer.account,
        }
    }
}

} // verus!
