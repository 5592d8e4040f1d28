//! The calls into `prost` that decode and encode the messages of
//! `ibc-proto` which clients take in packed form.
//!
//! Nothing in this file is proved: each function states what the fields of
//! the message are that `prost` decodes from the bytes, or what bytes it
//! encodes a message as.

use ibc_proto::ibc::lightclients::tendermint::v1::{
    ConsensusState as ProtoTmConsensusState, Header as ProtoTmHeader,
    Misbehaviour as ProtoTmMisbehaviour,
};
use ibc_proto::ibc::mock::{
    ClientState as ProtoMockClientState, ConsensusState as ProtoMockConsensusState,
    Header as ProtoMockHeader, Misbehaviour as ProtoMockMisbehaviour,
};
use vstd::prelude::*;

use crate::height::RawHeight;

verus! {

/// A header of the mock chain, as it arrives.
#[derive(Clone, Copy, Debug, PartialEq, Eq, Structural)]
pub struct RawMockHeader {
    pub height: Option<RawHeight>,
    pub timestamp: u64,
}

/// Evidence of misbehaviour of the mock chain, as it arrives.
#[derive(Clone, Debug, PartialEq, Eq)]
pub struct RawMockMisbehaviour {
    pub client_id: String,
    pub header1: Option<RawMockHeader>,
    pub header2: Option<RawMockHeader>,
}

pub struct RawMockMisbehaviourView {
    pub client_id: Seq<char>,
    pub header1: Option<RawMockHeader>,
    pub header2: Option<RawMockHeader>,
}

impl View for RawMockMisbehaviour {
    type V = RawMockMisbehaviourView;

    open spec fn view(&self) -> RawMockMisbehaviourView {
        RawMockMisbehaviourView {
            client_id: self.client_id@,
            header1: self.header1,
            header2: self.header2,
        }
    }
}

/// A point in time as it arrives: seconds since the Unix epoch, and
/// nanoseconds on top of them.
#[derive(Clone, Copy, Debug, PartialEq, Eq, Structural)]
pub struct RawTimestamp {
    pub seconds: i64,
    pub nanos: i32,
}

/// A consensus state of a Tendermint client, as it arrives.
#[derive(Clone, Debug, PartialEq, Eq)]
pub struct RawTmConsensusState {
    pub timestamp: Option<RawTimestamp>,
    pub root: Option<Vec<u8>>,
    pub next_validators_hash: Vec<u8>,
}

pub struct RawTmConsensusStateView {
    pub timestamp: Option<RawTimestamp>,
    pub root: Option<Seq<u8>>,
    pub next_validators_hash: Seq<u8>,
}

/// The bytes of a root, where there is one.
pub open spec fn root_view(root: Option<Vec<u8>>) -> Option<Seq<u8>> {
    match root {
        Some(r) => Some(r@),
        None => None,
    }
}

impl View for RawTmConsensusState {
    type V = RawTmConsensusStateView;

    open spec fn view(&self) -> RawTmConsensusStateView {
        RawTmConsensusStateView {
            timestamp: self.timestamp,
            root: root_view(self.root),
            next_validators_hash: self.next_validators_hash@,
        }
    }
}

/// What a header of a Tendermint chain holds besides its signed header
/// and its validators: the voting power of each validator of either set
/// that is there, as the number that arrived, and the trusted height.
#[derive(Clone, Debug, PartialEq, Eq)]
pub struct RawTmHeaderNumbers {
    pub validator_powers: Option<Vec<i64>>,
    pub trusted_powers: Option<Vec<i64>>,
    pub trusted_height: Option<RawHeight>,
}

pub struct RawTmHeaderNumbersView {
    pub validator_powers: Option<Seq<i64>>,
    pub trusted_powers: Option<Seq<i64>>,
    pub trusted_height: Option<RawHeight>,
}

/// The numbers of a list of voting powers, where there is one.
pub open spec fn powers_view(powers: Option<Vec<i64>>) -> Option<Seq<i64>> {
    match powers {
        Some(p) => Some(p@),
        None => None,
    }
}

impl View for RawTmHeaderNumbers {
    type V = RawTmHeaderNumbersView;

    open spec fn view(&self) -> RawTmHeaderNumbersView {
        RawTmHeaderNumbersView {
            validator_powers: powers_view(self.validator_powers),
            trusted_powers: powers_view(self.trusted_powers),
            trusted_height: self.trusted_height,
        }
    }
}

/// The sum of a list of voting powers, with each power below zero counted
/// as zero.
pub open spec fn clamped_total(powers: Seq<i64>) -> int
    decreases powers.len(),
{
    if powers.len() == 0 {
        0
    } else if powers.last() < 0 {
        clamped_total(powers.drop_last())
    } else {
        clamped_total(powers.drop_last()) + powers.last()
    }
}

/// Whether `tendermint` can make a validator set of validators with the
/// voting powers given: it adds the powers up to a power, which is a
/// number of 63 bits, unless it refuses a power below zero first.
pub open spec fn powers_convertible(powers: Seq<i64>) -> bool {
    clamped_total(powers) <= i64::MAX
}

/// The signed header of a Tendermint header, decoded as far as `prost` and
/// `tendermint` take it.
#[derive(Debug)]
pub enum SignedHeaderDecoded {
    /// The bytes are no encoding of a header.
    Undecodable,
    /// The header holds no signed header.
    Missing,
    /// `tendermint` refused the signed header.
    Invalid,
    Value(tendermint::block::signed_header::SignedHeader),
}

/// A validator set of a Tendermint header, decoded as far as `prost` and
/// `tendermint` take it.
#[derive(Debug)]
pub enum ValidatorSetDecoded {
    /// The bytes are no encoding of a header.
    Undecodable,
    /// The header does not hold the validator set.
    Missing,
    /// `tendermint` refused the validator set.
    Invalid,
    Value(tendermint::validator::Set),
}

/// Evidence of misbehaviour of a Tendermint chain, taken apart: the client
/// that it names, and the encoding of each of its headers that is there.
#[derive(Clone, Debug, PartialEq, Eq)]
pub struct RawTmMisbehaviour {
    pub client_id: String,
    pub header1: Option<Vec<u8>>,
    pub header2: Option<Vec<u8>>,
}

pub struct RawTmMisbehaviourView {
    pub client_id: Seq<char>,
    pub header1: Option<Seq<u8>>,
    pub header2: Option<Seq<u8>>,
}

impl View for RawTmMisbehaviour {
    type V = RawTmMisbehaviourView;

    open spec fn view(&self) -> RawTmMisbehaviourView {
        RawTmMisbehaviourView {
            client_id: self.client_id@,
            header1: root_view(self.header1),
            header2: root_view(self.header2),
        }
    }
}

/// The `ibc_proto::ibc::mock::Header` that bytes encode, where they encode
/// one.
pub uninterp spec fn mock_header_decoded(bytes: Seq<u8>) -> Option<RawMockHeader>;

/// The `ibc_proto::ibc::mock::Misbehaviour` that bytes encode, where they
/// encode one.
pub uninterp spec fn mock_misbehaviour_decoded(bytes: Seq<u8>) -> Option<RawMockMisbehaviourView>;

/// The header of the `ibc_proto::ibc::mock::ClientState` that bytes encode,
/// where they encode one.
pub uninterp spec fn mock_client_state_decoded(bytes: Seq<u8>) -> Option<Option<RawMockHeader>>;

/// The header of the `ibc_proto::ibc::mock::ConsensusState` that bytes
/// encode, where they encode one.
pub uninterp spec fn mock_consensus_state_decoded(bytes: Seq<u8>) -> Option<Option<RawMockHeader>>;

/// The bytes that `prost` encodes an `ibc_proto::ibc::mock::ClientState`
/// with a header as.
pub uninterp spec fn mock_client_state_encoded(header: RawMockHeader) -> Seq<u8>;

/// The voting powers and the trusted height of the `ibc_proto` Tendermint
/// header that bytes encode, where they encode one.
pub uninterp spec fn tm_header_numbers_decoded(bytes: Seq<u8>) -> Option<RawTmHeaderNumbersView>;

/// The signed header of the `ibc_proto` Tendermint header that bytes
/// encode, as `tendermint` takes it.
pub uninterp spec fn tm_signed_header_decoded(bytes: Seq<u8>) -> SignedHeaderDecoded;

/// The validator set of the `ibc_proto` Tendermint header that bytes
/// encode, as `tendermint` takes it.
pub uninterp spec fn tm_validator_set_decoded(bytes: Seq<u8>) -> ValidatorSetDecoded;

/// The trusted validator set of the `ibc_proto` Tendermint header that
/// bytes encode, as `tendermint` takes it.
pub uninterp spec fn tm_trusted_validators_decoded(bytes: Seq<u8>) -> ValidatorSetDecoded;

/// The `ibc_proto` Tendermint misbehaviour that bytes encode, where they
/// encode one, with each of its headers encoded again.
pub uninterp spec fn tm_misbehaviour_decoded(bytes: Seq<u8>) -> Option<RawTmMisbehaviourView>;

/// The `ibc_proto` Tendermint consensus state that bytes encode, where they
/// encode one.
pub uninterp spec fn tm_consensus_state_decoded(bytes: Seq<u8>) -> Option<RawTmConsensusStateView>;

/// Decodes an `ibc_proto::ibc::mock::Header` with `prost::Message::decode`
/// and hands out its fields.
#[verifier::external_body]
pub(crate) fn decode_mock_header(bytes: &[u8]) -> (r: Option<RawMockHeader>)
    ensures
        r == mock_header_decoded(bytes@),
{
    let decoded: Result<ProtoMockHeader, prost::DecodeError> = prost::Message::decode(bytes);
    decoded.ok().map(|h| RawMockHeader {
        height: h.height.map(|x| RawHeight {
            revision_number: x.revision_number,
            revision_height: x.revision_height,
        }),
        timestamp: h.timestamp,
    })
}

/// Decodes an `ibc_proto::ibc::mock::Misbehaviour` with
/// `prost::Message::decode` and hands out its fields.
#[verifier::external_body]
pub(crate) fn decode_mock_misbehaviour(bytes: &[u8]) -> (r: Option<RawMockMisbehaviour>)
    ensures
        r is Some <==> mock_misbehaviour_decoded(bytes@) is Some,
        r matches Some(m) ==> mock_misbehaviour_decoded(bytes@) == Some(m@),
{
    let raw_height = |x: ibc_proto::ibc::core::client::v1::Height| RawHeight {
        revision_number: x.revision_number,
        revision_height: x.revision_height,
    };
    let raw_header = |h: ProtoMockHeader| RawMockHeader {
        height: h.height.map(raw_height),
        timestamp: h.timestamp,
    };
    let decoded: Result<ProtoMockMisbehaviour, prost::DecodeError> = prost::Message::decode(bytes);
    decoded.ok().map(|m| RawMockMisbehaviour {
        client_id: m.client_id,
        header1: m.header1.map(raw_header),
        header2: m.header2.map(raw_header),
    })
}

/// Decodes an `ibc_proto::ibc::mock::ClientState` with
/// `prost::Message::decode` and hands out the fields of its header.
#[verifier::external_body]
pub(crate) fn decode_mock_client_state(bytes: &[u8]) -> (r: Option<Option<RawMockHeader>>)
    ensures
        r == mock_client_state_decoded(bytes@),
{
    let decoded: Result<ProtoMockClientState, prost::DecodeError> = prost::Message::decode(bytes);
    decoded.ok().map(|s| s.header.map(|h| RawMockHeader {
        height: h.height.map(|x| RawHeight {
            revision_number: x.revision_number,
            revision_height: x.revision_height,
        }),
        timestamp: h.timestamp,
    }))
}

/// Decodes an `ibc_proto::ibc::mock::ConsensusState` with
/// `prost::Message::decode` and hands out the fields of its header.
#[verifier::external_body]
pub(crate) fn decode_mock_consensus_state(bytes: &[u8]) -> (r: Option<Option<RawMockHeader>>)
    ensures
        r == mock_consensus_state_decoded(bytes@),
{
    let decoded: Result<ProtoMockConsensusState, prost::DecodeError> = prost::Message::decode(bytes);
    decoded.ok().map(|s| s.header.map(|h| RawMockHeader {
        height: h.height.map(|x| RawHeight {
            revision_number: x.revision_number,
            revision_height: x.revision_height,
        }),
        timestamp: h.timestamp,
    }))
}

/// Builds an `ibc_proto::ibc::mock::ClientState` by its struct literal and
/// encodes it with `prost::Message::encode_to_vec`.
#[verifier::external_body]
pub(crate) fn encode_mock_client_state(header: RawMockHeader) -> (r: Vec<u8>)
    ensures
        r@ == mock_client_state_encoded(header),
{
    let height = header.height.map(|x| ibc_proto::ibc::core::client::v1::Height {
        revision_number: x.revision_number,
        revision_height: x.revision_height,
    });
    let header = ProtoMockHeader { height, timestamp: header.timestamp };
    prost::Message::encode_to_vec(&ProtoMockClientState { header: Some(header) })
}

/// Decodes an `ibc_proto` Tendermint header with `prost::Message::decode`
/// and hands out the voting power of each validator of its two validator
/// sets, and its trusted height.
#[verifier::external_body]
pub(crate) fn decode_tm_header_numbers(bytes: &[u8]) -> (r: Option<RawTmHeaderNumbers>)
    ensures
        r is Some <==> tm_header_numbers_decoded(bytes@) is Some,
        r matches Some(n) ==> tm_header_numbers_decoded(bytes@) == Some(n@),
{
    let decoded: Result<ProtoTmHeader, prost::DecodeError> = prost::Message::decode(bytes);
    decoded.ok().map(|h| RawTmHeaderNumbers {
        validator_powers: h.validator_set.map(|s| {
            s.validators.iter().map(|v| v.voting_power).collect()
        }),
        trusted_powers: h.trusted_validators.map(|s| {
            s.validators.iter().map(|v| v.voting_power).collect()
        }),
        trusted_height: h.trusted_height.map(|x| RawHeight {
            revision_number: x.revision_number,
            revision_height: x.revision_height,
        }),
    })
}

/// Decodes an `ibc_proto` Tendermint header with `prost::Message::decode`
/// and turns its signed header into that of `tendermint` with its
/// `TryFrom`.
#[verifier::external_body]
pub(crate) fn decode_tm_signed_header(bytes: &[u8]) -> (r: SignedHeaderDecoded)
    ensures
        r == tm_signed_header_decoded(bytes@),
{
    let decoded: Result<ProtoTmHeader, prost::DecodeError> = prost::Message::decode(bytes);
    let Ok(raw) = decoded else { return SignedHeaderDecoded::Undecodable };
    let Some(signed) = raw.signed_header else { return SignedHeaderDecoded::Missing };
    match signed.try_into() {
        Ok(signed_header) => SignedHeaderDecoded::Value(signed_header),
        Err(_) => SignedHeaderDecoded::Invalid,
    }
}

/// Decodes an `ibc_proto` Tendermint header with `prost::Message::decode`
/// and turns its validator set into that of `tendermint` with its
/// `TryFrom`, which adds up the voting power of the validators: the powers
/// are to be convertible.
#[verifier::external_body]
pub(crate) fn decode_tm_validator_set(bytes: &[u8]) -> (r: ValidatorSetDecoded)
    requires
        tm_header_numbers_decoded(bytes@) matches Some(n) && (n.validator_powers matches Some(p)
            ==> powers_convertible(p)),
    ensures
        r == tm_validator_set_decoded(bytes@),
{
    let decoded: Result<ProtoTmHeader, prost::DecodeError> = prost::Message::decode(bytes);
    let Ok(raw) = decoded else { return ValidatorSetDecoded::Undecodable };
    let Some(set) = raw.validator_set else { return ValidatorSetDecoded::Missing };
    match set.try_into() {
        Ok(validator_set) => ValidatorSetDecoded::Value(validator_set),
        Err(_) => ValidatorSetDecoded::Invalid,
    }
}

/// Decodes an `ibc_proto` Tendermint header with `prost::Message::decode`
/// and turns its trusted validator set into that of `tendermint` with its
/// `TryFrom`, which adds up the voting power of the validators: the powers
/// are to be convertible.
#[verifier::external_body]
pub(crate) fn decode_tm_trusted_validators(bytes: &[u8]) -> (r: ValidatorSetDecoded)
    requires
        tm_header_numbers_decoded(bytes@) matches Some(n) && (n.trusted_powers matches Some(p)
            ==> powers_convertible(p)),
    ensures
        r == tm_trusted_validators_decoded(bytes@),
{
    let decoded: Result<ProtoTmHeader, prost::DecodeError> = prost::Message::decode(bytes);
    let Ok(raw) = decoded else { return ValidatorSetDecoded::Undecodable };
    let Some(set) = raw.trusted_validators else { return ValidatorSetDecoded::Missing };
    match set.try_into() {
        Ok(validator_set) => ValidatorSetDecoded::Value(validator_set),
        Err(_) => ValidatorSetDecoded::Invalid,
    }
}

/// Decodes an `ibc_proto` Tendermint misbehaviour with
/// `prost::Message::decode`, and encodes each of its headers again with
/// `prost::Message::encode_to_vec`.
#[verifier::external_body]
pub(crate) fn decode_tm_misbehaviour(bytes: &[u8]) -> (r: Option<RawTmMisbehaviour>)
    ensures
        r is Some <==> tm_misbehaviour_decoded(bytes@) is Some,
        r matches Some(m) ==> tm_misbehaviour_decoded(bytes@) == Some(m@),
{
    let decoded: Result<ProtoTmMisbehaviour, prost::DecodeError> = prost::Message::decode(bytes);
    #[allow(deprecated)]
    decoded.ok().map(|m| RawTmMisbehaviour {
        client_id: m.client_id,
        header1: m.header_1.map(|h| prost::Message::encode_to_vec(&h)),
        header2: m.header_2.map(|h| prost::Message::encode_to_vec(&h)),
    })
}

/// Decodes an `ibc_proto` Tendermint consensus state with
/// `prost::Message::decode` and hands out its fields.
#[verifier::external_body]
pub(crate) fn decode_tm_consensus_state(bytes: &[u8]) -> (r: Option<RawTmConsensusState>)
    ensures
        r is Some <==> tm_consensus_state_decoded(bytes@) is Some,
        r matches Some(s) ==> tm_consensus_state_decoded(bytes@) == Some(s@),
{
    let decoded: Result<ProtoTmConsensusState, prost::DecodeError> = prost::Message::decode(bytes);
    decoded.ok().map(|s| RawTmConsensusState {
        timestamp: s.timestamp.map(|t| RawTimestamp { seconds: t.seconds, nanos: t.nanos }),
        root: s.root.map(|r| r.hash),
        next_validators_hash: s.next_validators_hash,
    })
}

} // verus!
