//! The data of the Tendermint light client: headers, misbehaviour evidence,
//! consensus states and the options of the verifier.

use vstd::prelude::*;

use crate::any::{Any, AnyView};
use crate::bytes::bytes_copy;
use crate::commitment::CommitmentRoot;
use crate::error::ClientError;
use crate::height::{height_of_raw, Height};
use crate::ics07_tendermint::calls::{signed_header_summary, summarize};
use crate::ics07_tendermint::error::{ConsensusStateFault, Error, VotingPowerTally};
use crate::identifier::ClientId;
use crate::timestamp::{Duration, Timestamp};
use crate::wire::{
    clamped_total, decode_tm_consensus_state, decode_tm_header_numbers, decode_tm_misbehaviour,
    decode_tm_signed_header, decode_tm_trusted_validators, decode_tm_validator_set,
    powers_convertible, tm_consensus_state_decoded, tm_header_numbers_decoded,
    tm_misbehaviour_decoded, tm_signed_header_decoded, tm_trusted_validators_decoded,
    tm_validator_set_decoded, RawTimestamp, RawTmConsensusState, RawTmConsensusStateView,
    RawTmMisbehaviourView, SignedHeaderDecoded, ValidatorSetDecoded,
};

verus! {

/// The name of the type of a header of a Tendermint chain.
pub const TENDERMINT_HEADER_TYPE_URL: &'static str = "/ibc.lightclients.tendermint.v1.Header";

/// The name of the type of misbehaviour evidence of a Tendermint chain.
pub const TENDERMINT_MISBEHAVIOUR_TYPE_URL: &'static str =
    "/ibc.lightclients.tendermint.v1.Misbehaviour";

/// The name of the type of a consensus state of a Tendermint client.
pub const TENDERMINT_CONSENSUS_STATE_TYPE_URL: &'static str =
    "/ibc.lightclients.tendermint.v1.ConsensusState";

/// What a light client reads in a signed header.
#[derive(Clone, Debug, PartialEq, Eq)]
pub struct HeaderSummary {
    pub chain_id: String,
    pub height: u64,
    /// The time of the block, in nanoseconds since the Unix epoch.
    pub time_nanos: i128,
    /// The hash of the block that the commit is for.
    pub block_hash: Vec<u8>,
    pub app_hash: Vec<u8>,
    pub validators_hash: Vec<u8>,
    pub next_validators_hash: Vec<u8>,
}

pub struct HeaderSummaryView {
    pub chain_id: Seq<char>,
    pub height: u64,
    pub time_nanos: i128,
    pub block_hash: Seq<u8>,
    pub app_hash: Seq<u8>,
    pub validators_hash: Seq<u8>,
    pub next_validators_hash: Seq<u8>,
}

impl View for HeaderSummary {
    type V = HeaderSummaryView;

    open spec fn view(&self) -> HeaderSummaryView {
        HeaderSummaryView {
            chain_id: self.chain_id@,
            height: self.height,
            time_nanos: self.time_nanos,
            block_hash: self.block_hash@,
            app_hash: self.app_hash@,
            validators_hash: self.validators_hash@,
            next_validators_hash: self.next_validators_hash@,
        }
    }
}

/// A letter, a digit, a hyphen, an underscore or a full stop.
pub open spec fn chain_id_char(c: char) -> bool {
    ('a' <= c && c <= 'z') || ('A' <= c && c <= 'Z') || ('0' <= c && c <= '9') || c == '-' || c
        == '_' || c == '.'
}

/// A text that can name a chain: one to fifty characters, each of them a
/// letter, a digit, a hyphen, an underscore or a full stop.
pub open spec fn chain_id_text_valid(text: Seq<char>) -> bool {
    &&& 1 <= text.len() <= 50
    &&& forall|i: int| 0 <= i < text.len() ==> chain_id_char(#[trigger] text[i])
}

/// The fraction of the voting power of a trusted validator set that has to
/// stand behind a header.
#[derive(Clone, Copy, Debug, PartialEq, Eq, Structural)]
pub struct TrustThreshold {
    pub numerator: u64,
    pub denominator: u64,
}

/// A fraction between one third and one, whose numerator can be tripled in
/// 64 bits.
pub open spec fn trust_threshold_valid(numerator: u64, denominator: u64) -> bool {
    &&& denominator != 0
    &&& numerator <= denominator
    &&& 3 * numerator >= denominator
    &&& 3 * numerator <= u64::MAX
}

/// The options of the verifier, as plain values.
#[derive(Clone, Copy, Debug, PartialEq, Eq, Structural)]
pub struct LightClientOptions {
    pub numerator: u64,
    pub denominator: u64,
    pub trusting_period: Duration,
    pub clock_drift: Duration,
}

impl LightClientOptions {
    pub open spec fn wf(&self) -> bool {
        &&& trust_threshold_valid(self.numerator, self.denominator)
        &&& self.trusting_period.wf()
        &&& self.clock_drift.wf()
    }
}

/// The three verdicts of the verifier.
#[derive(Debug)]
pub enum LightClientVerdict {
    /// The header is valid.
    Success,
    /// The header may be valid, but too little of the trusted validator set
    /// signed it.
    NotEnoughTrust(VotingPowerTally),
    /// The header is invalid.
    Invalid(tendermint_light_client_verifier::errors::VerificationErrorDetail),
}

/// A header of a Tendermint chain as a relayer submits it: the signed header
/// with the validators that signed it, and the height and the validator set
/// that the submitter asks the client to trust it from.
#[derive(Clone, Debug, PartialEq, Eq)]
pub struct Header {
    pub signed_header: tendermint::block::signed_header::SignedHeader,
    pub validator_set: tendermint::validator::Set,
    pub trusted_height: Height,
    pub trusted_next_validator_set: tendermint::validator::Set,
}

/// The validator set that a decoded one stands for: a set that could not
/// be converted is an invalid part of the header.
pub open spec fn validator_set_of(decoded: ValidatorSetDecoded) -> Result<
    tendermint::validator::Set,
    Error,
> {
    match decoded {
        ValidatorSetDecoded::Value(set) => Ok(set),
        _ => Err(Error::InvalidRawHeader),
    }
}

/// The header that bytes encode. The checks come in this order: the bytes
/// encode a header; it holds a signed header, and that is one; it holds a
/// validator set, whose powers add up to a power, and that is one; it
/// names a trusted height; it holds a trusted validator set, whose powers
/// add up to a power, and that is one.
pub open spec fn tm_header_of_bytes(bytes: Seq<u8>) -> Result<Header, Error> {
    match tm_header_numbers_decoded(bytes) {
        None => Err(Error::Decode),
        Some(numbers) => match tm_signed_header_decoded(bytes) {
            SignedHeaderDecoded::Undecodable => Err(Error::Decode),
            SignedHeaderDecoded::Missing => Err(Error::MissingSignedHeader),
            SignedHeaderDecoded::Invalid => Err(Error::InvalidHeader),
            SignedHeaderDecoded::Value(signed_header) => match numbers.validator_powers {
                None => Err(Error::MissingValidatorSet),
                Some(powers) => if !powers_convertible(powers) {
                    Err(Error::InvalidRawHeader)
                } else {
                    match validator_set_of(tm_validator_set_decoded(bytes)) {
                        Err(e) => Err(e),
                        Ok(validator_set) => match height_of_raw(numbers.trusted_height) {
                            None => Err(Error::MissingTrustedHeight),
                            Some(trusted_height) => match numbers.trusted_powers {
                                None => Err(Error::MissingTrustedNextValidatorSet),
                                Some(trusted_powers) => if !powers_convertible(trusted_powers) {
                                    Err(Error::InvalidRawHeader)
                                } else {
                                    match validator_set_of(tm_trusted_validators_decoded(bytes)) {
                                        Err(e) => Err(e),
                                        Ok(trusted_next_validator_set) => Ok(
                                            Header {
                                                signed_header,
                                                validator_set,
                                                trusted_height,
                                                trusted_next_validator_set,
                                            },
                                        ),
                                    }
                                },
                            },
                        },
                    }
                },
            },
        },
    }
}

/// Whether a list of voting powers adds up to a power, with each power
/// below zero counted as zero.
pub fn powers_are_convertible(powers: &Vec<i64>) -> (r: bool)
    ensures
        r == powers_convertible(powers@),
{
    let limit: u64 = 0x7fff_ffff_ffff_ffff;
    let mut sum: u64 = 0;
    let mut i: usize = 0;
    assert(powers@.subrange(0, 0) =~= Seq::<i64>::empty());
    while i < powers.len()
        invariant
            limit == i64::MAX,
            i <= powers@.len(),
            sum == clamped_total(powers@.subrange(0, i as int)),
            sum <= limit,
        decreases powers@.len() - i,
    {
        let power: i64 = powers[i];
        assert(powers@.subrange(0, i + 1).drop_last() =~= powers@.subrange(0, i as int));
        assert(powers@.subrange(0, i + 1).last() == power);
        if power > 0 {
            let step: u64 = power as u64;
            if step > limit - sum {
                proof {
                    lemma_clamped_total_grows(powers@, i + 1);
                }
                return false;
            }
            sum = sum + step;
        }
        i += 1;
    }
    assert(powers@.subrange(0, i as int) =~= powers@);
    true
}

/// The clamped sum of a list of voting powers is at least that of any of
/// its beginnings.
proof fn lemma_clamped_total_grows(powers: Seq<i64>, n: int)
    requires
        0 <= n <= powers.len(),
    ensures
        clamped_total(powers.subrange(0, n)) <= clamped_total(powers),
    decreases powers.len() - n,
{
    if n < powers.len() {
        assert(powers.subrange(0, n + 1).drop_last() =~= powers.subrange(0, n));
        lemma_clamped_total_grows(powers, n + 1);
    } else {
        assert(powers.subrange(0, n) =~= powers);
    }
}

/// The header that a packed message stands for: the message is to be of the
/// type of a Tendermint header, and its bytes are to encode one.
pub open spec fn tm_header_of_any(any: AnyView) -> Result<Header, ClientError> {
    if any.type_url != TENDERMINT_HEADER_TYPE_URL@ {
        Err(ClientError::UnknownHeaderType)
    } else {
        match tm_header_of_bytes(any.value) {
            Ok(header) => Ok(header),
            Err(e) => Err(ClientError::ClientSpecific(e)),
        }
    }
}

impl Header {
    /// Reads a header from its encoding.
    pub fn decode(bytes: &[u8]) -> (r: Result<Header, Error>)
        ensures
            r == tm_header_of_bytes(bytes@),
    {
        let numbers = match decode_tm_header_numbers(bytes) {
            None => {
                return Err(Error::Decode);
            },
            Some(numbers) => numbers,
        };
        let signed_header = match decode_tm_signed_header(bytes) {
            SignedHeaderDecoded::Undecodable => {
                return Err(Error::Decode);
            },
            SignedHeaderDecoded::Missing => {
                return Err(Error::MissingSignedHeader);
            },
            SignedHeaderDecoded::Invalid => {
                return Err(Error::InvalidHeader);
            },
            SignedHeaderDecoded::Value(signed_header) => signed_header,
        };
        match &numbers.validator_powers {
            None => {
                return Err(Error::MissingValidatorSet);
            },
            Some(powers) => {
                if !powers_are_convertible(powers) {
                    return Err(Error::InvalidRawHeader);
                }
            },
        }
        let validator_set = match decode_tm_validator_set(bytes) {
            ValidatorSetDecoded::Value(set) => set,
            _ => {
                return Err(Error::InvalidRawHeader);
            },
        };
        let trusted_height = match Height::try_from_raw(numbers.trusted_height) {
            None => {
                return Err(Error::MissingTrustedHeight);
            },
            Some(height) => height,
        };
        match &numbers.trusted_powers {
            None => {
                return Err(Error::MissingTrustedNextValidatorSet);
            },
            Some(powers) => {
                if !powers_are_convertible(powers) {
                    return Err(Error::InvalidRawHeader);
                }
            },
        }
        let trusted_next_validator_set = match decode_tm_trusted_validators(bytes) {
            ValidatorSetDecoded::Value(set) => set,
            _ => {
                return Err(Error::InvalidRawHeader);
            },
        };
        Ok(Header { signed_header, validator_set, trusted_height, trusted_next_validator_set })
    }

    /// Reads a header from its packed form.
    pub fn try_from_any(raw: &Any) -> (r: Result<Header, ClientError>)
        ensures
            r == tm_header_of_any(raw@),
    {
        if !raw.is_of_type(TENDERMINT_HEADER_TYPE_URL) {
            return Err(ClientError::UnknownHeaderType);
        }
        match Header::decode(raw.value.as_slice()) {
            Ok(header) => Ok(header),
            Err(e) => Err(ClientError::ClientSpecific(e)),
        }
    }

    /// What the signed header says of its block.
    pub open spec fn summary(&self) -> HeaderSummaryView {
        signed_header_summary(self.signed_header)
    }

    /// Reads what the signed header says of its block.
    pub fn summarize(&self) -> (r: HeaderSummary)
        ensures
            r@ == self.summary(),
    {
        summarize(&self.signed_header)
    }
}

/// Two headers of one chain that are put forward as evidence that the
/// validators of the chain misbehaved.
#[derive(Clone, Debug, PartialEq, Eq)]
pub struct Misbehaviour {
    pub client_id: ClientId,
    pub header1: Header,
    pub header2: Header,
}

pub struct MisbehaviourView {
    pub client_id: Seq<char>,
    pub header1: Header,
    pub header2: Header,
}

impl View for Misbehaviour {
    type V = MisbehaviourView;

    open spec fn view(&self) -> MisbehaviourView {
        MisbehaviourView {
            client_id: self.client_id@,
            header1: self.header1,
            header2: self.header2,
        }
    }
}

/// The evidence that raw evidence stands for: both headers are to be there
/// and to be headers.
pub open spec fn tm_misbehaviour_of_raw(raw: RawTmMisbehaviourView) -> Result<MisbehaviourView, Error> {
    match raw.header1 {
        None => Err(Error::InvalidRawMisbehaviour),
        Some(bytes1) => match tm_header_of_bytes(bytes1) {
            Err(e) => Err(e),
            Ok(header1) => match raw.header2 {
                None => Err(Error::InvalidRawMisbehaviour),
                Some(bytes2) => match tm_header_of_bytes(bytes2) {
                    Err(e) => Err(e),
                    Ok(header2) => Ok(
                        MisbehaviourView { client_id: raw.client_id, header1, header2 },
                    ),
                },
            },
        },
    }
}

/// The evidence that a packed message stands for: the message is to be of
/// the type of Tendermint evidence, and its bytes are to encode evidence.
pub open spec fn tm_misbehaviour_of_any(any: AnyView) -> Result<MisbehaviourView, ClientError> {
    if any.type_url != TENDERMINT_MISBEHAVIOUR_TYPE_URL@ {
        Err(ClientError::UnknownMisbehaviourType)
    } else {
        match tm_misbehaviour_decoded(any.value) {
            None => Err(ClientError::ClientSpecific(Error::Decode)),
            Some(raw) => match tm_misbehaviour_of_raw(raw) {
                Ok(m) => Ok(m),
                Err(e) => Err(ClientError::ClientSpecific(e)),
            },
        }
    }
}

impl Misbehaviour {
    /// Reads evidence from its packed form.
    pub fn try_from_any(raw: &Any) -> (r: Result<Misbehaviour, ClientError>)
        ensures
            match tm_misbehaviour_of_any(raw@) {
                Ok(m) => r is Ok && r->Ok_0@ == m,
                Err(e) => r is Err && r->Err_0 == e,
            },
    {
        if !raw.is_of_type(TENDERMINT_MISBEHAVIOUR_TYPE_URL) {
            return Err(ClientError::UnknownMisbehaviourType);
        }
        let parts = match decode_tm_misbehaviour(raw.value.as_slice()) {
            None => {
                return Err(ClientError::ClientSpecific(Error::Decode));
            },
            Some(parts) => parts,
        };
        let header1 = match &parts.header1 {
            None => {
                return Err(ClientError::ClientSpecific(Error::InvalidRawMisbehaviour));
            },
            Some(bytes) => match Header::decode(bytes.as_slice()) {
                Ok(h) => h,
                Err(e) => {
                    return Err(ClientError::ClientSpecific(e));
                },
            },
        };
        let header2 = match &parts.header2 {
            None => {
                return Err(ClientError::ClientSpecific(Error::InvalidRawMisbehaviour));
            },
            Some(bytes) => match Header::decode(bytes.as_slice()) {
                Ok(h) => h,
                Err(e) => {
                    return Err(ClientError::ClientSpecific(e));
                },
            },
        };
        Ok(Misbehaviour { client_id: ClientId::new(parts.client_id), header1, header2 })
    }

    pub fn new(client_id: ClientId, header1: Header, header2: Header) -> (r: Misbehaviour)
        ensures
            r.client_id@ == client_id@,
            r.header1 == header1,
            r.header2 == header2,
    {
        Misbehaviour { client_id, header1, header2 }
    }

    pub fn header1(&self) -> (r: &Header)
        ensures
            *r == self.header1,
    {
        &self.header1
    }

    pub fn header2(&self) -> (r: &Header)
        ensures
            *r == self.header2,
    {
        &self.header2
    }
}

/// What a Tendermint client keeps of a block that it has accepted.
#[derive(Debug, PartialEq, Eq)]
pub struct ConsensusState {
    pub timestamp: Timestamp,
    pub root: CommitmentRoot,
    pub next_validators_hash: Vec<u8>,
}

pub struct ConsensusStateView {
    pub timestamp: Timestamp,
    pub root: Seq<u8>,
    pub next_validators_hash: Seq<u8>,
}

impl View for ConsensusState {
    type V = ConsensusStateView;

    open spec fn view(&self) -> ConsensusStateView {
        ConsensusStateView {
            timestamp: self.timestamp,
            root: self.root@,
            next_validators_hash: self.next_validators_hash@,
        }
    }
}

impl Clone for ConsensusState {
    fn clone(&self) -> (r: ConsensusState)
        ensures
            r@ == self@,
    {
        ConsensusState {
            timestamp: self.timestamp,
            root: self.root.clone(),
            next_validators_hash: bytes_copy(self.next_validators_hash.as_slice()),
        }
    }
}

/// The timestamp that a raw one stands for: a time after the Unix epoch
/// that can be counted in nanoseconds in 64 bits.
pub open spec fn timestamp_of_raw(raw: RawTimestamp) -> Option<Timestamp> {
    if 0 <= raw.seconds && 0 <= raw.nanos < 1_000_000_000 && 0 < raw.seconds * 1_000_000_000
        + raw.nanos <= u64::MAX {
        Some(Timestamp { nanos: (raw.seconds * 1_000_000_000 + raw.nanos) as u64 })
    } else {
        None
    }
}

/// Reads a timestamp from its raw form.
pub fn timestamp_from_raw(raw: RawTimestamp) -> (r: Option<Timestamp>)
    ensures
        r == timestamp_of_raw(raw),
{
    if raw.seconds < 0 || raw.nanos < 0 || raw.nanos >= 1_000_000_000 {
        return None;
    }
    let seconds: u128 = raw.seconds as u128;
    let nanos: u128 = seconds * 1_000_000_000 + raw.nanos as u128;
    if nanos == 0 || nanos > 0xffff_ffff_ffff_ffff {
        return None;
    }
    Some(Timestamp::from_nanoseconds(nanos as u64))
}

/// The consensus state that a raw one stands for. The checks come in this
/// order: there is a root, and it is not empty; there is a timestamp, and
/// it is one; the hash of the next validators is empty or of 32 bytes.
pub open spec fn tm_consensus_state_of_raw(raw: RawTmConsensusStateView) -> Result<
    ConsensusStateView,
    Error,
> {
    match raw.root {
        None => Err(Error::InvalidRawConsensusState { reason: ConsensusStateFault::MissingRoot }),
        Some(root) => if root.len() == 0 {
            Err(Error::InvalidRawConsensusState { reason: ConsensusStateFault::EmptyRoot })
        } else {
            match raw.timestamp {
                None => Err(
                    Error::InvalidRawConsensusState {
                        reason: ConsensusStateFault::MissingTimestamp,
                    },
                ),
                Some(t) => match timestamp_of_raw(t) {
                    None => Err(
                        Error::InvalidRawConsensusState {
                            reason: ConsensusStateFault::InvalidTimestamp,
                        },
                    ),
                    Some(timestamp) => if raw.next_validators_hash.len() != 0
                        && raw.next_validators_hash.len() != 32 {
                        Err(
                            Error::InvalidRawConsensusState {
                                reason: ConsensusStateFault::InvalidValidatorsHash,
                            },
                        )
                    } else {
                        Ok(
                            ConsensusStateView {
                                timestamp,
                                root,
                                next_validators_hash: raw.next_validators_hash,
                            },
                        )
                    },
                },
            }
        },
    }
}

/// The consensus state that a packed message stands for: the message is to
/// be of the type of a Tendermint consensus state, and its bytes are to
/// encode one.
pub open spec fn tm_consensus_state_of_any(any: AnyView) -> Result<ConsensusStateView, ClientError> {
    if any.type_url != TENDERMINT_CONSENSUS_STATE_TYPE_URL@ {
        Err(ClientError::UnknownConsensusStateType)
    } else {
        match tm_consensus_state_decoded(any.value) {
            None => Err(ClientError::ClientSpecific(Error::Decode)),
            Some(raw) => match tm_consensus_state_of_raw(raw) {
                Ok(cs) => Ok(cs),
                Err(e) => Err(ClientError::ClientSpecific(e)),
            },
        }
    }
}

impl ConsensusState {
    /// Reads a consensus state from its raw form.
    pub fn try_from_raw(raw: RawTmConsensusState) -> (r: Result<ConsensusState, Error>)
        ensures
            match tm_consensus_state_of_raw(raw@) {
                Ok(cs) => r is Ok && r->Ok_0@ == cs,
                Err(e) => r is Err && r->Err_0 == e,
            },
    {
        let root = match raw.root {
            None => {
                return Err(
                    Error::InvalidRawConsensusState { reason: ConsensusStateFault::MissingRoot },
                );
            },
            Some(root) => root,
        };
        if root.len() == 0 {
            return Err(Error::InvalidRawConsensusState { reason: ConsensusStateFault::EmptyRoot });
        }
        let timestamp = match raw.timestamp {
            None => {
                return Err(
                    Error::InvalidRawConsensusState {
                        reason: ConsensusStateFault::MissingTimestamp,
                    },
                );
            },
            Some(t) => match timestamp_from_raw(t) {
                None => {
                    return Err(
                        Error::InvalidRawConsensusState {
                            reason: ConsensusStateFault::InvalidTimestamp,
                        },
                    );
                },
                Some(timestamp) => timestamp,
            },
        };
        if raw.next_validators_hash.len() != 0 && raw.next_validators_hash.len() != 32 {
            return Err(
                Error::InvalidRawConsensusState {
                    reason: ConsensusStateFault::InvalidValidatorsHash,
                },
            );
        }
        Ok(ConsensusState::new(CommitmentRoot::from(root), timestamp, raw.next_validators_hash))
    }

    /// Reads a consensus state from its packed form.
    pub fn try_from_any(raw: &Any) -> (r: Result<ConsensusState, ClientError>)
        ensures
            match tm_consensus_state_of_any(raw@) {
                Ok(cs) => r is Ok && r->Ok_0@ == cs,
                Err(e) => r is Err && r->Err_0 == e,
            },
    {
        if !raw.is_of_type(TENDERMINT_CONSENSUS_STATE_TYPE_URL) {
            return Err(ClientError::UnknownConsensusStateType);
        }
        match decode_tm_consensus_state(raw.value.as_slice()) {
            None => Err(ClientError::ClientSpecific(Error::Decode)),
            Some(raw_state) => match ConsensusState::try_from_raw(raw_state) {
                Ok(cs) => Ok(cs),
                Err(e) => Err(ClientError::ClientSpecific(e)),
            },
        }
    }

    pub fn new(root: CommitmentRoot, timestamp: Timestamp, next_validators_hash: Vec<u8>) -> (r:
        ConsensusState)
        ensures
            r@ == (ConsensusStateView {
                timestamp,
                root: root@,
                next_validators_hash: next_validators_hash@,
            }),
    {
        ConsensusState { timestamp, root, next_validators_hash }
    }

    pub fn root(&self) -> (r: &CommitmentRoot)
        ensures
            r@ == self@.root,
    {
        &self.root
    }

    pub fn timestamp(&self) -> (r: Timestamp)
        ensures
            r == self@.timestamp,
    {
        self.timestamp
    }
}

} // verus!
