//! Errors of the Tendermint light client.

use vstd::prelude::*;

use crate::timestamp::Duration;

verus! {

/// How much voting power stood behind a header, and how much was asked for.
#[derive(Clone, Copy, Debug, PartialEq, Eq, Structural)]
pub struct VotingPowerTally {
    /// Total voting power of the validator set.
    pub total: u64,
    /// Voting power of the validators that signed.
    pub tallied: u64,
    /// Numerator of the trust threshold that was asked for.
    pub threshold_numerator: u64,
    /// Denominator of the trust threshold that was asked for.
    pub threshold_denominator: u64,
}

/// What is wrong with a raw consensus state.
#[derive(Clone, Copy, Debug, PartialEq, Eq, Structural)]
pub enum ConsensusStateFault {
    MissingRoot,
    EmptyRoot,
    MissingTimestamp,
    InvalidTimestamp,
    InvalidValidatorsHash,
}

/// Why the Tendermint light client refused a message.
#[derive(Clone, Debug)]
pub enum Error {
    /// The bytes are no encoding of the message expected.
    Decode,
    /// The header holds no signed header.
    MissingSignedHeader,
    /// The signed header is not one: its commit is for another height than
    /// its header, or a field of either is not what it has to be.
    InvalidHeader,
    /// The header holds no validator set.
    MissingValidatorSet,
    /// A validator set of the header is not one.
    InvalidRawHeader,
    /// The header names no trusted height, or none that is a height.
    MissingTrustedHeight,
    /// The header holds no trusted validator set.
    MissingTrustedNextValidatorSet,
    /// The evidence lacks one of its two headers.
    InvalidRawMisbehaviour,
    /// The consensus state has no root, an empty root, no timestamp, a
    /// timestamp that is none, or a hash of validators of the wrong length.
    InvalidRawConsensusState { reason: ConsensusStateFault },
    /// The trust threshold of the client state is no fraction between one
    /// third and one.
    InvalidTrustThreshold { numerator: u64, denominator: u64 },
    /// The trusting period of the client state is no well-formed span.
    InvalidTrustingPeriod,
    /// The clock drift of the client state is no well-formed span.
    InvalidMaxClockDrift,
    /// The height within the revision does not fit a block height.
    InvalidHeaderHeight { height: u64 },
    /// The chain identifier of the client state is no chain identifier.
    InvalidChainId,
    /// The two headers of a misbehaviour are of different chains.
    MismatchHeaderChainId,
    /// The first header of a misbehaviour lies below the second.
    MisbehaviourHeadersOutOfOrder,
    /// A validator set holds more voting power than can be weighed against
    /// the trust threshold in 64 bits.
    VotingPowerOutOfRange,
    /// The time of a header cannot be a timestamp.
    HeaderTimestampOutOfRange,
    /// Too little of the trusted validator set signed the header.
    NotEnoughTrustedValsSigned { reason: VotingPowerTally },
    /// The verifier found the header invalid.
    VerificationError {
        detail: tendermint_light_client_verifier::errors::VerificationErrorDetail,
    },
    /// The trusted consensus state is as old as the trusting period or older.
    ConsensusStateTimestampGteTrustingPeriod {
        duration_since_consensus_state: Duration,
        trusting_period: Duration,
    },
}

} // verus!
