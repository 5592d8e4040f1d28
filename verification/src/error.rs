//! Errors of the client layer.

use vstd::prelude::*;

use crate::channel::ChannelError;
use crate::commitment::CommitmentError;
use crate::height::Height;
use crate::identifier::IdentifierError;
use crate::ics07_tendermint::error::Error as TendermintError;
use crate::timestamp::Timestamp;

verus! {

/// Errors raised while a client is upgraded.
#[derive(Clone, Debug, PartialEq, Eq)]
pub enum UpgradeClientError {
    /// The upgraded client is not above the height of the client it replaces.
    LowUpgradeHeight { upgraded_height: Height, client_height: Height },
    /// The client proves upgrades over the encoded states, which only the
    /// host can produce.
    UpgradeNotVerifiable,
}

/// Errors raised by light clients and by the handlers that drive them.
#[derive(Clone, Debug)]
pub enum ClientError {
    /// An upgrade was refused.
    Upgrade(UpgradeClientError),
    /// The client is frozen and takes no further updates.
    ClientFrozen { frozen_height: Height },
    /// No client state is stored under the identifier asked for.
    ClientStateNotFound,
    /// No consensus state is stored at the height for the client asked for.
    ConsensusStateNotFound { height: Height },
    /// A height of zero within a revision was given.
    InvalidHeight,
    /// Subtracting from a height left no height.
    InvalidHeightResult,
    /// The client state belongs to another kind of client.
    UnknownClientStateType,
    /// The consensus state belongs to another kind of client.
    UnknownConsensusStateType,
    /// The client message is no header of this kind of client.
    UnknownHeaderType,
    /// The client message is no misbehaviour evidence of this kind of client.
    UnknownMisbehaviourType,
    /// The bytes of a client state are no encoding of one.
    Decode,
    /// The client state holds no header.
    MissingRawClientState,
    /// The bytes of a consensus state are no encoding of one.
    InvalidRawConsensusState,
    /// The consensus state holds no header.
    MissingRawConsensusState,
    /// The bytes of a header are no encoding of one.
    InvalidRawHeader,
    /// The header names no height, or none that is a height.
    MissingRawHeader,
    /// The bytes of misbehaviour evidence are no encoding of it.
    InvalidRawMisbehaviour,
    /// The evidence lacks one of its two headers.
    MissingRawMisbehaviour,
    /// The message that updates a client names no client.
    InvalidMsgUpdateClientId(IdentifierError),
    /// The header is not above the latest height of the client.
    LowHeaderHeight { header_height: Height, latest_height: Height },
    /// The second timestamp lies before the first.
    InvalidConsensusStateTimestamp { time1: Timestamp, time2: Timestamp },
    /// The header's trusted validator set is not the one recorded on chain.
    HeaderVerificationFailure,
    /// The proof was taken at a height that the client has not reached.
    InvalidProofHeight { latest_height: Height, proof_height: Height },
    /// Misbehaviour was submitted, but none was found.
    MisbehaviourHandlingFailure,
    /// The bytes of a proof encode no Merkle proof.
    InvalidCommitmentProof,
    /// A Merkle proof did not verify.
    Ics23Verification(CommitmentError),
    /// The Tendermint light client refused the message.
    ClientSpecific(TendermintError),
}

/// Errors of the handlers, by the layer that raised them.
#[derive(Clone, Debug)]
pub enum ContextError {
    /// The client layer refused the message.
    ClientError(ClientError),
    /// The channel layer refused the message.
    ChannelError(ChannelError),
}

} // verus!
