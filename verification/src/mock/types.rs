//! Headers, consensus states and misbehaviour evidence of the mock client.

use vstd::prelude::*;

use crate::any::{Any, AnyView};
use crate::error::ClientError;
use crate::height::{height_of_raw, Height};
use crate::identifier::ClientId;
use crate::timestamp::Timestamp;
use crate::wire::{
    decode_mock_consensus_state, decode_mock_header, decode_mock_misbehaviour,
    mock_consensus_state_decoded, mock_header_decoded, mock_misbehaviour_decoded, RawMockHeader,
    RawMockMisbehaviour, RawMockMisbehaviourView,
};

verus! {

/// The name of the type of a header of the mock chain.
pub const MOCK_HEADER_TYPE_URL: &'static str = "/ibc.mock.Header";

/// The name of the type of misbehaviour evidence of the mock chain.
pub const MOCK_MISBEHAVIOUR_TYPE_URL: &'static str = "/ibc.mock.Misbehavior";

/// The name of the type of a consensus state of the mock client.
pub const MOCK_CONSENSUS_STATE_TYPE_URL: &'static str = "/ibc.mock.ConsensusState";

/// A header of the mock chain: a height and a time.
#[derive(Clone, Copy, Debug, PartialEq, Eq, Structural)]
pub struct MockHeader {
    pub height: Height,
    pub timestamp: Timestamp,
}

/// The raw form of a header.
pub open spec fn raw_of_mock_header(header: MockHeader) -> RawMockHeader {
    RawMockHeader {
        height: Some(
            crate::height::RawHeight {
                revision_number: header.height.revision_number,
                revision_height: header.height.revision_height,
            },
        ),
        timestamp: header.timestamp.nanos,
    }
}

/// The header that a raw header stands for: it is to name a height.
pub open spec fn mock_header_of_raw(raw: RawMockHeader) -> Result<MockHeader, ClientError> {
    match height_of_raw(raw.height) {
        None => Err(ClientError::MissingRawHeader),
        Some(height) => Ok(MockHeader { height, timestamp: Timestamp { nanos: raw.timestamp } }),
    }
}

/// A header whose height is well formed is read back from its raw form.
pub proof fn lemma_mock_header_round_trip(header: MockHeader)
    requires
        header.height.wf(),
    ensures
        mock_header_of_raw(raw_of_mock_header(header)) == Ok::<MockHeader, ClientError>(header),
{
}

/// The header that a packed message stands for: the message is to be of the
/// type of a mock header, and its bytes are to encode one.
pub open spec fn mock_header_of_any(any: AnyView) -> Result<MockHeader, ClientError> {
    if any.type_url != MOCK_HEADER_TYPE_URL@ {
        Err(ClientError::UnknownHeaderType)
    } else {
        match mock_header_decoded(any.value) {
            None => Err(ClientError::InvalidRawHeader),
            Some(raw) => mock_header_of_raw(raw),
        }
    }
}

impl MockHeader {
    /// A header at `height` with no timestamp.
    pub fn new(height: Height) -> (r: MockHeader)
        ensures
            r == (MockHeader { height, timestamp: Timestamp { nanos: 0 } }),
    {
        MockHeader { height, timestamp: Timestamp::none() }
    }

    pub fn with_timestamp(self, timestamp: Timestamp) -> (r: MockHeader)
        ensures
            r == (MockHeader { height: self.height, timestamp }),
    {
        MockHeader { height: self.height, timestamp }
    }

    pub fn height(&self) -> (r: Height)
        ensures
            r == self.height,
    {
        self.height
    }

    pub fn timestamp(&self) -> (r: Timestamp)
        ensures
            r == self.timestamp,
    {
        self.timestamp
    }

    /// Reads a header from its raw form.
    pub fn try_from_raw(raw: RawMockHeader) -> (r: Result<MockHeader, ClientError>)
        ensures
            r == mock_header_of_raw(raw),
    {
        match Height::try_from_raw(raw.height) {
            None => Err(ClientError::MissingRawHeader),
            Some(height) => Ok(
                MockHeader { height, timestamp: Timestamp::from_nanoseconds(raw.timestamp) },
            ),
        }
    }

    /// The raw form of the header.
    pub fn into_raw(self) -> (r: RawMockHeader)
        ensures
            r == raw_of_mock_header(self),
    {
        RawMockHeader { height: Some(self.height.into_raw()), timestamp: self.timestamp.nanoseconds() }
    }

    /// Reads a header from its packed form.
    pub fn try_from_any(raw: &Any) -> (r: Result<MockHeader, ClientError>)
        ensures
            r == mock_header_of_any(raw@),
    {
        if !raw.is_of_type(MOCK_HEADER_TYPE_URL) {
            return Err(ClientError::UnknownHeaderType);
        }
        match decode_mock_header(raw.value.as_slice()) {
            None => Err(ClientError::InvalidRawHeader),
            Some(header) => MockHeader::try_from_raw(header),
        }
    }
}

/// What the mock client keeps of a header that it has accepted: the header.
#[derive(Clone, Copy, Debug, PartialEq, Eq, Structural)]
pub struct MockConsensusState {
    pub header: MockHeader,
}

/// The consensus state that a packed message stands for: the message is to
/// be of the type of a mock consensus state, its bytes are to encode one,
/// and that one is to hold a header.
pub open spec fn mock_consensus_state_of_any(any: AnyView) -> Result<
    MockConsensusState,
    ClientError,
> {
    if any.type_url != MOCK_CONSENSUS_STATE_TYPE_URL@ {
        Err(ClientError::UnknownConsensusStateType)
    } else {
        match mock_consensus_state_decoded(any.value) {
            None => Err(ClientError::InvalidRawConsensusState),
            Some(None) => Err(ClientError::MissingRawConsensusState),
            Some(Some(raw)) => match mock_header_of_raw(raw) {
                Err(e) => Err(e),
                Ok(header) => Ok(MockConsensusState { header }),
            },
        }
    }
}

impl MockConsensusState {
    pub fn new(header: MockHeader) -> (r: MockConsensusState)
        ensures
            r == (MockConsensusState { header }),
    {
        MockConsensusState { header }
    }

    pub fn timestamp(&self) -> (r: Timestamp)
        ensures
            r == self.header.timestamp,
    {
        self.header.timestamp
    }

    /// Reads a consensus state from its packed form.
    pub fn try_from_any(raw: &Any) -> (r: Result<MockConsensusState, ClientError>)
        ensures
            r == mock_consensus_state_of_any(raw@),
    {
        if !raw.is_of_type(MOCK_CONSENSUS_STATE_TYPE_URL) {
            return Err(ClientError::UnknownConsensusStateType);
        }
        match decode_mock_consensus_state(raw.value.as_slice()) {
            None => Err(ClientError::InvalidRawConsensusState),
            Some(None) => Err(ClientError::MissingRawConsensusState),
            Some(Some(raw_header)) => match MockHeader::try_from_raw(raw_header) {
                Err(e) => Err(e),
                Ok(header) => Ok(MockConsensusState { header }),
            },
        }
    }
}

/// Two headers of the mock chain put forward as evidence of misbehaviour.
#[derive(Clone, Debug, PartialEq, Eq)]
pub struct Misbehaviour {
    pub client_id: ClientId,
    pub header1: MockHeader,
    pub header2: MockHeader,
}

pub struct MisbehaviourView {
    pub client_id: Seq<char>,
    pub header1: MockHeader,
    pub header2: MockHeader,
}

impl View for Misbehaviour {
    type V = MisbehaviourView;

    open spec fn view(&self) -> MisbehaviourView {
        MisbehaviourView {
            client_id: self.client_id@,
            header1: self.header1,
            header2: self.header2,
        }
    }
}

/// The evidence that raw evidence stands for: both headers are to be there
/// and to be headers.
pub open spec fn mock_misbehaviour_of_raw(raw: RawMockMisbehaviourView) -> Result<
    MisbehaviourView,
    ClientError,
> {
    match raw.header1 {
        None => Err(ClientError::MissingRawMisbehaviour),
        Some(raw1) => match mock_header_of_raw(raw1) {
            Err(e) => Err(e),
            Ok(header1) => match raw.header2 {
                None => Err(ClientError::MissingRawMisbehaviour),
                Some(raw2) => match mock_header_of_raw(raw2) {
                    Err(e) => Err(e),
                    Ok(header2) => Ok(
                        MisbehaviourView { client_id: raw.client_id, header1, header2 },
                    ),
                },
            },
        },
    }
}

/// The evidence that a packed message stands for: the message is to be of
/// the type of mock evidence, and its bytes are to encode evidence.
pub open spec fn mock_misbehaviour_of_any(any: AnyView) -> Result<MisbehaviourView, ClientError> {
    if any.type_url != MOCK_MISBEHAVIOUR_TYPE_URL@ {
        Err(ClientError::UnknownMisbehaviourType)
    } else {
        match mock_misbehaviour_decoded(any.value) {
            None => Err(ClientError::InvalidRawMisbehaviour),
            Some(raw) => mock_misbehaviour_of_raw(raw),
        }
    }
}

impl Misbehaviour {
    /// Reads evidence from its raw form.
    pub fn try_from_raw(raw: RawMockMisbehaviour) -> (r: Result<Misbehaviour, ClientError>)
        ensures
            match mock_misbehaviour_of_raw(raw@) {
                Ok(m) => r is Ok && r->Ok_0@ == m,
                Err(e) => r is Err && r->Err_0 == e,
            },
    {
        let header1 = match raw.header1 {
            None => {
                return Err(ClientError::MissingRawMisbehaviour);
            },
            Some(raw1) => match MockHeader::try_from_raw(raw1) {
                Ok(h) => h,
                Err(e) => {
                    return Err(e);
                },
            },
        };
        let header2 = match raw.header2 {
            None => {
                return Err(ClientError::MissingRawMisbehaviour);
            },
            Some(raw2) => match MockHeader::try_from_raw(raw2) {
                Ok(h) => h,
                Err(e) => {
                    return Err(e);
                },
            },
        };
        Ok(Misbehaviour { client_id: ClientId::new(raw.client_id), header1, header2 })
    }

    /// Reads evidence from its packed form.
    pub fn try_from_any(raw: &Any) -> (r: Result<Misbehaviour, ClientError>)
        ensures
            match mock_misbehaviour_of_any(raw@) {
                Ok(m) => r is Ok && r->Ok_0@ == m,
                Err(e) => r is Err && r->Err_0 == e,
            },
    {
        if !raw.is_of_type(MOCK_MISBEHAVIOUR_TYPE_URL) {
            return Err(ClientError::UnknownMisbehaviourType);
        }
        match decode_mock_misbehaviour(raw.value.as_slice()) {
            None => Err(ClientError::InvalidRawMisbehaviour),
            Some(m) => Misbehaviour::try_from_raw(m),
        }
    }
}

} // verus!
