//! The state of the mock client.

use vstd::prelude::*;

use crate::any::{Any, AnyClientState, AnyClientStateView, AnyConsensusState, AnyConsensusStateView, AnyView};
use crate::client_state::{
    ClientStateCommon, ClientStateExecution, ClientStateValidation, UpdateKind,
};
use crate::commitment::{CommitmentPrefix, CommitmentProofBytes, CommitmentRoot};
use crate::context::{HostStore, HostStoreView};
use crate::error::{ClientError, UpgradeClientError};
use crate::height::{height_lt, Height};
use crate::identifier::{ClientId, ClientType};
use crate::mock::types::{
    mock_consensus_state_of_any, mock_header_of_any, mock_header_of_raw,
    mock_misbehaviour_of_any, raw_of_mock_header, Misbehaviour, MockConsensusState, MockHeader,
};
use crate::timestamp::Duration;
use crate::wire::{
    decode_mock_client_state, encode_mock_client_state, mock_client_state_decoded,
    mock_client_state_encoded, RawMockHeader,
};

verus! {

/// The name of the type of a state of the mock client.
pub const MOCK_CLIENT_STATE_TYPE_URL: &'static str = "/ibc.mock.ClientState";

/// The name of the mock kind of client.
pub const MOCK_CLIENT_TYPE: &'static str = "9999-mock";

/// The mock kind of client.
pub fn client_type() -> (r: ClientType)
    ensures
        r@ == MOCK_CLIENT_TYPE@,
{
    ClientType::new(MOCK_CLIENT_TYPE.to_owned())
}

/// The state of a mock client: the latest header that it accepted, and the
/// height at which it was frozen, if it was.
#[derive(Clone, Copy, Debug, PartialEq, Eq, Structural)]
pub struct MockClientState {
    pub header: MockHeader,
    pub frozen_height: Option<Height>,
}

/// A client state of the mock client, as it arrives: the header, where
/// there is one.
#[derive(Clone, Copy, Debug, PartialEq, Eq, Structural)]
pub struct RawMockClientState {
    pub header: Option<RawMockHeader>,
}

/// The client state that a packed message stands for: the message is to be
/// of the type of a mock client state, its bytes are to encode one, and
/// that one is to hold a header.
pub open spec fn mock_client_state_of_any(any: AnyView) -> Result<MockClientState, ClientError> {
    if any.type_url != MOCK_CLIENT_STATE_TYPE_URL@ {
        Err(ClientError::UnknownClientStateType)
    } else {
        match mock_client_state_decoded(any.value) {
            None => Err(ClientError::Decode),
            Some(None) => Err(ClientError::MissingRawClientState),
            Some(Some(raw)) => match mock_header_of_raw(raw) {
                Err(e) => Err(e),
                Ok(header) => Ok(MockClientState { header, frozen_height: None }),
            },
        }
    }
}

impl MockClientState {
    /// A client that has accepted `header` and is not frozen.
    pub fn new(header: MockHeader) -> (r: MockClientState)
        ensures
            r == (MockClientState { header, frozen_height: None }),
    {
        MockClientState { header, frozen_height: None }
    }

    pub fn latest_height(&self) -> (r: Height)
        ensures
            r == self.header.height,
    {
        self.header.height()
    }

    /// The mock client asks for no refresh.
    pub fn refresh_time(&self) -> (r: Option<Duration>)
        ensures
            r.is_none(),
    {
        None
    }

    /// The same client, frozen at `frozen_height`.
    pub fn with_frozen_height(self, frozen_height: Height) -> (r: MockClientState)
        ensures
            r == (MockClientState { header: self.header, frozen_height: Some(frozen_height) }),
    {
        MockClientState { frozen_height: Some(frozen_height), ..self }
    }

    /// Reads a client state from a raw one that holds a header.
    pub fn try_from_raw(raw: RawMockClientState) -> (r: Result<MockClientState, ClientError>)
        requires
            raw.header is Some,
        ensures
            match mock_header_of_raw(raw.header->0) {
                Ok(header) => r == Ok::<MockClientState, ClientError>(
                    MockClientState { header, frozen_height: None },
                ),
                Err(e) => r == Err::<MockClientState, ClientError>(e),
            },
    {
        match MockHeader::try_from_raw(raw.header.unwrap()) {
            Ok(header) => Ok(MockClientState::new(header)),
            Err(e) => Err(e),
        }
    }

    /// The raw form of the client state. The mark of a frozen client is not
    /// part of it.
    pub fn into_raw(self) -> (r: RawMockClientState)
        ensures
            r == (RawMockClientState { header: Some(raw_of_mock_header(self.header)) }),
    {
        RawMockClientState { header: Some(self.header.into_raw()) }
    }

    /// Reads a client state from its packed form.
    pub fn try_from_any(raw: &Any) -> (r: Result<MockClientState, ClientError>)
        ensures
            r == mock_client_state_of_any(raw@),
    {
        if !raw.is_of_type(MOCK_CLIENT_STATE_TYPE_URL) {
            return Err(ClientError::UnknownClientStateType);
        }
        match decode_mock_client_state(raw.value.as_slice()) {
            None => Err(ClientError::Decode),
            Some(None) => Err(ClientError::MissingRawClientState),
            Some(Some(header)) => MockClientState::try_from_raw(
                RawMockClientState { header: Some(header) },
            ),
        }
    }

    /// The packed form of the client state.
    pub fn into_any(self) -> (r: Any)
        ensures
            r@ == (AnyView {
                type_url: MOCK_CLIENT_STATE_TYPE_URL@,
                value: mock_client_state_encoded(raw_of_mock_header(self.header)),
            }),
    {
        Any {
            type_url: MOCK_CLIENT_STATE_TYPE_URL.to_owned(),
            value: encode_mock_client_state(self.header.into_raw()),
        }
    }
}

/// The mock client takes every consensus state of its own kind.
pub open spec fn mock_verify_consensus_state(consensus_state: AnyView) -> Result<(), ClientError> {
    match mock_consensus_state_of_any(consensus_state) {
        Ok(_) => Ok(()),
        Err(e) => Err(e),
    }
}

/// The mock client may be upgraded to mock states above its own height.
pub open spec fn mock_verify_upgrade(
    state: MockClientState,
    upgraded_client_state: AnyView,
    upgraded_consensus_state: AnyView,
) -> Result<(), ClientError> {
    match mock_client_state_of_any(upgraded_client_state) {
        Err(e) => Err(e),
        Ok(upgraded) => match mock_consensus_state_of_any(upgraded_consensus_state) {
            Err(e) => Err(e),
            Ok(_) => if height_lt(state.header.height, upgraded.header.height) {
                Ok(())
            } else {
                Err(
                    ClientError::Upgrade(
                        UpgradeClientError::LowUpgradeHeight {
                            upgraded_height: state.header.height,
                            client_height: upgraded.header.height,
                        },
                    ),
                )
            },
        },
    }
}

/// The mock client takes a header above its own height as an update, and
/// any evidence of its own kind as a claim of misbehaviour.
pub open spec fn mock_verify_client_message(
    state: MockClientState,
    message: AnyView,
    kind: UpdateKind,
) -> Result<(), ClientError> {
    match kind {
        UpdateKind::UpdateClient => match mock_header_of_any(message) {
            Err(e) => Err(e),
            Ok(header) => if height_lt(state.header.height, header.height) {
                Ok(())
            } else {
                Err(
                    ClientError::LowHeaderHeight {
                        header_height: header.height,
                        latest_height: state.header.height,
                    },
                )
            },
        },
        UpdateKind::SubmitMisbehaviour => match mock_misbehaviour_of_any(message) {
            Err(e) => Err(e),
            Ok(_) => Ok(()),
        },
    }
}

/// Whether two headers are misbehaviour to a mock client at a height: they
/// are where both are of one height and that height lies above the client.
pub open spec fn mock_headers_conflict(latest: Height, header1: MockHeader, header2: MockHeader) -> bool {
    header1.height == header2.height && height_lt(latest, header1.height)
}

/// The mock client finds no misbehaviour in a header, whatever it is given
/// as one. In evidence it finds misbehaviour where both headers are of one
/// height and that height lies above its own.
pub open spec fn mock_check_for_misbehaviour(
    state: MockClientState,
    message: AnyView,
    kind: UpdateKind,
) -> Result<bool, ClientError> {
    match kind {
        UpdateKind::UpdateClient => Ok(false),
        UpdateKind::SubmitMisbehaviour => match mock_misbehaviour_of_any(message) {
            Err(e) => Err(e),
            Ok(m) => Ok(mock_headers_conflict(state.header.height, m.header1, m.header2)),
        },
    }
}

/// The store once the mock client is stored with its first consensus state.
pub open spec fn mock_initialise(
    state: MockClientState,
    store: HostStoreView,
    id: Seq<char>,
    consensus_state: AnyView,
) -> Result<HostStoreView, ClientError> {
    match mock_consensus_state_of_any(consensus_state) {
        Err(e) => Err(e),
        Ok(cs) => Ok(
            HostStoreView {
                client_states: store.client_states.push((id, AnyClientStateView::Mock(state))),
                consensus_states: store.consensus_states.push(
                    (id, state.header.height, AnyConsensusStateView::Mock(cs)),
                ),
                ..store
            },
        ),
    }
}

/// The store once the mock client has taken a header, and the one height at
/// which a consensus state was stored: the client is at the header and not
/// frozen, and the consensus state of the header is stored at its height.
pub open spec fn mock_update_state(store: HostStoreView, id: Seq<char>, message: AnyView) -> Result<
    (HostStoreView, Seq<Height>),
    ClientError,
> {
    match mock_header_of_any(message) {
        Err(e) => Err(e),
        Ok(header) => Ok(
            (
                HostStoreView {
                    client_states: store.client_states.push(
                        (id, AnyClientStateView::Mock(MockClientState { header, frozen_height: None })),
                    ),
                    consensus_states: store.consensus_states.push(
                        (
                            id,
                            header.height,
                            AnyConsensusStateView::Mock(MockConsensusState { header }),
                        ),
                    ),
                    ..store
                },
                seq![header.height],
            ),
        ),
    }
}

/// The height at which a client is frozen on misbehaviour.
pub open spec fn frozen_marker() -> Height {
    Height { revision_number: 0, revision_height: 1 }
}

/// The store once the mock client is frozen.
pub open spec fn mock_freeze(state: MockClientState, store: HostStoreView, id: Seq<char>) -> HostStoreView {
    HostStoreView {
        client_states: store.client_states.push(
            (
                id,
                AnyClientStateView::Mock(
                    MockClientState { header: state.header, frozen_height: Some(frozen_marker()) },
                ),
            ),
        ),
        ..store
    }
}

/// The store once the mock client is replaced by an upgraded one, and the
/// height of the upgraded client.
pub open spec fn mock_upgrade(
    store: HostStoreView,
    id: Seq<char>,
    upgraded_client_state: AnyView,
    upgraded_consensus_state: AnyView,
) -> Result<(HostStoreView, Height), ClientError> {
    match mock_client_state_of_any(upgraded_client_state) {
        Err(e) => Err(e),
        Ok(upgraded) => match mock_consensus_state_of_any(upgraded_consensus_state) {
            Err(e) => Err(e),
            Ok(cs) => Ok(
                (
                    HostStoreView {
                        client_states: store.client_states.push(
                            (id, AnyClientStateView::Mock(upgraded)),
                        ),
                        consensus_states: store.consensus_states.push(
                            (id, upgraded.header.height, AnyConsensusStateView::Mock(cs)),
                        ),
                        ..store
                    },
                    upgraded.header.height,
                ),
            ),
        },
    }
}

impl MockClientState {
    /// Judges whether decoded evidence is misbehaviour to this client.
    pub fn check_misbehaviour_headers(&self, misbehaviour: &Misbehaviour) -> (r: bool)
        ensures
            r == mock_headers_conflict(
                self.header.height,
                misbehaviour.header1,
                misbehaviour.header2,
            ),
    {
        let header_heights_equal = misbehaviour.header1.height == misbehaviour.header2.height;
        let headers_are_in_future = self.header.height.lt(&misbehaviour.header1.height);
        header_heights_equal && headers_are_in_future
    }
}

impl ClientStateCommon for MockClientState {
    open spec fn latest(&self) -> Height {
        self.header.height
    }

    open spec fn frozen(&self) -> bool {
        self.frozen_height.is_some()
    }

    fn verify_consensus_state(&self, consensus_state: &Any) -> (r: Result<(), ClientError>)
        ensures
            r == mock_verify_consensus_state(consensus_state@),
    {
        match MockConsensusState::try_from_any(consensus_state) {
            Ok(_) => Ok(()),
            Err(e) => Err(e),
        }
    }

    fn client_type(&self) -> (r: ClientType)
        ensures
            r@ == MOCK_CLIENT_TYPE@,
    {
        client_type()
    }

    fn latest_height(&self) -> (r: Height) {
        self.header.height()
    }

    fn validate_proof_height(&self, proof_height: Height) -> (r: Result<(), ClientError>) {
        if self.header.height.lt(&proof_height) {
            return Err(
                ClientError::InvalidProofHeight { latest_height: self.header.height, proof_height },
            );
        }
        Ok(())
    }

    fn confirm_not_frozen(&self) -> (r: Result<(), ClientError>)
        ensures
            self.frozen_height matches Some(h) ==> r == Err::<(), ClientError>(
                ClientError::ClientFrozen { frozen_height: h },
            ),
    {
        if let Some(frozen_height) = self.frozen_height {
            return Err(ClientError::ClientFrozen { frozen_height });
        }
        Ok(())
    }

    /// The mock client never expires.
    fn expired(&self, elapsed: Duration) -> (r: bool)
        ensures
            r == false,
    {
        false
    }

    fn verify_upgrade_client(
        &self,
        upgraded_client_state: &Any,
        upgraded_consensus_state: &Any,
        proof_upgrade_client: CommitmentProofBytes,
        proof_upgrade_consensus_state: CommitmentProofBytes,
        root: &CommitmentRoot,
    ) -> (r: Result<(), ClientError>)
        ensures
            r == mock_verify_upgrade(*self, upgraded_client_state@, upgraded_consensus_state@),
    {
        let upgraded_mock_client_state = match MockClientState::try_from_any(upgraded_client_state) {
            Ok(cs) => cs,
            Err(e) => {
                return Err(e);
            },
        };
        match MockConsensusState::try_from_any(upgraded_consensus_state) {
            Ok(_) => {},
            Err(e) => {
                return Err(e);
            },
        }
        if self.header.height.ge(&upgraded_mock_client_state.header.height) {
            return Err(
                ClientError::Upgrade(
                    UpgradeClientError::LowUpgradeHeight {
                        upgraded_height: self.header.height,
                        client_height: upgraded_mock_client_state.header.height,
                    },
                ),
            );
        }
        Ok(())
    }

    /// The mock client takes every proof.
    fn verify_membership(
        &self,
        prefix: &CommitmentPrefix,
        proof: &CommitmentProofBytes,
        root: &CommitmentRoot,
        path: String,
        value: Vec<u8>,
    ) -> (r: Result<(), ClientError>)
        ensures
            r == Ok::<(), ClientError>(()),
    {
        Ok(())
    }

    /// The mock client takes every proof.
    fn verify_non_membership(
        &self,
        prefix: &CommitmentPrefix,
        proof: &CommitmentProofBytes,
        root: &CommitmentRoot,
        path: String,
    ) -> (r: Result<(), ClientError>)
        ensures
            r == Ok::<(), ClientError>(()),
    {
        Ok(())
    }
}

impl ClientStateValidation for MockClientState {
    fn verify_client_message(
        &self,
        ctx: &HostStore,
        client_id: &ClientId,
        client_message: &Any,
        update_kind: &UpdateKind,
    ) -> (r: Result<(), ClientError>)
        ensures
            r == mock_verify_client_message(*self, client_message@, *update_kind),
    {
        match update_kind {
            UpdateKind::UpdateClient => {
                let header = match MockHeader::try_from_any(client_message) {
                    Ok(header) => header,
                    Err(e) => {
                        return Err(e);
                    },
                };
                if self.header.height.ge(&header.height) {
                    return Err(
                        ClientError::LowHeaderHeight {
                            header_height: header.height,
                            latest_height: self.header.height,
                        },
                    );
                }
            },
            UpdateKind::SubmitMisbehaviour => {
                match Misbehaviour::try_from_any(client_message) {
                    Ok(_) => {},
                    Err(e) => {
                        return Err(e);
                    },
                }
            },
        }
        Ok(())
    }

    fn check_for_misbehaviour(
        &self,
        ctx: &HostStore,
        client_id: &ClientId,
        client_message: &Any,
        update_kind: &UpdateKind,
    ) -> (r: Result<bool, ClientError>)
        ensures
            r == mock_check_for_misbehaviour(*self, client_message@, *update_kind),
    {
        match update_kind {
            UpdateKind::UpdateClient => Ok(false),
            UpdateKind::SubmitMisbehaviour => {
                let misbehaviour = match Misbehaviour::try_from_any(client_message) {
                    Ok(m) => m,
                    Err(e) => {
                        return Err(e);
                    },
                };
                Ok(self.check_misbehaviour_headers(&misbehaviour))
            },
        }
    }
}

impl ClientStateExecution for MockClientState {
    fn initialise(&self, ctx: &mut HostStore, client_id: &ClientId, consensus_state: &Any) -> (r:
        Result<(), ClientError>)
        ensures
            match mock_initialise(*self, old(ctx)@, client_id@, consensus_state@) {
                Ok(store) => r is Ok && final(ctx)@ == store,
                Err(e) => r == Err::<(), ClientError>(e),
            },
    {
        let mock_consensus_state = match MockConsensusState::try_from_any(consensus_state) {
            Ok(cs) => cs,
            Err(e) => {
                return Err(e);
            },
        };
        ctx.store_client_state(client_id.clone(), AnyClientState::Mock(*self));
        ctx.store_consensus_state(
            client_id.clone(),
            self.header.height,
            AnyConsensusState::Mock(mock_consensus_state),
        );
        Ok(())
    }

    fn update_state(&self, ctx: &mut HostStore, client_id: &ClientId, header: &Any) -> (r: Result<
        Vec<Height>,
        ClientError,
    >)
        ensures
            match mock_update_state(old(ctx)@, client_id@, header@) {
                Ok((store, heights)) => r is Ok && r->Ok_0@ == heights && final(ctx)@ == store,
                Err(e) => r == Err::<Vec<Height>, ClientError>(e),
            },
    {
        let header = match MockHeader::try_from_any(header) {
            Ok(header) => header,
            Err(e) => {
                return Err(e);
            },
        };
        let header_height = header.height;
        let new_client_state = MockClientState::new(header);
        let new_consensus_state = MockConsensusState::new(header);
        ctx.store_consensus_state(
            client_id.clone(),
            new_client_state.latest_height(),
            AnyConsensusState::Mock(new_consensus_state),
        );
        ctx.store_client_state(client_id.clone(), AnyClientState::Mock(new_client_state));
        let mut heights: Vec<Height> = Vec::new();
        heights.push(header_height);
        Ok(heights)
    }

    fn update_state_on_misbehaviour(
        &self,
        ctx: &mut HostStore,
        client_id: &ClientId,
        client_message: &Any,
        update_kind: &UpdateKind,
    ) -> (r: Result<(), ClientError>)
        ensures
            r is Ok,
            final(ctx)@ == mock_freeze(*self, old(ctx)@, client_id@),
    {
        let frozen_client_state = self.with_frozen_height(Height::min(0));
        ctx.store_client_state(client_id.clone(), AnyClientState::Mock(frozen_client_state));
        Ok(())
    }

    fn update_state_on_upgrade(
        &self,
        ctx: &mut HostStore,
        client_id: &ClientId,
        upgraded_client_state: &Any,
        upgraded_consensus_state: &Any,
    ) -> (r: Result<Height, ClientError>)
        ensures
            match mock_upgrade(
                old(ctx)@,
                client_id@,
                upgraded_client_state@,
                upgraded_consensus_state@,
            ) {
                Ok((store, height)) => r == Ok::<Height, ClientError>(height) && final(ctx)@
                    == store,
                Err(e) => r == Err::<Height, ClientError>(e),
            },
    {
        let new_client_state = match MockClientState::try_from_any(upgraded_client_state) {
            Ok(cs) => cs,
            Err(e) => {
                return Err(e);
            },
        };
        let new_consensus_state = match MockConsensusState::try_from_any(upgraded_consensus_state) {
            Ok(cs) => cs,
            Err(e) => {
                return Err(e);
            },
        };
        let latest_height = new_client_state.latest_height();
        ctx.store_consensus_state(
            client_id.clone(),
            latest_height,
            AnyConsensusState::Mock(new_consensus_state),
        );
        ctx.store_client_state(client_id.clone(), AnyClientState::Mock(new_client_state));
        Ok(latest_height)
    }
}

} // verus!
