//! A client of any kind as a client of the host: every call goes to the
//! client of the kind at hand.

use vstd::prelude::*;

use crate::any::{
    any_frozen, any_frozen_height, any_latest, Any, AnyClientState, AnyClientStateView,
    AnyConsensusState, AnyConsensusStateView, AnyView,
};
use crate::client_state::{
    ClientStateCommon, ClientStateExecution, ClientStateValidation, UpdateKind,
};
use crate::commitment::{CommitmentPrefix, CommitmentProofBytes, CommitmentRoot};
use crate::context::{HostStore, HostStoreView};
use crate::error::ClientError;
use crate::height::Height;
use crate::ics07_tendermint::client_state::ClientState as TmClientState;
use crate::ics07_tendermint::types::ConsensusState as TmConsensusState;
use crate::mock::types::MockConsensusState;
use crate::error::UpgradeClientError;
use crate::ics07_tendermint::client_traits::{
    tm_check_for_misbehaviour, tm_expired, tm_freeze, tm_initialise, tm_update_state,
    tm_verify_client_message, tm_verify_consensus_state, tm_verify_membership,
    tm_verify_non_membership, TENDERMINT_CLIENT_TYPE,
};
use crate::identifier::{ClientId, ClientType};
use crate::mock::client_state::{
    mock_check_for_misbehaviour, mock_freeze, mock_initialise, mock_update_state, mock_upgrade,
    mock_verify_client_message, mock_verify_consensus_state, mock_verify_upgrade, MockClientState,
    MOCK_CLIENT_TYPE,
};
use crate::timestamp::{Duration, Timestamp};

verus! {

/// The name of the kind of a client.
pub open spec fn any_client_type(cs: AnyClientStateView) -> Seq<char> {
    match cs {
        AnyClientStateView::Tendermint(_) => TENDERMINT_CLIENT_TYPE@,
        AnyClientStateView::Mock(_) => MOCK_CLIENT_TYPE@,
    }
}

/// Whether a client of any kind takes a consensus state: it takes those of
/// its own kind.
pub open spec fn any_verify_consensus_state(
    cs: AnyClientStateView,
    consensus_state: AnyView,
) -> Result<(), ClientError> {
    match cs {
        AnyClientStateView::Tendermint(_) => tm_verify_consensus_state(consensus_state),
        AnyClientStateView::Mock(_) => mock_verify_consensus_state(consensus_state),
    }
}

/// Whether a client of any kind has expired once a span has passed since
/// its latest consensus state. The mock client never expires.
pub open spec fn any_expired(cs: AnyClientStateView, elapsed: Duration) -> bool {
    match cs {
        AnyClientStateView::Tendermint(s) => tm_expired(s, elapsed),
        AnyClientStateView::Mock(_) => false,
    }
}

/// Whether a client of any kind may be upgraded to the states given.
pub open spec fn any_verify_upgrade(
    cs: AnyClientStateView,
    upgraded_client_state: AnyView,
    upgraded_consensus_state: AnyView,
) -> Result<(), ClientError> {
    match cs {
        AnyClientStateView::Tendermint(_) => Err(
            ClientError::Upgrade(UpgradeClientError::UpgradeNotVerifiable),
        ),
        AnyClientStateView::Mock(s) => mock_verify_upgrade(
            s,
            upgraded_client_state,
            upgraded_consensus_state,
        ),
    }
}

/// The store once a client of any kind is replaced by an upgraded one, and
/// the height of the upgraded client.
pub open spec fn any_upgrade(
    cs: AnyClientStateView,
    store: HostStoreView,
    id: Seq<char>,
    upgraded_client_state: AnyView,
    upgraded_consensus_state: AnyView,
) -> Result<(HostStoreView, Height), ClientError> {
    match cs {
        AnyClientStateView::Tendermint(_) => Err(
            ClientError::Upgrade(UpgradeClientError::UpgradeNotVerifiable),
        ),
        AnyClientStateView::Mock(_) => mock_upgrade(
            store,
            id,
            upgraded_client_state,
            upgraded_consensus_state,
        ),
    }
}

/// The outcome of verifying a client message with a client of any kind.
pub open spec fn any_verify_client_message(
    cs: AnyClientStateView,
    store: HostStoreView,
    id: Seq<char>,
    message: AnyView,
    kind: UpdateKind,
) -> Result<(), ClientError> {
    match cs {
        AnyClientStateView::Tendermint(s) => tm_verify_client_message(s, store, id, message, kind),
        AnyClientStateView::Mock(s) => mock_verify_client_message(s, message, kind),
    }
}

/// Whether a client of any kind finds misbehaviour in a client message.
pub open spec fn any_check_for_misbehaviour(
    cs: AnyClientStateView,
    store: HostStoreView,
    id: Seq<char>,
    message: AnyView,
    kind: UpdateKind,
) -> Result<bool, ClientError> {
    match cs {
        AnyClientStateView::Tendermint(s) => tm_check_for_misbehaviour(s, store, id, message, kind),
        AnyClientStateView::Mock(s) => mock_check_for_misbehaviour(s, message, kind),
    }
}

/// The store once a client of any kind has taken a header, and the heights
/// at which consensus states were stored.
pub open spec fn any_update_state(
    cs: AnyClientStateView,
    store: HostStoreView,
    id: Seq<char>,
    message: AnyView,
) -> Result<(HostStoreView, Seq<Height>), ClientError> {
    match cs {
        AnyClientStateView::Tendermint(s) => tm_update_state(s, store, id, message),
        AnyClientStateView::Mock(_) => mock_update_state(store, id, message),
    }
}

/// The store once a client of any kind is frozen.
pub open spec fn any_freeze(cs: AnyClientStateView, store: HostStoreView, id: Seq<char>) -> HostStoreView {
    match cs {
        AnyClientStateView::Tendermint(s) => tm_freeze(s, store, id),
        AnyClientStateView::Mock(s) => mock_freeze(s, store, id),
    }
}

/// The store once a client of any kind is stored with its first consensus
/// state.
pub open spec fn any_initialise(
    cs: AnyClientStateView,
    store: HostStoreView,
    id: Seq<char>,
    consensus_state: AnyView,
) -> Result<HostStoreView, ClientError> {
    match cs {
        AnyClientStateView::Tendermint(s) => tm_initialise(s, store, id, consensus_state),
        AnyClientStateView::Mock(s) => mock_initialise(s, store, id, consensus_state),
    }
}

/// The outcome of verifying, with a client of any kind, that a value is
/// stored at a path. The mock client takes every proof.
pub open spec fn any_verify_membership(
    cs: AnyClientStateView,
    prefix: Seq<u8>,
    proof_bytes: Seq<u8>,
    root: Seq<u8>,
    path: Seq<char>,
    value: Seq<u8>,
) -> Result<(), ClientError> {
    match cs {
        AnyClientStateView::Tendermint(s) => tm_verify_membership(
            s,
            prefix,
            proof_bytes,
            root,
            path,
            value,
        ),
        AnyClientStateView::Mock(_) => Ok(()),
    }
}

/// The outcome of verifying, with a client of any kind, that nothing is
/// stored at a path. The mock client takes every proof.
pub open spec fn any_verify_non_membership(
    cs: AnyClientStateView,
    prefix: Seq<u8>,
    proof_bytes: Seq<u8>,
    root: Seq<u8>,
    path: Seq<char>,
) -> Result<(), ClientError> {
    match cs {
        AnyClientStateView::Tendermint(s) => tm_verify_non_membership(
            s,
            prefix,
            proof_bytes,
            root,
            path,
        ),
        AnyClientStateView::Mock(_) => Ok(()),
    }
}

/// The commitment root of a consensus state of any kind.
pub open spec fn any_root(cs: AnyConsensusStateView) -> Seq<u8> {
    match cs {
        AnyConsensusStateView::Tendermint(s) => s.root,
        AnyConsensusStateView::Mock(_) => seq![0u8],
    }
}

impl ClientStateCommon for AnyClientState {
    open spec fn latest(&self) -> Height {
        any_latest(self@)
    }

    open spec fn frozen(&self) -> bool {
        any_frozen(self@)
    }

    fn verify_consensus_state(&self, consensus_state: &Any) -> (r: Result<(), ClientError>)
        ensures
            r == any_verify_consensus_state(self@, consensus_state@),
    {
        match self {
            AnyClientState::Tendermint(cs) => <TmClientState as ClientStateCommon>::verify_consensus_state(
                cs,
                consensus_state,
            ),
            AnyClientState::Mock(cs) => <MockClientState as ClientStateCommon>::verify_consensus_state(
                cs,
                consensus_state,
            ),
        }
    }

    fn client_type(&self) -> (r: ClientType)
        ensures
            r@ == any_client_type(self@),
    {
        match self {
            AnyClientState::Tendermint(cs) => <TmClientState as ClientStateCommon>::client_type(cs),
            AnyClientState::Mock(cs) => <MockClientState as ClientStateCommon>::client_type(cs),
        }
    }

    fn latest_height(&self) -> (r: Height) {
        match self {
            AnyClientState::Tendermint(cs) => <TmClientState as ClientStateCommon>::latest_height(cs),
            AnyClientState::Mock(cs) => <MockClientState as ClientStateCommon>::latest_height(cs),
        }
    }

    fn validate_proof_height(&self, proof_height: Height) -> (r: Result<(), ClientError>) {
        match self {
            AnyClientState::Tendermint(cs) => <TmClientState as ClientStateCommon>::validate_proof_height(
                cs,
                proof_height,
            ),
            AnyClientState::Mock(cs) => <MockClientState as ClientStateCommon>::validate_proof_height(
                cs,
                proof_height,
            ),
        }
    }

    fn confirm_not_frozen(&self) -> (r: Result<(), ClientError>)
        ensures
            any_frozen_height(self@) matches Some(h) ==> r == Err::<(), ClientError>(
                ClientError::ClientFrozen { frozen_height: h },
            ),
    {
        match self {
            AnyClientState::Tendermint(cs) => <TmClientState as ClientStateCommon>::confirm_not_frozen(
                cs,
            ),
            AnyClientState::Mock(cs) => <MockClientState as ClientStateCommon>::confirm_not_frozen(cs),
        }
    }

    fn expired(&self, elapsed: Duration) -> (r: bool)
        ensures
            r == any_expired(self@, elapsed),
    {
        match self {
            AnyClientState::Tendermint(cs) => <TmClientState as ClientStateCommon>::expired(
                cs,
                elapsed,
            ),
            AnyClientState::Mock(cs) => <MockClientState as ClientStateCommon>::expired(cs, elapsed),
        }
    }

    fn verify_upgrade_client(
        &self,
        upgraded_client_state: &Any,
        upgraded_consensus_state: &Any,
        proof_upgrade_client: CommitmentProofBytes,
        proof_upgrade_consensus_state: CommitmentProofBytes,
        root: &CommitmentRoot,
    ) -> (r: Result<(), ClientError>)
        ensures
            r == any_verify_upgrade(self@, upgraded_client_state@, upgraded_consensus_state@),
    {
        match self {
            AnyClientState::Tendermint(cs) => <TmClientState as ClientStateCommon>::verify_upgrade_client(
                cs,
                upgraded_client_state,
                upgraded_consensus_state,
                proof_upgrade_client,
                proof_upgrade_consensus_state,
                root,
            ),
            AnyClientState::Mock(cs) => <MockClientState as ClientStateCommon>::verify_upgrade_client(
                cs,
                upgraded_client_state,
                upgraded_consensus_state,
                proof_upgrade_client,
                proof_upgrade_consensus_state,
                root,
            ),
        }
    }

    fn verify_membership(
        &self,
        prefix: &CommitmentPrefix,
        proof: &CommitmentProofBytes,
        root: &CommitmentRoot,
        path: String,
        value: Vec<u8>,
    ) -> (r: Result<(), ClientError>)
        ensures
            r == any_verify_membership(self@, prefix@, proof@, root@, path@, value@),
    {
        match self {
            AnyClientState::Tendermint(cs) => <TmClientState as ClientStateCommon>::verify_membership(
                cs,
                prefix,
                proof,
                root,
                path,
                value,
            ),
            AnyClientState::Mock(cs) => <MockClientState as ClientStateCommon>::verify_membership(
                cs,
                prefix,
                proof,
                root,
                path,
                value,
            ),
        }
    }

    fn verify_non_membership(
        &self,
        prefix: &CommitmentPrefix,
        proof: &CommitmentProofBytes,
        root: &CommitmentRoot,
        path: String,
    ) -> (r: Result<(), ClientError>)
        ensures
            r == any_verify_non_membership(self@, prefix@, proof@, root@, path@),
    {
        match self {
            AnyClientState::Tendermint(cs) => <TmClientState as ClientStateCommon>::verify_non_membership(
                cs,
                prefix,
                proof,
                root,
                path,
            ),
            AnyClientState::Mock(cs) => <MockClientState as ClientStateCommon>::verify_non_membership(
                cs,
                prefix,
                proof,
                root,
                path,
            ),
        }
    }
}

impl ClientStateValidation for AnyClientState {
    fn verify_client_message(
        &self,
        ctx: &HostStore,
        client_id: &ClientId,
        client_message: &Any,
        update_kind: &UpdateKind,
    ) -> (r: Result<(), ClientError>)
        ensures
            r == any_verify_client_message(self@, ctx@, client_id@, client_message@, *update_kind),
    {
        match self {
            AnyClientState::Tendermint(cs) => <TmClientState as ClientStateValidation>::verify_client_message(
                cs,
                ctx,
                client_id,
                client_message,
                update_kind,
            ),
            AnyClientState::Mock(cs) => <MockClientState as ClientStateValidation>::verify_client_message(
                cs,
                ctx,
                client_id,
                client_message,
                update_kind,
            ),
        }
    }

    fn check_for_misbehaviour(
        &self,
        ctx: &HostStore,
        client_id: &ClientId,
        client_message: &Any,
        update_kind: &UpdateKind,
    ) -> (r: Result<bool, ClientError>)
        ensures
            r == any_check_for_misbehaviour(self@, ctx@, client_id@, client_message@, *update_kind),
    {
        match self {
            AnyClientState::Tendermint(cs) => <TmClientState as ClientStateValidation>::check_for_misbehaviour(
                cs,
                ctx,
                client_id,
                client_message,
                update_kind,
            ),
            AnyClientState::Mock(cs) => <MockClientState as ClientStateValidation>::check_for_misbehaviour(
                cs,
                ctx,
                client_id,
                client_message,
                update_kind,
            ),
        }
    }
}

impl ClientStateExecution for AnyClientState {
    fn initialise(
        &self,
        ctx: &mut HostStore,
        client_id: &ClientId,
        consensus_state: &Any,
    ) -> (r: Result<(), ClientError>)
        ensures
            match any_initialise(self@, old(ctx)@, client_id@, consensus_state@) {
                Ok(store) => r is Ok && final(ctx)@ == store,
                Err(e) => r == Err::<(), ClientError>(e),
            },
    {
        match self {
            AnyClientState::Tendermint(cs) => <TmClientState as ClientStateExecution>::initialise(
                cs,
                ctx,
                client_id,
                consensus_state,
            ),
            AnyClientState::Mock(cs) => <MockClientState as ClientStateExecution>::initialise(
                cs,
                ctx,
                client_id,
                consensus_state,
            ),
        }
    }

    fn update_state(&self, ctx: &mut HostStore, client_id: &ClientId, header: &Any) -> (r: Result<
        Vec<Height>,
        ClientError,
    >)
        ensures
            match any_update_state(self@, old(ctx)@, client_id@, header@) {
                Ok((store, heights)) => r is Ok && r->Ok_0@ == heights && final(ctx)@ == store,
                Err(e) => r == Err::<Vec<Height>, ClientError>(e),
            },
    {
        match self {
            AnyClientState::Tendermint(cs) => <TmClientState as ClientStateExecution>::update_state(
                cs,
                ctx,
                client_id,
                header,
            ),
            AnyClientState::Mock(cs) => <MockClientState as ClientStateExecution>::update_state(
                cs,
                ctx,
                client_id,
                header,
            ),
        }
    }

    fn update_state_on_misbehaviour(
        &self,
        ctx: &mut HostStore,
        client_id: &ClientId,
        client_message: &Any,
        update_kind: &UpdateKind,
    ) -> (r: Result<(), ClientError>)
        ensures
            r is Ok,
            final(ctx)@ == any_freeze(self@, old(ctx)@, client_id@),
    {
        match self {
            AnyClientState::Tendermint(cs) => <TmClientState as ClientStateExecution>::update_state_on_misbehaviour(
                cs,
                ctx,
                client_id,
                client_message,
                update_kind,
            ),
            AnyClientState::Mock(cs) => <MockClientState as ClientStateExecution>::update_state_on_misbehaviour(
                cs,
                ctx,
                client_id,
                client_message,
                update_kind,
            ),
        }
    }

    fn update_state_on_upgrade(
        &self,
        ctx: &mut HostStore,
        client_id: &ClientId,
        upgraded_client_state: &Any,
        upgraded_consensus_state: &Any,
    ) -> (r: Result<Height, ClientError>)
        ensures
            match any_upgrade(
                self@,
                old(ctx)@,
                client_id@,
                upgraded_client_state@,
                upgraded_consensus_state@,
            ) {
                Ok((store, height)) => r == Ok::<Height, ClientError>(height) && final(ctx)@
                    == store,
                Err(e) => r == Err::<Height, ClientError>(e),
            },
    {
        match self {
            AnyClientState::Tendermint(cs) => <TmClientState as ClientStateExecution>::update_state_on_upgrade(
                cs,
                ctx,
                client_id,
                upgraded_client_state,
                upgraded_consensus_state,
            ),
            AnyClientState::Mock(cs) => <MockClientState as ClientStateExecution>::update_state_on_upgrade(
                cs,
                ctx,
                client_id,
                upgraded_client_state,
                upgraded_consensus_state,
            ),
        }
    }
}

/// What every consensus state offers: the root that proofs are verified
/// against, and the time of its block.
pub trait ConsensusState {
    /// The commitment root of the block.
    spec fn root_bytes(&self) -> Seq<u8>;

    /// The time of the block.
    spec fn time(&self) -> Timestamp;

    /// The commitment root of the block.
    fn root(&self) -> (r: CommitmentRoot)
        ensures
            r@ == self.root_bytes(),
    ;

    /// The time of the block.
    fn timestamp(&self) -> (r: Timestamp)
        ensures
            r == self.time(),
    ;
}

impl ConsensusState for MockConsensusState {
    /// The mock chain commits to nothing: its root is a single zero.
    open spec fn root_bytes(&self) -> Seq<u8> {
        seq![0u8]
    }

    open spec fn time(&self) -> Timestamp {
        self.header.timestamp
    }

    fn root(&self) -> (r: CommitmentRoot) {
        let mut bytes: Vec<u8> = Vec::new();
        bytes.push(0u8);
        assert(bytes@ =~= seq![0u8]);
        CommitmentRoot::from(bytes)
    }

    fn timestamp(&self) -> (r: Timestamp) {
        self.header.timestamp
    }
}

impl ConsensusState for TmConsensusState {
    open spec fn root_bytes(&self) -> Seq<u8> {
        self@.root
    }

    open spec fn time(&self) -> Timestamp {
        self.timestamp
    }

    fn root(&self) -> (r: CommitmentRoot) {
        self.root.clone()
    }

    fn timestamp(&self) -> (r: Timestamp) {
        self.timestamp
    }
}

impl ConsensusState for AnyConsensusState {
    open spec fn root_bytes(&self) -> Seq<u8> {
        any_root(self@)
    }

    open spec fn time(&self) -> Timestamp {
        match self {
            AnyConsensusState::Tendermint(cs) => cs.time(),
            AnyConsensusState::Mock(cs) => cs.time(),
        }
    }

    fn root(&self) -> (r: CommitmentRoot) {
        match self {
            AnyConsensusState::Tendermint(cs) => <TmConsensusState as ConsensusState>::root(
                cs,
            ),
            AnyConsensusState::Mock(cs) => <MockConsensusState as ConsensusState>::root(
                cs,
            ),
        }
    }

    fn timestamp(&self) -> (r: Timestamp) {
        match self {
            AnyConsensusState::Tendermint(cs) => <TmConsensusState as ConsensusState>::timestamp(
                cs,
            ),
            AnyConsensusState::Mock(cs) => <MockConsensusState as ConsensusState>::timestamp(
                cs,
            ),
        }
    }
}

} // verus!
