//! The Tendermint light client as a client of the host: what it checks
//! without the store, what it reads there, and what it writes.

use vstd::prelude::*;

use crate::any::{
    Any, AnyClientState, AnyClientStateView, AnyConsensusState, AnyConsensusStateView, AnyView,
};
use crate::client_state::{
    ClientStateCommon, ClientStateExecution, ClientStateValidation, UpdateKind,
};
use crate::commitment::{CommitmentError, CommitmentPrefix, CommitmentProofBytes, CommitmentRoot};
use crate::context::{consensus_state_of, HostStore, HostStoreView};
use crate::error::{ClientError, UpgradeClientError};
use crate::height::{height_lt, Height};
use crate::ics07_tendermint::client_state::{ClientState, ClientStateView};
use crate::ics07_tendermint::error::Error;
use crate::ics07_tendermint::misbehaviour::{
    header_outcome, headers_conflict, misbehaviour_outcome, read_trusted_consensus_state,
    trusted_consensus_state,
};
use crate::ics07_tendermint::types::{
    tm_consensus_state_of_any, tm_header_of_any, tm_misbehaviour_of_any, ConsensusState,
    ConsensusStateView, Header, HeaderSummary, HeaderSummaryView, Misbehaviour,
};
use crate::identifier::{ClientId, ClientType};
use crate::merkle::{
    apply_prefix, membership_outcome, merkle_proof_decoded, non_membership_outcome, prefix_key,
    MerklePath, MerkleProof, MerkleRoot,
};
use crate::mock::client_state::frozen_marker;
use crate::timestamp::{Duration, Timestamp};

verus! {

/// The name of the Tendermint kind of client.
pub const TENDERMINT_CLIENT_TYPE: &'static str = "07-tendermint";

/// The Tendermint kind of client.
pub fn client_type() -> (r: ClientType)
    ensures
        r@ == TENDERMINT_CLIENT_TYPE@,
{
    ClientType::new(TENDERMINT_CLIENT_TYPE.to_owned())
}

/// The consensus state that a header gives rise to: its time, its
/// application hash as the root, and the hash of its next validators. There
/// is none where the time of the header is no timestamp.
pub open spec fn header_consensus_state(s: HeaderSummaryView) -> Option<ConsensusStateView> {
    if 0 < s.time_nanos <= u64::MAX {
        Some(
            ConsensusStateView {
                timestamp: Timestamp { nanos: s.time_nanos as u64 },
                root: s.app_hash,
                next_validators_hash: s.next_validators_hash,
            },
        )
    } else {
        None
    }
}

/// Makes the consensus state that a header gives rise to.
pub fn consensus_state_of_header(summary: HeaderSummary) -> (r: Option<ConsensusState>)
    ensures
        match header_consensus_state(summary@) {
            Some(cs) => r is Some && r->0@ == cs,
            None => r is None,
        },
{
    if summary.time_nanos <= 0 || summary.time_nanos > 0xffff_ffff_ffff_ffff {
        return None;
    }
    let nanos: u64 = summary.time_nanos as u64;
    Some(
        ConsensusState::new(
            CommitmentRoot::from(summary.app_hash),
            Timestamp::from_nanoseconds(nanos),
            summary.next_validators_hash,
        ),
    )
}

/// The height of a header on the chain of a client: the revision of the
/// chain and the height of the block. A block height of zero is no height.
pub open spec fn header_height(state: ClientStateView, s: HeaderSummaryView) -> Option<Height> {
    if s.height == 0 {
        None
    } else {
        Some(Height { revision_number: state.chain_id.revision_number, revision_height: s.height })
    }
}

/// The outcome of verifying a header as an update: the header verifies
/// against the consensus state at its trusted height, at the time of the
/// host.
pub open spec fn update_outcome(
    state: ClientStateView,
    store: HostStoreView,
    id: Seq<char>,
    header: Header,
) -> Result<(), ClientError> {
    match trusted_consensus_state(store, id, header.trusted_height) {
        Err(e) => Err(e),
        Ok(trusted) => header_outcome(state, header, trusted, store.host_timestamp, true),
    }
}

/// The outcome of verifying a client message in packed form: a header is
/// decoded and verified as an update; evidence is decoded and verified as
/// evidence.
pub open spec fn tm_verify_client_message(
    state: ClientStateView,
    store: HostStoreView,
    id: Seq<char>,
    message: AnyView,
    kind: UpdateKind,
) -> Result<(), ClientError> {
    match kind {
        UpdateKind::UpdateClient => match tm_header_of_any(message) {
            Err(e) => Err(e),
            Ok(header) => update_outcome(state, store, id, header),
        },
        UpdateKind::SubmitMisbehaviour => match tm_misbehaviour_of_any(message) {
            Err(e) => Err(e),
            Ok(m) => misbehaviour_outcome(state, store, id, m),
        },
    }
}

/// Whether a header is evidence of misbehaviour all by itself: it is where
/// the store holds another consensus state at its height than the one that
/// it gives rise to.
pub open spec fn header_conflicts_with_store(
    state: ClientStateView,
    store: HostStoreView,
    id: Seq<char>,
    header: Header,
) -> Result<bool, ClientError> {
    match header_height(state, header.summary()) {
        None => Err(ClientError::InvalidHeight),
        Some(height) => match header_consensus_state(header.summary()) {
            None => Err(ClientError::ClientSpecific(Error::HeaderTimestampOutOfRange)),
            Some(cs) => match consensus_state_of(store.consensus_states, id, height) {
                None => Ok(false),
                Some(AnyConsensusStateView::Tendermint(existing)) => Ok(existing != cs),
                Some(_) => Err(ClientError::UnknownConsensusStateType),
            },
        },
    }
}

/// Whether a client message in packed form, which has been verified,
/// holds evidence of misbehaviour.
pub open spec fn tm_check_for_misbehaviour(
    state: ClientStateView,
    store: HostStoreView,
    id: Seq<char>,
    message: AnyView,
    kind: UpdateKind,
) -> Result<bool, ClientError> {
    match kind {
        UpdateKind::UpdateClient => match tm_header_of_any(message) {
            Err(e) => Err(e),
            Ok(header) => header_conflicts_with_store(state, store, id, header),
        },
        UpdateKind::SubmitMisbehaviour => match tm_misbehaviour_of_any(message) {
            Err(e) => Err(e),
            Ok(m) => Ok(headers_conflict(m.header1.summary(), m.header2.summary())),
        },
    }
}

/// The later of two heights.
pub open spec fn later_height(a: Height, b: Height) -> Height {
    if height_lt(a, b) {
        b
    } else {
        a
    }
}

/// The store once the client has taken a header in packed form, and the
/// height of the header.
pub open spec fn tm_update_state(
    state: ClientStateView,
    store: HostStoreView,
    id: Seq<char>,
    message: AnyView,
) -> Result<(HostStoreView, Seq<Height>), ClientError> {
    match tm_header_of_any(message) {
        Err(e) => Err(e),
        Ok(header) => store_with_header(state, store, id, header),
    }
}

/// The store once the client has taken a header, and the height of the
/// header. Where the store holds a consensus state at that height already,
/// nothing is stored. Else the consensus state of the header is stored at
/// its height, and the client moves up to that height unless it is beyond
/// it.
pub open spec fn store_with_header(
    state: ClientStateView,
    store: HostStoreView,
    id: Seq<char>,
    header: Header,
) -> Result<(HostStoreView, Seq<Height>), ClientError> {
    match header_height(state, header.summary()) {
        None => Err(ClientError::InvalidHeight),
        Some(height) => match header_consensus_state(header.summary()) {
            None => Err(ClientError::ClientSpecific(Error::HeaderTimestampOutOfRange)),
            Some(cs) => if consensus_state_of(store.consensus_states, id, height) is Some {
                Ok((store, seq![height]))
            } else {
                Ok(
                    (
                        HostStoreView {
                            consensus_states: store.consensus_states.push(
                                (id, height, AnyConsensusStateView::Tendermint(cs)),
                            ),
                            client_states: store.client_states.push(
                                (
                                    id,
                                    AnyClientStateView::Tendermint(
                                        ClientStateView {
                                            latest_height: later_height(state.latest_height, height),
                                            ..state
                                        },
                                    ),
                                ),
                            ),
                            ..store
                        },
                        seq![height],
                    ),
                )
            },
        },
    }
}

/// The store once the client is frozen.
pub open spec fn tm_freeze(state: ClientStateView, store: HostStoreView, id: Seq<char>) -> HostStoreView {
    HostStoreView {
        client_states: store.client_states.push(
            (
                id,
                AnyClientStateView::Tendermint(
                    ClientStateView { frozen_height: Some(frozen_marker()), ..state },
                ),
            ),
        ),
        ..store
    }
}

/// The store once the client is stored with its first consensus state.
pub open spec fn tm_initialise(
    state: ClientStateView,
    store: HostStoreView,
    id: Seq<char>,
    consensus_state: AnyView,
) -> Result<HostStoreView, ClientError> {
    match tm_consensus_state_of_any(consensus_state) {
        Err(e) => Err(e),
        Ok(cs) => Ok(
            HostStoreView {
                client_states: store.client_states.push((id, AnyClientStateView::Tendermint(state))),
                consensus_states: store.consensus_states.push(
                    (id, state.latest_height, AnyConsensusStateView::Tendermint(cs)),
                ),
                ..store
            },
        ),
    }
}

/// The Tendermint client takes every consensus state of its own kind.
pub open spec fn tm_verify_consensus_state(consensus_state: AnyView) -> Result<(), ClientError> {
    match tm_consensus_state_of_any(consensus_state) {
        Ok(_) => Ok(()),
        Err(e) => Err(e),
    }
}

/// Whether a Tendermint client has expired once a span has passed since its
/// latest consensus state: it has once more than the trusting period has
/// passed.
pub open spec fn tm_expired(state: ClientStateView, elapsed: Duration) -> bool {
    elapsed.total_nanos() > state.trusting_period.total_nanos()
}

/// What a verification of a Merkle proof means to the client.
pub open spec fn proof_result(outcome: Result<(), CommitmentError>) -> Result<(), ClientError> {
    match outcome {
        Ok(_) => Ok(()),
        Err(e) => Err(ClientError::Ics23Verification(e)),
    }
}

/// The outcome of verifying that a value is stored at a path of the store
/// of the chain: the proof is decoded and held against the proof specs of
/// the client, under the key of the prefix and the path.
pub open spec fn tm_verify_membership(
    state: ClientStateView,
    prefix: Seq<u8>,
    proof_bytes: Seq<u8>,
    root: Seq<u8>,
    path: Seq<char>,
    value: Seq<u8>,
) -> Result<(), ClientError> {
    match merkle_proof_decoded(proof_bytes) {
        None => Err(ClientError::InvalidCommitmentProof),
        Some(layers) => proof_result(
            membership_outcome(
                layers,
                state.proof_specs,
                root,
                seq![prefix_key(prefix), vstd::utf8::encode_utf8(path)],
                value,
                0,
            ),
        ),
    }
}

/// The outcome of verifying that nothing is stored at a path of the store
/// of the chain.
pub open spec fn tm_verify_non_membership(
    state: ClientStateView,
    prefix: Seq<u8>,
    proof_bytes: Seq<u8>,
    root: Seq<u8>,
    path: Seq<char>,
) -> Result<(), ClientError> {
    match merkle_proof_decoded(proof_bytes) {
        None => Err(ClientError::InvalidCommitmentProof),
        Some(layers) => proof_result(
            non_membership_outcome(
                layers,
                state.proof_specs,
                root,
                seq![prefix_key(prefix), vstd::utf8::encode_utf8(path)],
            ),
        ),
    }
}

impl ClientState {
    /// The path of a value in the store of the chain: the prefix of the
    /// store, then the path within it.
    fn merkle_path(prefix: &CommitmentPrefix, path: String) -> (r: MerklePath)
        ensures
            r.key_path@.len() == 2,
            r@ == seq![prefix_key(prefix@), vstd::utf8::encode_utf8(path@)],
    {
        let mut keys: Vec<String> = Vec::new();
        keys.push(path);
        let r = apply_prefix(prefix, keys);
        assert(r.key_path@.subrange(1, 2)[0] == path);
        assert(r@ =~= seq![prefix_key(prefix@), vstd::utf8::encode_utf8(path@)]);
        r
    }

    /// The height of a header on the chain of this client.
    fn height_of_header(&self, summary: &HeaderSummary) -> (r: Result<Height, ClientError>)
        ensures
            match header_height(self@, summary@) {
                Some(h) => r == Ok::<Height, ClientError>(h),
                None => r == Err::<Height, ClientError>(ClientError::InvalidHeight),
            },
    {
        Height::new(self.chain_id.revision_number(), summary.height)
    }

    /// Verifies a header as an update of this client.
    pub fn verify_header(&self, ctx: &HostStore, client_id: &ClientId, header: &Header) -> (r:
        Result<(), ClientError>)
        ensures
            r == update_outcome(self@, ctx@, client_id@, *header),
    {
        let trusted = match read_trusted_consensus_state(ctx, client_id, header.trusted_height) {
            Ok(cs) => cs,
            Err(e) => {
                return Err(e);
            },
        };
        self.verify_header_against(header, &trusted, ctx.host_timestamp(), true)
    }

    /// Judges whether a header conflicts with what the store holds at its
    /// height.
    pub fn check_for_misbehaviour_update_client(
        &self,
        ctx: &HostStore,
        client_id: &ClientId,
        header: &Header,
    ) -> (r: Result<bool, ClientError>)
        ensures
            r == header_conflicts_with_store(self@, ctx@, client_id@, *header),
    {
        let summary = header.summarize();
        let height = match self.height_of_header(&summary) {
            Ok(h) => h,
            Err(e) => {
                return Err(e);
            },
        };
        let header_consensus_state = match consensus_state_of_header(summary) {
            Some(cs) => cs,
            None => {
                return Err(ClientError::ClientSpecific(Error::HeaderTimestampOutOfRange));
            },
        };
        match ctx.consensus_state(client_id, height) {
            Err(_) => Ok(false),
            Ok(AnyConsensusState::Tendermint(existing)) => {
                let same = existing.timestamp == header_consensus_state.timestamp
                    && crate::bytes::bytes_eq(
                    existing.root.as_bytes(),
                    header_consensus_state.root.as_bytes(),
                ) && crate::bytes::bytes_eq(
                    existing.next_validators_hash.as_slice(),
                    header_consensus_state.next_validators_hash.as_slice(),
                );
                Ok(!same)
            },
            Ok(_) => Err(ClientError::UnknownConsensusStateType),
        }
    }
}

impl ClientStateCommon for ClientState {
    open spec fn latest(&self) -> Height {
        self.latest_height
    }

    open spec fn frozen(&self) -> bool {
        self.frozen_height.is_some()
    }

    fn verify_consensus_state(&self, consensus_state: &Any) -> (r: Result<(), ClientError>)
        ensures
            r == tm_verify_consensus_state(consensus_state@),
    {
        match ConsensusState::try_from_any(consensus_state) {
            Ok(_) => Ok(()),
            Err(e) => Err(e),
        }
    }

    fn client_type(&self) -> (r: ClientType)
        ensures
            r@ == TENDERMINT_CLIENT_TYPE@,
    {
        client_type()
    }

    fn latest_height(&self) -> (r: Height) {
        self.latest_height
    }

    fn validate_proof_height(&self, proof_height: Height) -> (r: Result<(), ClientError>) {
        if self.latest_height.lt(&proof_height) {
            return Err(
                ClientError::InvalidProofHeight { latest_height: self.latest_height, proof_height },
            );
        }
        Ok(())
    }

    fn confirm_not_frozen(&self) -> (r: Result<(), ClientError>)
        ensures
            self.frozen_height matches Some(h) ==> r == Err::<(), ClientError>(
                ClientError::ClientFrozen { frozen_height: h },
            ),
    {
        if let Some(frozen_height) = self.frozen_height {
            return Err(ClientError::ClientFrozen { frozen_height });
        }
        Ok(())
    }

    /// The client has expired once more than the trusting period has passed.
    fn expired(&self, elapsed: Duration) -> (r: bool)
        ensures
            r == tm_expired(self@, elapsed),
    {
        !self.trusting_period.ge(&elapsed)
    }

    /// The client refuses every upgrade: it proves an upgrade over the
    /// store path that the chain upgrades under, which it does not keep.
    fn verify_upgrade_client(
        &self,
        upgraded_client_state: &Any,
        upgraded_consensus_state: &Any,
        proof_upgrade_client: CommitmentProofBytes,
        proof_upgrade_consensus_state: CommitmentProofBytes,
        root: &CommitmentRoot,
    ) -> (r: Result<(), ClientError>)
        ensures
            r == Err::<(), ClientError>(
                ClientError::Upgrade(UpgradeClientError::UpgradeNotVerifiable),
            ),
    {
        Err(ClientError::Upgrade(UpgradeClientError::UpgradeNotVerifiable))
    }

    fn verify_membership(
        &self,
        prefix: &CommitmentPrefix,
        proof: &CommitmentProofBytes,
        root: &CommitmentRoot,
        path: String,
        value: Vec<u8>,
    ) -> (r: Result<(), ClientError>)
        ensures
            r == tm_verify_membership(self@, prefix@, proof@, root@, path@, value@),
    {
        let merkle_path = ClientState::merkle_path(prefix, path);
        let merkle_proof = match MerkleProof::decode(proof) {
            Ok(p) => p,
            Err(_) => {
                return Err(ClientError::InvalidCommitmentProof);
            },
        };
        match merkle_proof.verify_membership(
            &self.proof_specs,
            MerkleRoot::from_root(root.clone()),
            merkle_path,
            value,
            0,
        ) {
            Ok(_) => Ok(()),
            Err(e) => Err(ClientError::Ics23Verification(e)),
        }
    }

    fn verify_non_membership(
        &self,
        prefix: &CommitmentPrefix,
        proof: &CommitmentProofBytes,
        root: &CommitmentRoot,
        path: String,
    ) -> (r: Result<(), ClientError>)
        ensures
            r == tm_verify_non_membership(self@, prefix@, proof@, root@, path@),
    {
        let merkle_path = ClientState::merkle_path(prefix, path);
        let merkle_proof = match MerkleProof::decode(proof) {
            Ok(p) => p,
            Err(_) => {
                return Err(ClientError::InvalidCommitmentProof);
            },
        };
        match merkle_proof.verify_non_membership(
            &self.proof_specs,
            MerkleRoot::from_root(root.clone()),
            merkle_path,
        ) {
            Ok(_) => Ok(()),
            Err(e) => Err(ClientError::Ics23Verification(e)),
        }
    }
}

impl ClientStateValidation for ClientState {
    fn verify_client_message(
        &self,
        ctx: &HostStore,
        client_id: &ClientId,
        client_message: &Any,
        update_kind: &UpdateKind,
    ) -> (r: Result<(), ClientError>)
        ensures
            r == tm_verify_client_message(self@, ctx@, client_id@, client_message@, *update_kind),
    {
        match update_kind {
            UpdateKind::UpdateClient => match Header::try_from_any(client_message) {
                Ok(header) => self.verify_header(ctx, client_id, &header),
                Err(e) => Err(e),
            },
            UpdateKind::SubmitMisbehaviour => match Misbehaviour::try_from_any(client_message) {
                Ok(m) => self.verify_misbehaviour(ctx, client_id, &m),
                Err(e) => Err(e),
            },
        }
    }

    fn check_for_misbehaviour(
        &self,
        ctx: &HostStore,
        client_id: &ClientId,
        client_message: &Any,
        update_kind: &UpdateKind,
    ) -> (r: Result<bool, ClientError>)
        ensures
            r == tm_check_for_misbehaviour(self@, ctx@, client_id@, client_message@, *update_kind),
    {
        match update_kind {
            UpdateKind::UpdateClient => match Header::try_from_any(client_message) {
                Ok(header) => self.check_for_misbehaviour_update_client(ctx, client_id, &header),
                Err(e) => Err(e),
            },
            UpdateKind::SubmitMisbehaviour => match Misbehaviour::try_from_any(client_message) {
                Ok(m) => self.check_for_misbehaviour_misbehavior(&m),
                Err(e) => Err(e),
            },
        }
    }
}

impl ClientStateExecution for ClientState {
    fn initialise(&self, ctx: &mut HostStore, client_id: &ClientId, consensus_state: &Any) -> (r:
        Result<(), ClientError>)
        ensures
            match tm_initialise(self@, old(ctx)@, client_id@, consensus_state@) {
                Ok(store) => r is Ok && final(ctx)@ == store,
                Err(e) => r == Err::<(), ClientError>(e),
            },
    {
        let tm_consensus_state = match ConsensusState::try_from_any(consensus_state) {
            Ok(cs) => cs,
            Err(e) => {
                return Err(e);
            },
        };
        ctx.store_client_state(client_id.clone(), AnyClientState::Tendermint(self.clone()));
        ctx.store_consensus_state(
            client_id.clone(),
            self.latest_height,
            AnyConsensusState::Tendermint(tm_consensus_state),
        );
        Ok(())
    }

    fn update_state(&self, ctx: &mut HostStore, client_id: &ClientId, header: &Any) -> (r: Result<
        Vec<Height>,
        ClientError,
    >)
        ensures
            match tm_update_state(self@, old(ctx)@, client_id@, header@) {
                Ok((store, heights)) => r is Ok && r->Ok_0@ == heights && final(ctx)@ == store,
                Err(e) => r == Err::<Vec<Height>, ClientError>(e),
            },
    {
        let header = match Header::try_from_any(header) {
            Ok(header) => header,
            Err(e) => {
                return Err(e);
            },
        };
        let summary = header.summarize();
        let header_height = match self.height_of_header(&summary) {
            Ok(h) => h,
            Err(e) => {
                return Err(e);
            },
        };
        let new_consensus_state = match consensus_state_of_header(summary) {
            Some(cs) => cs,
            None => {
                return Err(ClientError::ClientSpecific(Error::HeaderTimestampOutOfRange));
            },
        };
        let mut heights: Vec<Height> = Vec::new();
        heights.push(header_height);
        if ctx.consensus_state(client_id, header_height).is_ok() {
            // the header was installed by an earlier update: nothing to do
            return Ok(heights);
        }
        let latest = if self.latest_height.lt(&header_height) {
            header_height
        } else {
            self.latest_height
        };
        let new_client_state = self.clone().with_latest_height(latest);
        ctx.store_consensus_state(
            client_id.clone(),
            header_height,
            AnyConsensusState::Tendermint(new_consensus_state),
        );
        ctx.store_client_state(client_id.clone(), AnyClientState::Tendermint(new_client_state));
        Ok(heights)
    }

    fn update_state_on_misbehaviour(
        &self,
        ctx: &mut HostStore,
        client_id: &ClientId,
        client_message: &Any,
        update_kind: &UpdateKind,
    ) -> (r: Result<(), ClientError>)
        ensures
            r is Ok,
            final(ctx)@ == tm_freeze(self@, old(ctx)@, client_id@),
    {
        let frozen_client_state = self.clone().with_frozen_height(Height::min(0));
        ctx.store_client_state(client_id.clone(), AnyClientState::Tendermint(frozen_client_state));
        Ok(())
    }

    fn update_state_on_upgrade(
        &self,
        ctx: &mut HostStore,
        client_id: &ClientId,
        upgraded_client_state: &Any,
        upgraded_consensus_state: &Any,
    ) -> (r: Result<Height, ClientError>)
        ensures
            r == Err::<Height, ClientError>(
                ClientError::Upgrade(UpgradeClientError::UpgradeNotVerifiable),
            ),
            final(ctx)@ == old(ctx)@,
    {
        Err(ClientError::Upgrade(UpgradeClientError::UpgradeNotVerifiable))
    }
}

} // verus!
