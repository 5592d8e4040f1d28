//! What every light client offers to the host: checks that need nothing but
//! the client state, checks that read the store of the host, and updates
//! that write to it.

use vstd::prelude::*;

use crate::any::{any_frozen, Any};
use crate::commitment::{CommitmentPrefix, CommitmentProofBytes, CommitmentRoot};
use crate::context::{client_state_of, HostStore};
use crate::error::ClientError;
use crate::height::{height_lt, Height};
use crate::identifier::{ClientId, ClientType};
use crate::timestamp::Duration;

verus! {

/// The two ways in which a client is updated: with a header, or with
/// evidence of misbehaviour.
#[derive(Clone, Copy, Debug, PartialEq, Eq, Structural)]
pub enum UpdateKind {
    /// A new header is submitted to the client.
    UpdateClient,
    /// Evidence of misbehaviour is submitted to the client, such as two
    /// headers of one height.
    SubmitMisbehaviour,
}

/// What a client offers without the store of the host.
pub trait ClientStateCommon {
    /// The latest height that the client was updated to.
    spec fn latest(&self) -> Height;

    /// Whether the client was frozen.
    spec fn frozen(&self) -> bool;

    /// Checks that a packed consensus state is one of this kind of client.
    fn verify_consensus_state(&self, consensus_state: &Any) -> (r: Result<(), ClientError>);

    /// The kind of the client.
    fn client_type(&self) -> (r: ClientType);

    /// The latest height that the client was updated to.
    fn latest_height(&self) -> (r: Height)
        ensures
            r == self.latest(),
    ;

    /// Checks that the client has reached the height at which a proof was
    /// taken.
    fn validate_proof_height(&self, proof_height: Height) -> (r: Result<(), ClientError>)
        ensures
            !height_lt(self.latest(), proof_height) ==> r is Ok,
            height_lt(self.latest(), proof_height) ==> r == Err::<(), ClientError>(
                ClientError::InvalidProofHeight { latest_height: self.latest(), proof_height },
            ),
    ;

    /// Checks that the client is not frozen.
    fn confirm_not_frozen(&self) -> (r: Result<(), ClientError>)
        ensures
            r is Ok <==> !self.frozen(),
            r is Err ==> r->Err_0 is ClientFrozen,
    ;

    /// Whether the client has expired once `elapsed` has passed since its
    /// latest consensus state.
    fn expired(&self, elapsed: Duration) -> (r: bool);

    /// Checks that the client may be upgraded to the states given.
    fn verify_upgrade_client(
        &self,
        upgraded_client_state: &Any,
        upgraded_consensus_state: &Any,
        proof_upgrade_client: CommitmentProofBytes,
        proof_upgrade_consensus_state: CommitmentProofBytes,
        root: &CommitmentRoot,
    ) -> (r: Result<(), ClientError>);

    /// Verifies a proof that `value` is stored at `path` under the prefix.
    fn verify_membership(
        &self,
        prefix: &CommitmentPrefix,
        proof: &CommitmentProofBytes,
        root: &CommitmentRoot,
        path: String,
        value: Vec<u8>,
    ) -> (r: Result<(), ClientError>);

    /// Verifies a proof that nothing is stored at `path` under the prefix.
    fn verify_non_membership(
        &self,
        prefix: &CommitmentPrefix,
        proof: &CommitmentProofBytes,
        root: &CommitmentRoot,
        path: String,
    ) -> (r: Result<(), ClientError>);
}

/// What a client offers with the store of the host to read.
pub trait ClientStateValidation {
    /// Verifies a client message in packed form, a header or evidence of
    /// misbehaviour, each in its own way. The functions that follow rely on
    /// it.
    fn verify_client_message(
        &self,
        ctx: &HostStore,
        client_id: &ClientId,
        client_message: &Any,
        update_kind: &UpdateKind,
    ) -> (r: Result<(), ClientError>);

    /// Looks for evidence of misbehaviour in a client message that has been
    /// verified.
    fn check_for_misbehaviour(
        &self,
        ctx: &HostStore,
        client_id: &ClientId,
        client_message: &Any,
        update_kind: &UpdateKind,
    ) -> (r: Result<bool, ClientError>);
}

/// What a client offers with the store of the host to write to.
pub trait ClientStateExecution {
    /// Stores the client with its first consensus state.
    fn initialise(
        &self,
        ctx: &mut HostStore,
        client_id: &ClientId,
        consensus_state: &Any,
    ) -> (r: Result<(), ClientError>)
        ensures
            r is Err ==> final(ctx)@ == old(ctx)@,
    ;

    /// Updates the client with a header that has been verified, and returns
    /// the heights of the consensus states that it stored: at least one.
    fn update_state(&self, ctx: &mut HostStore, client_id: &ClientId, header: &Any) -> (r: Result<
        Vec<Height>,
        ClientError,
    >)
        ensures
            r matches Ok(heights) ==> heights@.len() > 0,
            r is Err ==> final(ctx)@ == old(ctx)@,
    ;

    /// Freezes the client on misbehaviour that has been found and verified.
    fn update_state_on_misbehaviour(
        &self,
        ctx: &mut HostStore,
        client_id: &ClientId,
        client_message: &Any,
        update_kind: &UpdateKind,
    ) -> (r: Result<(), ClientError>)
        ensures
            r is Ok ==> (client_state_of(final(ctx)@.client_states, client_id@) matches Some(cs)
                && any_frozen(cs)),
            r is Err ==> final(ctx)@ == old(ctx)@,
    ;

    /// Replaces the client and its consensus state with upgraded ones.
    fn update_state_on_upgrade(
        &self,
        ctx: &mut HostStore,
        client_id: &ClientId,
        upgraded_client_state: &Any,
        upgraded_consensus_state: &Any,
    ) -> (r: Result<Height, ClientError>)
        ensures
            r is Err ==> final(ctx)@ == old(ctx)@,
    ;
}

/// A light client: all of what the three traits above offer.
pub trait ClientState: ClientStateCommon + ClientStateValidation + ClientStateExecution {

}

impl<T: ClientStateCommon + ClientStateValidation + ClientStateExecution> ClientState for T {

}

} // verus!
