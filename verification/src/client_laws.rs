//! What holds of every client, every header and every update.

use vstd::prelude::*;

use crate::any::{any_frozen, AnyView};
use crate::client_state::UpdateKind;
use crate::context::{client_state_of, HostStoreView};
use crate::dispatch::any_check_for_misbehaviour;
use crate::error::ClientError;
use crate::ics07_tendermint::client_state::ClientStateView;
use crate::ics07_tendermint::error::Error;
use crate::ics07_tendermint::misbehaviour::{
    header_outcome, headers_conflict, trusting_period_check,
};
use crate::ics07_tendermint::types::{
    tm_misbehaviour_of_any, ConsensusStateView, Header, HeaderSummaryView, MisbehaviourView,
};
use crate::timestamp::{Duration, Timestamp};
use crate::update_client::{execute_outcome, validate_outcome};

verus! {

/// A trusted consensus state can be built on for less than the trusting
/// period: at the very end of the period, and at any time after it, the
/// check fails; at any time from its timestamp up to the end of the
/// period, the check passes.
pub proof fn lemma_trusting_period_boundary(trusted: Timestamp, period: Duration, now: Timestamp)
    requires
        trusted.is_set(),
    ensures
        now.nanos - trusted.nanos >= period.total_nanos() ==> trusting_period_check(
            trusted,
            period,
            now,
        ) is Err,
        now.nanos < trusted.nanos ==> trusting_period_check(trusted, period, now) is Err,
        trusted.nanos <= now.nanos && now.nanos - trusted.nanos < period.total_nanos()
            ==> trusting_period_check(trusted, period, now) is Ok,
{
}

/// A header fails against a trusted consensus state once the trusting
/// period has passed, whatever else holds of it: at the very end of the
/// period too.
pub proof fn lemma_header_fails_from_end_of_trusting_period(
    state: ClientStateView,
    header: Header,
    trusted: ConsensusStateView,
    now: Timestamp,
    update: bool,
)
    requires
        trusted.timestamp.is_set(),
        now.nanos - trusted.timestamp.nanos >= state.trusting_period.total_nanos(),
    ensures
        header_outcome(state, header, trusted, now, update) is Err,
{
}

/// Before the end of the trusting period a header does not fail for the
/// age of the consensus state: if it fails, it fails on another check.
pub proof fn lemma_header_within_trusting_period(
    state: ClientStateView,
    header: Header,
    trusted: ConsensusStateView,
    now: Timestamp,
    update: bool,
)
    requires
        trusted.timestamp.is_set(),
        trusted.timestamp.nanos <= now.nanos,
        now.nanos - trusted.timestamp.nanos < state.trusting_period.total_nanos(),
    ensures
        !(header_outcome(state, header, trusted, now, update) matches Err(
            ClientError::InvalidConsensusStateTimestamp { .. },
        )),
        !(header_outcome(state, header, trusted, now, update) matches Err(
            ClientError::ClientSpecific(Error::ConsensusStateTimestampGteTrustingPeriod { .. }),
        )),
{
}

/// Two headers of one height are evidence of misbehaviour where their
/// block hashes differ, in whichever order they are given. Two headers of
/// different heights are evidence where the time of the first is not after
/// the time of the second, so that in both orders they are evidence only
/// where their times are the same.
pub proof fn lemma_headers_conflict(first: HeaderSummaryView, second: HeaderSummaryView)
    ensures
        first.height == second.height && first.block_hash == second.block_hash ==> !headers_conflict(
            first,
            second,
        ) && !headers_conflict(second, first),
        first.height == second.height && first.block_hash != second.block_hash ==> headers_conflict(
            first,
            second,
        ) && headers_conflict(second, first),
        first.height != second.height ==> (headers_conflict(first, second) <==> first.time_nanos
            <= second.time_nanos),
        first.height != second.height ==> (headers_conflict(first, second) && headers_conflict(
            second,
            first,
        ) <==> first.time_nanos == second.time_nanos),
{
}

/// A frozen client rejects every message at validation.
pub proof fn lemma_frozen_client_rejects_every_message(
    store: HostStoreView,
    id: Seq<char>,
    message: AnyView,
    kind: UpdateKind,
)
    requires
        client_state_of(store.client_states, id) matches Some(cs) && any_frozen(cs),
    ensures
        validate_outcome(store, id, message, kind) matches Err(ClientError::ClientFrozen { .. }),
{
}

/// Once misbehaviour was found in a message and the message was executed,
/// the client is frozen, and it rejects every later message at
/// validation.
pub proof fn lemma_misbehaviour_freezes_for_good(
    store: HostStoreView,
    id: Seq<char>,
    message: AnyView,
    kind: UpdateKind,
    later_message: AnyView,
    later_kind: UpdateKind,
)
    requires
        client_state_of(store.client_states, id) matches Some(cs) && any_check_for_misbehaviour(
            cs,
            store,
            id,
            message,
            kind,
        ) == Ok::<bool, ClientError>(true),
    ensures
        execute_outcome(store, id, message, kind) matches Ok(after) && (client_state_of(
            after.client_states,
            id,
        ) matches Some(cs) && any_frozen(cs)) && validate_outcome(
            after,
            id,
            later_message,
            later_kind,
        ) is Err,
{
    let after = execute_outcome(store, id, message, kind)->Ok_0;
    let cs = client_state_of(store.client_states, id)->0;
    let frozen = crate::dispatch::any_freeze(cs, store, id);
    assert(frozen.client_states.last().0 == id);
    assert(after.client_states == frozen.client_states);
}

/// Evidence made of two headers of one height for one block proves
/// nothing: a Tendermint client finds no misbehaviour in it, and executing
/// the message that submits it fails.
pub proof fn lemma_identical_headers_are_no_evidence(
    store: HostStoreView,
    id: Seq<char>,
    message: AnyView,
    m: MisbehaviourView,
)
    requires
        client_state_of(store.client_states, id) matches Some(cs) && cs is Tendermint,
        tm_misbehaviour_of_any(message) == Ok::<MisbehaviourView, ClientError>(m),
        m.header1.summary().height == m.header2.summary().height,
        m.header1.summary().block_hash == m.header2.summary().block_hash,
    ensures
        execute_outcome(store, id, message, UpdateKind::SubmitMisbehaviour) == Err::<
            HostStoreView,
            ClientError,
        >(ClientError::MisbehaviourHandlingFailure),
{
}

} // verus!
