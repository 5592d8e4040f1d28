//! Handling the messages that update a client: first validate, which
//! writes nothing, then execute.

use vstd::prelude::*;

use crate::any::{any_frozen_height, AnyClientStateView, AnyView};
use crate::client_state::{
    ClientStateCommon, ClientStateExecution, ClientStateValidation, UpdateKind,
};
use crate::context::{client_state_of, HostStore, HostStoreView};
use crate::dispatch::{
    any_check_for_misbehaviour, any_client_type, any_freeze, any_update_state,
    any_verify_client_message,
};
use crate::error::{ClientError, ContextError};
use crate::events::{ClientMisbehaviour, IbcEvent, IbcEventView, MessageEvent, UpdateClient};
use crate::height::Height;
use crate::identifier::ClientId;
use crate::msgs::MsgUpdateOrMisbehaviour;

verus! {

/// The outcome of validating a message: the client exists, is not frozen,
/// and verifies what is submitted to it.
pub open spec fn validate_outcome(
    store: HostStoreView,
    id: Seq<char>,
    message: AnyView,
    kind: UpdateKind,
) -> Result<(), ClientError> {
    match client_state_of(store.client_states, id) {
        None => Err(ClientError::ClientStateNotFound),
        Some(cs) => match any_frozen_height(cs) {
            Some(frozen_height) => Err(ClientError::ClientFrozen { frozen_height }),
            None => any_verify_client_message(cs, store, id, message, kind),
        },
    }
}

/// The store once misbehaviour was found: the client is frozen, and the
/// two events of a misbehaviour are emitted.
pub open spec fn store_after_misbehaviour(
    store: HostStoreView,
    id: Seq<char>,
    cs: AnyClientStateView,
) -> HostStoreView {
    let frozen = any_freeze(cs, store, id);
    HostStoreView {
        events: frozen.events.push(IbcEventView::Message(MessageEvent::Client)).push(
            IbcEventView::ClientMisbehaviour { client_id: id, client_type: any_client_type(cs) },
        ),
        ..frozen
    }
}

/// The store once the client was updated: for each height at which a
/// consensus state was stored, the time and the height of the host are
/// recorded, and the two events of an update are emitted.
pub open spec fn store_after_update(
    updated: HostStoreView,
    id: Seq<char>,
    cs: AnyClientStateView,
    heights: Seq<Height>,
    message: AnyView,
) -> HostStoreView {
    HostStoreView {
        update_times: updated.update_times + heights.map_values(
            |h: Height| (id, h, updated.host_timestamp),
        ),
        update_heights: updated.update_heights + heights.map_values(
            |h: Height| (id, h, updated.host_height),
        ),
        events: updated.events.push(IbcEventView::Message(MessageEvent::Client)).push(
            IbcEventView::UpdateClient {
                client_id: id,
                client_type: any_client_type(cs),
                consensus_height: heights[0],
                consensus_heights: heights,
                header: message.value,
            },
        ),
        ..updated
    }
}

/// The outcome of executing a message: the store afterwards. Where the
/// client finds misbehaviour in what is submitted, it is frozen. Where it
/// finds none, a header updates it, and evidence is an error.
pub open spec fn execute_outcome(
    store: HostStoreView,
    id: Seq<char>,
    message: AnyView,
    kind: UpdateKind,
) -> Result<HostStoreView, ClientError> {
    match client_state_of(store.client_states, id) {
        None => Err(ClientError::ClientStateNotFound),
        Some(cs) => match any_check_for_misbehaviour(cs, store, id, message, kind) {
            Err(e) => Err(e),
            Ok(true) => Ok(store_after_misbehaviour(store, id, cs)),
            Ok(false) => if kind != UpdateKind::UpdateClient {
                Err(ClientError::MisbehaviourHandlingFailure)
            } else {
                match any_update_state(cs, store, id, message) {
                    Err(e) => Err(e),
                    Ok((updated, heights)) => Ok(
                        store_after_update(updated, id, cs, heights, message),
                    ),
                }
            },
        },
    }
}

/// Records the time and the height of the host for each height at which a
/// consensus state was stored.
fn store_update_meta(ctx: &mut HostStore, client_id: &ClientId, heights: &Vec<Height>)
    ensures
        final(ctx)@ == (HostStoreView {
            update_times: old(ctx)@.update_times + heights@.map_values(
                |h: Height| (client_id@, h, old(ctx)@.host_timestamp),
            ),
            update_heights: old(ctx)@.update_heights + heights@.map_values(
                |h: Height| (client_id@, h, old(ctx)@.host_height),
            ),
            ..old(ctx)@
        }),
{
    let host_timestamp = ctx.host_timestamp();
    let host_height = ctx.host_height();
    let ghost times = heights@.map_values(|h: Height| (client_id@, h, old(ctx)@.host_timestamp));
    let ghost host_heights = heights@.map_values(|h: Height| (client_id@, h, old(ctx)@.host_height));
    let mut i: usize = 0;
    assert(old(ctx)@.update_times + times.subrange(0, 0) =~= old(ctx)@.update_times);
    assert(old(ctx)@.update_heights + host_heights.subrange(0, 0) =~= old(ctx)@.update_heights);
    while i < heights.len()
        invariant
            i <= heights@.len(),
            host_timestamp == old(ctx)@.host_timestamp,
            host_height == old(ctx)@.host_height,
            times == heights@.map_values(|h: Height| (client_id@, h, old(ctx)@.host_timestamp)),
            host_heights == heights@.map_values(|h: Height| (client_id@, h, old(ctx)@.host_height)),
            ctx@ == (HostStoreView {
                update_times: old(ctx)@.update_times + times.subrange(0, i as int),
                update_heights: old(ctx)@.update_heights + host_heights.subrange(0, i as int),
                ..old(ctx)@
            }),
        decreases heights@.len() - i,
    {
        let consensus_height = heights[i];
        ctx.store_update_time(client_id.clone(), consensus_height, host_timestamp);
        ctx.store_update_height(client_id.clone(), consensus_height, host_height);
        assert((old(ctx)@.update_times + times.subrange(0, i as int)).push(
            (client_id@, consensus_height, host_timestamp),
        ) =~= old(ctx)@.update_times + times.subrange(0, i + 1));
        assert((old(ctx)@.update_heights + host_heights.subrange(0, i as int)).push(
            (client_id@, consensus_height, host_height),
        ) =~= old(ctx)@.update_heights + host_heights.subrange(0, i + 1));
        i += 1;
    }
    assert(times.subrange(0, i as int) =~= times);
    assert(host_heights.subrange(0, i as int) =~= host_heights);
}

/// Validates a message that updates a client. Nothing is written. Who may
/// sign a message is the host's own rule, which the host applies before it
/// hands the message over.
pub fn validate(ctx: &HostStore, msg: MsgUpdateOrMisbehaviour) -> (r: Result<(), ContextError>)
    ensures
        match validate_outcome(ctx@, msg.id(), msg.message(), msg.kind()) {
            Ok(_) => r is Ok,
            Err(e) => r is Err && r->Err_0 == ContextError::ClientError(e),
        },
{
    let (client_id, client_message, update_kind) = msg.into_parts();
    // the client should exist already
    let client_state = match ctx.client_state(&client_id) {
        Ok(cs) => cs,
        Err(e) => {
            return Err(ContextError::ClientError(e));
        },
    };
    match client_state.confirm_not_frozen() {
        Err(e) => {
            return Err(ContextError::ClientError(e));
        },
        Ok(_) => {},
    }
    match client_state.verify_client_message(ctx, &client_id, &client_message, &update_kind) {
        Err(e) => Err(ContextError::ClientError(e)),
        Ok(_) => Ok(()),
    }
}

/// Executes a message that updates a client. The host calls it once the
/// message has been validated. Where it fails, nothing is written.
pub fn execute(ctx: &mut HostStore, msg: MsgUpdateOrMisbehaviour) -> (r: Result<(), ContextError>)
    ensures
        match execute_outcome(old(ctx)@, msg.id(), msg.message(), msg.kind()) {
            Ok(store) => r is Ok && final(ctx)@ == store,
            Err(e) => r is Err && r->Err_0 == ContextError::ClientError(e) && final(ctx)@ == old(
                ctx,
            )@,
        },
{
    let (client_id, client_message, update_kind) = msg.into_parts();
    let client_state = match ctx.client_state(&client_id) {
        Ok(cs) => cs,
        Err(e) => {
            return Err(ContextError::ClientError(e));
        },
    };
    let found_misbehaviour = match client_state.check_for_misbehaviour(
        ctx,
        &client_id,
        &client_message,
        &update_kind,
    ) {
        Ok(found) => found,
        Err(e) => {
            return Err(ContextError::ClientError(e));
        },
    };
    if found_misbehaviour {
        match client_state.update_state_on_misbehaviour(
            ctx,
            &client_id,
            &client_message,
            &update_kind,
        ) {
            Err(e) => {
                return Err(ContextError::ClientError(e));
            },
            Ok(_) => {},
        }
        let event = IbcEvent::ClientMisbehaviour(
            ClientMisbehaviour { client_id, client_type: client_state.client_type() },
        );
        ctx.emit_ibc_event(IbcEvent::Message(MessageEvent::Client));
        ctx.emit_ibc_event(event);
    } else {
        match update_kind {
            UpdateKind::UpdateClient => {},
            UpdateKind::SubmitMisbehaviour => {
                return Err(ContextError::ClientError(ClientError::MisbehaviourHandlingFailure));
            },
        }
        let header = client_message;
        let consensus_heights = match client_state.update_state(ctx, &client_id, &header) {
            Ok(heights) => heights,
            Err(e) => {
                return Err(ContextError::ClientError(e));
            },
        };
        // record the height and the time of the host for all updated headers
        store_update_meta(ctx, &client_id, &consensus_heights);
        let consensus_height = consensus_heights[0];
        let event = IbcEvent::UpdateClient(
            UpdateClient {
                client_id,
                client_type: client_state.client_type(),
                consensus_height,
                consensus_heights,
                header: header.value,
            },
        );
        ctx.emit_ibc_event(IbcEvent::Message(MessageEvent::Client));
        ctx.emit_ibc_event(event);
    }
    Ok(())
}

} // verus!
