use std::time::{SystemTime, UNIX_EPOCH};

use ibc::any::{Any, AnyClientState, AnyConsensusState};
use ibc::client_state::{ClientStateCommon, ClientStateValidation, UpdateKind};
use ibc::context::HostStore;
use ibc::error::{ClientError, ContextError};
use ibc::events::{IbcEvent, MessageEvent};
use ibc::height::Height;
use ibc::ics07_tendermint::client_state::{AllowUpdate, ClientState as TmClientState};
use ibc::ics07_tendermint::client_traits::{client_type as tm_client_type, consensus_state_of_header};
use ibc::ics07_tendermint::error::Error as TmError;
use ibc::ics07_tendermint::misbehaviour::{check_headers_conflict, into_result, powers_fit};
use ibc::ics07_tendermint::error::VotingPowerTally;
use ibc::ics07_tendermint::types::{
    powers_are_convertible, Header as TmHeader, HeaderSummary, LightClientVerdict,
    Misbehaviour as TmMisbehaviour, TrustThreshold,
};
use ibc::identifier::{ChainId, ClientId, ClientType, Signer};
use ibc::mock::client_state::{client_type as mock_client_type, MockClientState};
use ibc::mock::types::{Misbehaviour as MockMisbehaviour, MockConsensusState, MockHeader};
use ibc::identifier::IdentifierError;
use ibc::msgs::{
    MsgSubmitMisbehaviour, MsgUpdateClient, MsgUpdateOrMisbehaviour, RawMsgUpdateClient,
};
use ibc::proof_types::ProofSpecs;
use ibc::timestamp::{Duration, Timestamp};
use ibc::update_client::{execute, validate};
use tendermint_testgen::light_block::{LightBlock as TestgenLightBlock, TmLightBlock};
use tendermint_testgen::Generator;

const SECOND: u64 = 1_000_000_000;

fn now_nanos() -> u64 {
    SystemTime::now().duration_since(UNIX_EPOCH).unwrap().as_nanos() as u64
}

fn dummy_signer() -> Signer {
    Signer::new("0CDA3F47EF3C4906693B170EF650EB968C5F4B2C".to_string())
}

fn default_client_id() -> ClientId {
    ClientId::new("07-tendermint-0".to_string())
}

fn tm_client_id() -> ClientId {
    ClientId::new(format!("{}-{}", tm_client_type().as_str(), 0))
}

/// A host at height `(0, 5)` whose clock shows `now`, with a mock client at
/// `height`.
fn host_with_mock_client(client_id: &ClientId, height: Height, now: u64) -> HostStore {
    let mut ctx = HostStore::new(Height::new(0, 5).unwrap(), Timestamp::from_nanoseconds(now));
    let header = MockHeader::new(height);
    ctx.store_client_state(client_id.clone(), AnyClientState::Mock(MockClientState::new(header)));
    ctx.store_consensus_state(
        client_id.clone(),
        height,
        AnyConsensusState::Mock(MockConsensusState::new(header)),
    );
    ctx
}

/// A signed block of a synthetic Tendermint chain.
fn tm_block(chain_id: &str, height: u64, time_nanos: u64) -> TmLightBlock {
    let time = tendermint::Time::from_unix_timestamp(
        (time_nanos / SECOND) as i64,
        (time_nanos % SECOND) as u32,
    )
    .unwrap();
    TestgenLightBlock::new_default_with_time_and_chain_id(chain_id.to_string(), time, height)
        .generate()
        .unwrap()
}

/// The header of a block, to be trusted from `trusted_height` on.
fn tm_header(block: &TmLightBlock, trusted_height: Height) -> TmHeader {
    TmHeader {
        signed_header: block.signed_header.clone(),
        validator_set: block.validators.clone(),
        trusted_height,
        trusted_next_validator_set: block.next_validators.clone(),
    }
}

fn tm_client_state(chain_id: &str, revision: u64, latest_height: Height) -> TmClientState {
    TmClientState {
        chain_id: ChainId::new(chain_id.to_string(), revision),
        trust_level: TrustThreshold { numerator: 1, denominator: 3 },
        trusting_period: Duration::from_secs(64000),
        unbonding_period: Duration::from_secs(128000),
        max_clock_drift: Duration::from_secs(3),
        latest_height,
        proof_specs: ProofSpecs::default(),
        allow_update: AllowUpdate { after_expiry: false, after_misbehaviour: false },
        frozen_height: None,
    }
}

/// A host whose clock shows `host_time`, with a Tendermint client of the
/// chain `chain_id` at `client_height` that holds a consensus state for each
/// of `blocks`.
fn host_with_tm_client(
    chain_id: &str,
    client_id: &ClientId,
    client_height: Height,
    blocks: &[&TmLightBlock],
    host_time: u64,
) -> HostStore {
    let mut ctx = HostStore::new(Height::new(1, 1).unwrap(), Timestamp::from_nanoseconds(host_time));
    ctx.store_client_state(
        client_id.clone(),
        AnyClientState::Tendermint(tm_client_state(chain_id, 1, client_height)),
    );
    for block in blocks {
        let header = tm_header(block, Height::new(1, 1).unwrap());
        let summary = header.summarize();
        let height = Height::new(1, summary.height).unwrap();
        let consensus_state = consensus_state_of_header(summary).unwrap();
        ctx.store_consensus_state(
            client_id.clone(),
            height,
            AnyConsensusState::Tendermint(consensus_state),
        );
    }
    ctx
}

fn proto_height(height: Height) -> ibc_proto::ibc::core::client::v1::Height {
    ibc_proto::ibc::core::client::v1::Height {
        revision_number: height.revision_number(),
        revision_height: height.revision_height(),
    }
}

fn proto_mock_header(header: MockHeader) -> ibc_proto::ibc::mock::Header {
    ibc_proto::ibc::mock::Header {
        height: Some(proto_height(header.height())),
        timestamp: header.timestamp().nanoseconds(),
    }
}

/// A header of the mock chain, packed as a relayer sends it.
fn mock_header_any(header: MockHeader) -> Any {
    Any {
        type_url: "/ibc.mock.Header".to_string(),
        value: prost::Message::encode_to_vec(&proto_mock_header(header)),
    }
}

/// Evidence against the mock chain, packed as a relayer sends it.
fn mock_misbehaviour_any(evidence: MockMisbehaviour) -> Any {
    let raw = ibc_proto::ibc::mock::Misbehaviour {
        client_id: evidence.client_id.as_str().to_string(),
        header1: Some(proto_mock_header(evidence.header1)),
        header2: Some(proto_mock_header(evidence.header2)),
    };
    Any { type_url: "/ibc.mock.Misbehavior".to_string(), value: prost::Message::encode_to_vec(&raw) }
}

fn proto_tm_header(header: TmHeader) -> ibc_proto::ibc::lightclients::tendermint::v1::Header {
    ibc_proto::ibc::lightclients::tendermint::v1::Header {
        signed_header: Some(header.signed_header.into()),
        validator_set: Some(header.validator_set.into()),
        trusted_height: Some(proto_height(header.trusted_height)),
        trusted_validators: Some(header.trusted_next_validator_set.into()),
    }
}

/// A header of a Tendermint chain, packed as a relayer sends it.
fn tm_header_any(header: TmHeader) -> Any {
    Any {
        type_url: "/ibc.lightclients.tendermint.v1.Header".to_string(),
        value: prost::Message::encode_to_vec(&proto_tm_header(header)),
    }
}

/// Evidence against a Tendermint chain, packed as a relayer sends it.
fn tm_misbehaviour_any(evidence: TmMisbehaviour) -> Any {
    #[allow(deprecated)]
    let raw = ibc_proto::ibc::lightclients::tendermint::v1::Misbehaviour {
        client_id: evidence.client_id.as_str().to_string(),
        header_1: Some(proto_tm_header(evidence.header1)),
        header_2: Some(proto_tm_header(evidence.header2)),
    };
    Any {
        type_url: "/ibc.lightclients.tendermint.v1.Misbehaviour".to_string(),
        value: prost::Message::encode_to_vec(&raw),
    }
}

fn update_msg(client_id: &ClientId, header: Any) -> MsgUpdateOrMisbehaviour {
    MsgUpdateOrMisbehaviour::UpdateClient(MsgUpdateClient {
        client_id: client_id.clone(),
        header,
        signer: dummy_signer(),
    })
}

fn misbehaviour_msg(client_id: &ClientId, misbehaviour: Any) -> MsgUpdateOrMisbehaviour {
    MsgUpdateOrMisbehaviour::Misbehaviour(MsgSubmitMisbehaviour {
        client_id: client_id.clone(),
        misbehaviour,
        signer: dummy_signer(),
    })
}

fn ensure_misbehaviour(ctx: &HostStore, client_id: &ClientId, client_type: &ClientType) {
    let client_state = ctx.client_state(client_id).unwrap();

    assert!(client_state.confirm_not_frozen().is_err());

    // check events
    assert_eq!(ctx.events.len(), 2);
    assert!(matches!(ctx.events[0], IbcEvent::Message(MessageEvent::Client)));
    let misbehaviour_client_event = match &ctx.events[1] {
        IbcEvent::ClientMisbehaviour(e) => e,
        other => panic!("unexpected event {other:?}"),
    };
    assert_eq!(misbehaviour_client_event.client_id(), client_id);
    assert_eq!(misbehaviour_client_event.client_type(), client_type);
}

#[test]
fn test_update_client_ok() {
    let client_id = default_client_id();
    let timestamp = Timestamp::from_nanoseconds(now_nanos());

    let mut ctx = host_with_mock_client(&client_id, Height::new(0, 42).unwrap(), now_nanos());
    let height = Height::new(0, 46).unwrap();
    let msg = update_msg(
        &client_id,
        mock_header_any(MockHeader::new(height).with_timestamp(timestamp)),
    );

    let res = validate(&ctx, msg.clone());

    assert!(res.is_ok(), "validation happy path");

    let res = execute(&mut ctx, msg.clone());
    assert!(res.is_ok(), "execution happy path");

    assert_eq!(
        ctx.client_state(&client_id).unwrap(),
        AnyClientState::Mock(MockClientState::new(MockHeader::new(height).with_timestamp(timestamp)))
    );
}

#[test]
fn test_update_nonexisting_client() {
    let client_id = ClientId::new("mockclient1".to_string());

    let ctx = host_with_mock_client(&client_id, Height::new(0, 42).unwrap(), now_nanos());

    let msg = update_msg(
        &ClientId::new("nonexistingclient".to_string()),
        mock_header_any(MockHeader::new(Height::new(0, 46).unwrap())),
    );

    let res = validate(&ctx, msg);

    assert!(res.is_err());
    assert!(matches!(res, Err(ContextError::ClientError(ClientError::ClientStateNotFound))));
}

#[test]
fn test_update_synthetic_tendermint_client_adjacent_ok() {
    let client_id = tm_client_id();
    let client_height = Height::new(1, 20).unwrap();
    let update_height = Height::new(1, 21).unwrap();
    let now = now_nanos();

    let trusted_block = tm_block("mockgaiaB-1", 20, now);
    let mut ctx = host_with_tm_client(
        "mockgaiaB-1",
        &client_id,
        client_height,
        &[&trusted_block],
        now + 3 * SECOND,
    );

    let block = tm_block("mockgaiaB-1", update_height.revision_height(), now + SECOND);
    let header = tm_header(&block, client_height);
    let latest_header_height = Height::new(1, header.summarize().height).unwrap();
    let msg = update_msg(&client_id, tm_header_any(header));

    let res = validate(&ctx, msg.clone());
    assert!(res.is_ok(), "result: {res:?}");

    let res = execute(&mut ctx, msg.clone());
    assert!(res.is_ok(), "result: {res:?}");

    let client_state = ctx.client_state(&client_id).unwrap();
    assert!(client_state.confirm_not_frozen().is_ok());
    assert_eq!(client_state.latest_height(), latest_header_height);
}

#[test]
fn test_update_synthetic_tendermint_client_non_adjacent_ok() {
    let client_id = tm_client_id();
    let client_height = Height::new(1, 20).unwrap();
    let update_height = Height::new(1, 21).unwrap();
    let now = now_nanos();

    let earlier_block = tm_block("mockgaiaB-1", 19, now - 3 * SECOND);
    let trusted_block = tm_block("mockgaiaB-1", 20, now);
    let mut ctx = host_with_tm_client(
        "mockgaiaB-1",
        &client_id,
        client_height,
        &[&earlier_block, &trusted_block],
        now + 3 * SECOND,
    );

    let block = tm_block("mockgaiaB-1", update_height.revision_height(), now + SECOND);
    let trusted_height = client_height.sub(1).unwrap();
    let header = tm_header(&block, trusted_height);
    let latest_header_height = Height::new(1, header.summarize().height).unwrap();
    let msg = update_msg(&client_id, tm_header_any(header));

    let res = validate(&ctx, msg.clone());
    assert!(res.is_ok(), "result: {res:?}");

    let res = execute(&mut ctx, msg.clone());
    assert!(res.is_ok(), "result: {res:?}");

    let client_state = ctx.client_state(&client_id).unwrap();
    assert!(client_state.confirm_not_frozen().is_ok());
    assert_eq!(client_state.latest_height(), latest_header_height);
}

#[test]
fn test_update_synthetic_tendermint_client_duplicate_ok() {
    let client_id = tm_client_id();
    let client_height = Height::new(1, 20).unwrap();
    let start_height = Height::new(1, 11).unwrap();
    let now = now_nanos();

    let start_block = tm_block("mockgaiaB-1", 11, now - 27 * SECOND);
    let block = tm_block("mockgaiaB-1", 20, now);
    // the client has been brought up to the block already
    let mut ctx_a = host_with_tm_client(
        "mockgaiaB-1",
        &client_id,
        client_height,
        &[&start_block, &block],
        now + 3 * SECOND,
    );
    let client_state_before = ctx_a.client_state(&client_id).unwrap();

    // the header of the block is trusted from the start height
    let header = tm_header(&block, start_height);
    let latest_header_height = Height::new(1, header.summarize().height).unwrap();
    let msg = update_msg(&client_id, tm_header_any(header));

    let res = validate(&ctx_a, msg.clone());
    assert!(res.is_ok(), "result: {res:?}");

    let res = execute(&mut ctx_a, msg.clone());
    assert!(res.is_ok(), "result: {res:?}");

    let client_state = ctx_a.client_state(&client_id).unwrap();
    assert!(client_state.confirm_not_frozen().is_ok());
    assert_eq!(client_state.latest_height(), latest_header_height);
    assert_eq!(client_state, client_state_before);
}

#[test]
fn test_update_synthetic_tendermint_client_lower_height() {
    let client_id = tm_client_id();
    let client_height = Height::new(1, 20).unwrap();
    let client_update_height = Height::new(1, 19).unwrap();
    let now = now_nanos();

    let trusted_block = tm_block("mockgaiaB-1", 20, now);
    let ctx = host_with_tm_client(
        "mockgaiaB-1",
        &client_id,
        client_height,
        &[&trusted_block],
        now + 3 * SECOND,
    );

    let block = tm_block("mockgaiaB-1", client_update_height.revision_height(), now - 3 * SECOND);
    let header = tm_header(&block, Height::new(1, 1).unwrap());
    let msg = update_msg(&client_id, tm_header_any(header));

    let res = validate(&ctx, msg);
    assert!(res.is_err());
}

#[test]
fn test_update_client_events() {
    let client_id = default_client_id();
    let timestamp = Timestamp::from_nanoseconds(now_nanos());

    let mut ctx = host_with_mock_client(&client_id, Height::new(0, 42).unwrap(), now_nanos());
    let height = Height::new(0, 46).unwrap();
    let header = mock_header_any(MockHeader::new(height).with_timestamp(timestamp));
    let msg = update_msg(&client_id, header.clone());

    let res = execute(&mut ctx, msg);
    assert!(res.is_ok());

    assert!(matches!(ctx.events[0], IbcEvent::Message(MessageEvent::Client)));
    let update_client_event = match &ctx.events[1] {
        IbcEvent::UpdateClient(e) => e,
        other => panic!("unexpected event {other:?}"),
    };

    assert_eq!(update_client_event.client_id(), &client_id);
    assert_eq!(update_client_event.client_type(), &mock_client_type());
    assert_eq!(update_client_event.consensus_height(), &height);
    assert_eq!(update_client_event.consensus_heights(), &vec![height]);
    assert_eq!(update_client_event.header(), &header.value);
}

/// Misbehaviour handling for the mock client: evidence made of identical
/// headers above the client counts as misbehaviour there.
#[test]
fn test_misbehaviour_client_ok() {
    let client_id = default_client_id();
    let timestamp = Timestamp::from_nanoseconds(now_nanos());
    let height = Height::new(0, 46).unwrap();
    let msg = misbehaviour_msg(
        &client_id,
        mock_misbehaviour_any(MockMisbehaviour {
            client_id: client_id.clone(),
            header1: MockHeader::new(height).with_timestamp(timestamp),
            header2: MockHeader::new(height).with_timestamp(timestamp),
        }),
    );

    let mut ctx = host_with_mock_client(&client_id, Height::new(0, 42).unwrap(), now_nanos());

    let res = validate(&ctx, msg.clone());
    assert!(res.is_ok());
    let res = execute(&mut ctx, msg);
    assert!(res.is_ok());

    ensure_misbehaviour(&ctx, &client_id, &mock_client_type());
}

/// Misbehaviour handling fails for a client that does not exist.
#[test]
fn test_misbehaviour_nonexisting_client() {
    let client_id = ClientId::new("mockclient1".to_string());
    let height = Height::new(0, 46).unwrap();
    let msg = misbehaviour_msg(
        &ClientId::new("nonexistingclient".to_string()),
        mock_misbehaviour_any(MockMisbehaviour {
            client_id: client_id.clone(),
            header1: MockHeader::new(height),
            header2: MockHeader::new(height),
        }),
    );

    let ctx = host_with_mock_client(&client_id, Height::new(0, 42).unwrap(), now_nanos());
    let res = validate(&ctx, msg);
    assert!(res.is_err());
}

/// Misbehaviour handling for the Tendermint client: two headers of one
/// height for different blocks.
#[test]
fn test_misbehaviour_synthetic_tendermint_equivocation() {
    let client_id = tm_client_id();
    let client_height = Height::new(1, 20).unwrap();
    let misbehaviour_height = Height::new(1, 21).unwrap();
    let now = now_nanos();

    // chain A holds a light client of chain B
    let trusted_block = tm_block("mockgaiaB-1", 20, now);
    let mut ctx_a = host_with_tm_client(
        "mockgaiaB-1",
        &client_id,
        client_height,
        &[&trusted_block],
        now + 3 * SECOND,
    );

    // the header of chain B at the misbehaviour height
    let header1 = tm_header(
        &tm_block("mockgaiaB-1", misbehaviour_height.revision_height(), now + SECOND),
        client_height,
    );

    // an equivocal header of chain B at the same height
    let header2 = tm_header(
        &tm_block("mockgaiaB-1", misbehaviour_height.revision_height(), now + 2 * SECOND),
        client_height,
    );

    let msg = misbehaviour_msg(
        &client_id,
        tm_misbehaviour_any(TmMisbehaviour::new(
            client_id.clone(),
            header1,
            header2,
        )),
    );

    let res = validate(&ctx_a, msg.clone());
    assert!(res.is_ok(), "result: {res:?}");
    let res = execute(&mut ctx_a, msg);
    assert!(res.is_ok(), "result: {res:?}");
    ensure_misbehaviour(&ctx_a, &client_id, &tm_client_type());
}

#[test]
fn test_misbehaviour_synthetic_tendermint_bft_time() {
    let client_id = tm_client_id();
    let client_height = Height::new(1, 20).unwrap();
    let misbehaviour_height = Height::new(1, 21).unwrap();
    let now = now_nanos();

    let trusted_block = tm_block("mockgaiaB-1", 20, now);
    let mut ctx_a = host_with_tm_client(
        "mockgaiaB-1",
        &client_id,
        client_height,
        &[&trusted_block],
        now + 3 * SECOND,
    );

    let header1 = tm_header(
        &tm_block("mockgaiaB-1", misbehaviour_height.revision_height(), now + SECOND / 2),
        client_height,
    );

    // the same block with a conflicting timestamp
    let header2 = {
        let timestamp = Timestamp::from_nanoseconds(now + SECOND / 2 + 1_000_000_000);
        tm_header(
            &tm_block("mockgaiaB-1", misbehaviour_height.revision_height(), timestamp.nanoseconds()),
            client_height,
        )
    };

    let msg = misbehaviour_msg(
        &client_id,
        tm_misbehaviour_any(TmMisbehaviour::new(
            client_id.clone(),
            header1,
            header2,
        )),
    );

    let res = validate(&ctx_a, msg.clone());
    assert!(res.is_ok(), "result: {res:?}");
    let res = execute(&mut ctx_a, msg);
    assert!(res.is_ok(), "result: {res:?}");
    ensure_misbehaviour(&ctx_a, &client_id, &tm_client_type());
}

#[test]
fn update_moves_client_up_and_emits_two_events() {
    let client_id = default_client_id();
    let mut ctx = host_with_mock_client(&client_id, Height::new(0, 42).unwrap(), now_nanos());
    let height = Height::new(0, 46).unwrap();
    let header = MockHeader::new(height).with_timestamp(Timestamp::from_nanoseconds(now_nanos()));
    let msg = update_msg(&client_id, mock_header_any(header));

    assert!(validate(&ctx, msg.clone()).is_ok());
    assert!(execute(&mut ctx, msg).is_ok());

    assert_eq!(ctx.client_state(&client_id).unwrap().latest_height(), height);
    assert_eq!(ctx.events.len(), 2);
    assert!(matches!(ctx.events[0], IbcEvent::Message(MessageEvent::Client)));
    assert!(matches!(ctx.events[1], IbcEvent::UpdateClient(_)));
    // the host recorded when the consensus state was stored
    assert_eq!(ctx.client_update_time(&client_id, height), Some(ctx.host_timestamp()));
    assert_eq!(ctx.client_update_height(&client_id, height), Some(ctx.host_height()));
    assert!(ctx.consensus_state(&client_id, height).is_ok());
}

#[test]
fn update_below_client_height_is_rejected() {
    let client_id = default_client_id();
    let ctx = host_with_mock_client(&client_id, Height::new(0, 42).unwrap(), now_nanos());
    for low in [Height::new(0, 42).unwrap(), Height::new(0, 41).unwrap()] {
        let msg = update_msg(&client_id, mock_header_any(MockHeader::new(low)));
        match validate(&ctx, msg) {
            Err(ContextError::ClientError(ClientError::LowHeaderHeight {
                header_height,
                latest_height,
            })) => {
                assert_eq!(header_height, low);
                assert_eq!(latest_height, Height::new(0, 42).unwrap());
            }
            other => panic!("unexpected result {other:?}"),
        }
    }
}

#[test]
fn message_of_another_kind_of_client_is_rejected() {
    let client_id = default_client_id();
    let ctx = host_with_mock_client(&client_id, Height::new(0, 42).unwrap(), now_nanos());
    let block = tm_block("mockgaiaB-1", 21, now_nanos());
    let header = tm_header(&block, Height::new(1, 20).unwrap());
    let res = validate(&ctx, update_msg(&client_id, tm_header_any(header.clone())));
    assert!(matches!(res, Err(ContextError::ClientError(ClientError::UnknownHeaderType))));
    let evidence = tm_misbehaviour_any(TmMisbehaviour::new(
        client_id.clone(),
        header.clone(),
        header,
    ));
    let res = validate(&ctx, misbehaviour_msg(&client_id, evidence));
    assert!(matches!(res, Err(ContextError::ClientError(ClientError::UnknownMisbehaviourType))));
}

#[test]
fn mock_evidence_below_client_is_no_misbehaviour() {
    let client_id = default_client_id();
    let mut ctx = host_with_mock_client(&client_id, Height::new(0, 42).unwrap(), now_nanos());
    let height = Height::new(0, 40).unwrap();
    let msg = misbehaviour_msg(
        &client_id,
        mock_misbehaviour_any(MockMisbehaviour {
            client_id: client_id.clone(),
            header1: MockHeader::new(height),
            header2: MockHeader::new(height),
        }),
    );
    assert!(validate(&ctx, msg.clone()).is_ok());
    let res = execute(&mut ctx, msg);
    assert!(matches!(
        res,
        Err(ContextError::ClientError(ClientError::MisbehaviourHandlingFailure))
    ));
    assert!(ctx.events.is_empty());
    assert!(ctx.client_state(&client_id).unwrap().confirm_not_frozen().is_ok());
}

#[test]
fn identical_tendermint_headers_are_no_misbehaviour() {
    let client_id = tm_client_id();
    let client_height = Height::new(1, 20).unwrap();
    let now = now_nanos();
    let trusted_block = tm_block("mockgaiaB-1", 20, now);
    let mut ctx = host_with_tm_client(
        "mockgaiaB-1",
        &client_id,
        client_height,
        &[&trusted_block],
        now + 3 * SECOND,
    );
    let header = tm_header(&tm_block("mockgaiaB-1", 21, now + SECOND), client_height);
    let evidence = TmMisbehaviour::new(client_id.clone(), header.clone(), header);

    let client_state = ctx.client_state(&client_id).unwrap();
    let found = client_state.check_for_misbehaviour(
        &ctx,
        &client_id,
        &tm_misbehaviour_any(evidence.clone()),
        &UpdateKind::SubmitMisbehaviour,
    );
    assert!(matches!(found, Ok(false)));

    let msg = misbehaviour_msg(&client_id, tm_misbehaviour_any(evidence));
    assert!(validate(&ctx, msg.clone()).is_ok());
    let res = execute(&mut ctx, msg);
    assert!(matches!(
        res,
        Err(ContextError::ClientError(ClientError::MisbehaviourHandlingFailure))
    ));
    assert!(ctx.events.is_empty());
    assert!(ctx.client_state(&client_id).unwrap().confirm_not_frozen().is_ok());
}

#[test]
fn frozen_client_rejects_every_message() {
    let client_id = default_client_id();
    let mut ctx = host_with_mock_client(&client_id, Height::new(0, 42).unwrap(), now_nanos());
    let height = Height::new(0, 46).unwrap();
    let evidence = misbehaviour_msg(
        &client_id,
        mock_misbehaviour_any(MockMisbehaviour {
            client_id: client_id.clone(),
            header1: MockHeader::new(height),
            header2: MockHeader::new(height),
        }),
    );
    assert!(validate(&ctx, evidence.clone()).is_ok());
    assert!(execute(&mut ctx, evidence.clone()).is_ok());

    let frozen = ctx.client_state(&client_id).unwrap();
    assert!(matches!(
        frozen.confirm_not_frozen(),
        Err(ClientError::ClientFrozen { frozen_height }) if frozen_height == Height::min(0)
    ));
    assert!(frozen.confirm_not_frozen().is_err());

    let update = update_msg(&client_id, mock_header_any(MockHeader::new(Height::new(0, 50).unwrap())));
    assert!(matches!(
        validate(&ctx, update),
        Err(ContextError::ClientError(ClientError::ClientFrozen { .. }))
    ));
    assert!(matches!(
        validate(&ctx, evidence),
        Err(ContextError::ClientError(ClientError::ClientFrozen { .. }))
    ));
}

#[test]
fn header_fails_at_the_end_of_the_trusting_period_and_passes_just_before() {
    let client_id = tm_client_id();
    let client_height = Height::new(1, 20).unwrap();
    let trusted_time = now_nanos();
    let trusting_period = 64000 * SECOND;
    let trusted_block = tm_block("mockgaiaB-1", 20, trusted_time);
    let header = tm_header(&tm_block("mockgaiaB-1", 21, trusted_time + SECOND), client_height);
    let client_state = tm_client_state("mockgaiaB-1", 1, client_height);
    let trusted = consensus_state_of_header(tm_header(&trusted_block, client_height).summarize()).unwrap();

    let at_the_end = Timestamp::from_nanoseconds(trusted_time + trusting_period);
    match client_state.verify_misbehaviour_header(&header, &trusted, at_the_end) {
        Err(ClientError::ClientSpecific(TmError::ConsensusStateTimestampGteTrustingPeriod {
            duration_since_consensus_state,
            trusting_period,
        })) => {
            assert_eq!(duration_since_consensus_state, Duration::from_secs(64000));
            assert_eq!(trusting_period, Duration::from_secs(64000));
        }
        other => panic!("unexpected result {other:?}"),
    }

    let just_before = Timestamp::from_nanoseconds(trusted_time + trusting_period - 1);
    let res = client_state.verify_misbehaviour_header(&header, &trusted, just_before);
    assert!(res.is_ok(), "result: {res:?}");

    let before_trusted = Timestamp::from_nanoseconds(trusted_time - 1);
    assert!(matches!(
        client_state.verify_misbehaviour_header(&header, &trusted, before_trusted),
        Err(ClientError::InvalidConsensusStateTimestamp { .. })
    ));
}

#[test]
fn header_with_other_trusted_validators_is_rejected() {
    let client_height = Height::new(1, 20).unwrap();
    let now = now_nanos();
    let trusted_block = tm_block("mockgaiaB-1", 20, now);
    let header = tm_header(&tm_block("mockgaiaB-1", 21, now + SECOND), client_height);
    let client_state = tm_client_state("mockgaiaB-1", 1, client_height);
    let mut trusted =
        consensus_state_of_header(tm_header(&trusted_block, client_height).summarize()).unwrap();
    trusted.next_validators_hash[0] ^= 1;
    let res = client_state.verify_misbehaviour_header(
        &header,
        &trusted,
        Timestamp::from_nanoseconds(now + 3 * SECOND),
    );
    assert!(matches!(res, Err(ClientError::HeaderVerificationFailure)));
}

#[test]
fn header_of_another_chain_is_invalid() {
    let client_height = Height::new(1, 20).unwrap();
    let now = now_nanos();
    let trusted_block = tm_block("mockgaiaB-1", 20, now);
    let header = tm_header(&tm_block("forged-1", 21, now + SECOND), client_height);
    let client_state = tm_client_state("mockgaiaB-1", 1, client_height);
    let trusted =
        consensus_state_of_header(tm_header(&trusted_block, client_height).summarize()).unwrap();
    let res = client_state.verify_misbehaviour_header(
        &header,
        &trusted,
        Timestamp::from_nanoseconds(now + 3 * SECOND),
    );
    assert!(matches!(
        res,
        Err(ClientError::ClientSpecific(TmError::VerificationError { .. }))
    ));
}

#[test]
fn client_state_unfit_for_the_verifier_is_rejected() {
    let client_height = Height::new(1, 20).unwrap();
    let now = now_nanos();
    let trusted_block = tm_block("mockgaiaB-1", 20, now);
    let header = tm_header(&tm_block("mockgaiaB-1", 21, now + SECOND), client_height);
    let trusted =
        consensus_state_of_header(tm_header(&trusted_block, client_height).summarize()).unwrap();
    let host_time = Timestamp::from_nanoseconds(now + 3 * SECOND);

    let mut bad_chain = tm_client_state("mockgaiaB-1", 1, client_height);
    bad_chain.chain_id = ChainId::new("not a chain id".to_string(), 1);
    assert!(matches!(
        bad_chain.verify_misbehaviour_header(&header, &trusted, host_time),
        Err(ClientError::ClientSpecific(TmError::InvalidChainId))
    ));

    let mut bad_threshold = tm_client_state("mockgaiaB-1", 1, client_height);
    bad_threshold.trust_level = TrustThreshold { numerator: 1, denominator: 4 };
    assert!(matches!(
        bad_threshold.verify_misbehaviour_header(&header, &trusted, host_time),
        Err(ClientError::ClientSpecific(TmError::InvalidTrustThreshold {
            numerator: 1,
            denominator: 4
        }))
    ));

    let good = tm_client_state("mockgaiaB-1", 1, client_height);
    for too_far in [u64::MAX, i64::MAX as u64] {
        let mut far = header.clone();
        far.trusted_height = Height::new(1, too_far).unwrap();
        assert!(matches!(
            good.verify_misbehaviour_header(&far, &trusted, host_time),
            Err(ClientError::ClientSpecific(TmError::InvalidHeaderHeight { height })) if height == too_far
        ));
    }
    // the greatest block height that another one follows is taken to the verifier
    let mut far = header.clone();
    far.trusted_height = Height::new(1, i64::MAX as u64 - 1).unwrap();
    assert!(matches!(
        good.verify_misbehaviour_header(&far, &trusted, host_time),
        Err(ClientError::ClientSpecific(TmError::VerificationError { .. }))
    ));
}

fn summary(height: u64, time_nanos: i128, block_hash: Vec<u8>) -> HeaderSummary {
    HeaderSummary {
        chain_id: "mockgaiaB-1".to_string(),
        height,
        time_nanos,
        block_hash,
        app_hash: vec![],
        validators_hash: vec![],
        next_validators_hash: vec![],
    }
}

#[test]
fn headers_of_one_height_conflict_where_their_blocks_differ() {
    let a = summary(21, 100, vec![1; 32]);
    let same = summary(21, 100, vec![1; 32]);
    let other = summary(21, 100, vec![2; 32]);
    assert!(!check_headers_conflict(&a, &same));
    assert!(!check_headers_conflict(&same, &a));
    assert!(check_headers_conflict(&a, &other));
    assert!(check_headers_conflict(&other, &a));
}

#[test]
fn headers_of_different_heights_conflict_where_time_does_not_advance() {
    let higher_later = summary(22, 200, vec![1; 32]);
    let lower = summary(21, 100, vec![2; 32]);
    // the higher header is the later one: no misbehaviour
    assert!(!check_headers_conflict(&higher_later, &lower));
    // in the other order the first header is not after the second
    assert!(check_headers_conflict(&lower, &higher_later));

    let higher_earlier = summary(22, 50, vec![1; 32]);
    assert!(check_headers_conflict(&higher_earlier, &lower));
    assert!(!check_headers_conflict(&lower, &higher_earlier));

    // equal times at different heights count as misbehaviour, in both orders
    let higher_equal = summary(22, 100, vec![1; 32]);
    assert!(check_headers_conflict(&higher_equal, &lower));
    assert!(check_headers_conflict(&lower, &higher_equal));
}

#[test]
fn evidence_of_two_chains_or_out_of_order_is_rejected() {
    let client_height = Height::new(1, 20).unwrap();
    let now = now_nanos();
    let client_id = tm_client_id();
    let a = tm_header(&tm_block("mockgaiaB-1", 21, now + SECOND), client_height);
    let b = tm_header(&tm_block("mockgaiaC-1", 21, now + SECOND), client_height);
    let higher = tm_header(&tm_block("mockgaiaB-1", 22, now + 2 * SECOND), client_height);
    assert!(matches!(
        TmMisbehaviour::new(client_id.clone(), a.clone(), b).validate_basic(),
        Err(TmError::MismatchHeaderChainId)
    ));
    assert!(matches!(
        TmMisbehaviour::new(client_id.clone(), a.clone(), higher.clone()).validate_basic(),
        Err(TmError::MisbehaviourHeadersOutOfOrder)
    ));
    assert!(TmMisbehaviour::new(client_id, higher, a).validate_basic().is_ok());
}

#[test]
fn evidence_without_trusted_consensus_state_is_rejected() {
    let client_id = tm_client_id();
    let client_height = Height::new(1, 20).unwrap();
    let now = now_nanos();
    let trusted_block = tm_block("mockgaiaB-1", 20, now);
    let ctx = host_with_tm_client(
        "mockgaiaB-1",
        &client_id,
        client_height,
        &[&trusted_block],
        now + 3 * SECOND,
    );
    let unknown = Height::new(1, 7).unwrap();
    let header1 = tm_header(&tm_block("mockgaiaB-1", 21, now + SECOND), unknown);
    let header2 = tm_header(&tm_block("mockgaiaB-1", 21, now + 2 * SECOND), client_height);
    let msg = misbehaviour_msg(
        &client_id,
        tm_misbehaviour_any(TmMisbehaviour::new(
            client_id.clone(),
            header1,
            header2,
        )),
    );
    assert!(matches!(
        validate(&ctx, msg),
        Err(ContextError::ClientError(ClientError::ConsensusStateNotFound { height })) if height == unknown
    ));
}

#[test]
fn header_that_conflicts_with_a_stored_consensus_state_freezes_the_client() {
    let client_id = tm_client_id();
    let now = now_nanos();
    let trusted_block = tm_block("mockgaiaB-1", 20, now);
    let stored_block = tm_block("mockgaiaB-1", 21, now + SECOND);
    let mut ctx = host_with_tm_client(
        "mockgaiaB-1",
        &client_id,
        Height::new(1, 21).unwrap(),
        &[&trusted_block, &stored_block],
        now + 3 * SECOND,
    );
    // another block at the height of the stored one
    let other_block = tm_block("mockgaiaB-1", 21, now + 2 * SECOND);
    let header = tm_header(&other_block, Height::new(1, 20).unwrap());
    let msg = update_msg(&client_id, tm_header_any(header));

    let res = validate(&ctx, msg.clone());
    assert!(res.is_ok(), "result: {res:?}");
    let res = execute(&mut ctx, msg);
    assert!(res.is_ok(), "result: {res:?}");
    ensure_misbehaviour(&ctx, &client_id, &tm_client_type());

    // the header of the stored block itself is no misbehaviour
    let mut ctx = host_with_tm_client(
        "mockgaiaB-1",
        &client_id,
        Height::new(1, 21).unwrap(),
        &[&trusted_block, &stored_block],
        now + 3 * SECOND,
    );
    let header = tm_header(&stored_block, Height::new(1, 20).unwrap());
    let msg = update_msg(&client_id, tm_header_any(header));
    assert!(validate(&ctx, msg.clone()).is_ok());
    assert!(execute(&mut ctx, msg).is_ok());
    assert!(ctx.client_state(&client_id).unwrap().confirm_not_frozen().is_ok());
    assert!(matches!(ctx.events[1], IbcEvent::UpdateClient(_)));
}

#[test]
fn update_with_a_header_from_the_future_is_rejected() {
    let client_id = tm_client_id();
    let client_height = Height::new(1, 20).unwrap();
    let now = now_nanos();
    let trusted_block = tm_block("mockgaiaB-1", 20, now);
    let ctx = host_with_tm_client(
        "mockgaiaB-1",
        &client_id,
        client_height,
        &[&trusted_block],
        now + 3 * SECOND,
    );
    // beyond the clock of the host and the drift that the client allows for
    let block = tm_block("mockgaiaB-1", 21, now + 60 * SECOND);
    let header = tm_header(&block, client_height);
    let res = validate(&ctx, update_msg(&client_id, tm_header_any(header.clone())));
    assert!(matches!(
        res,
        Err(ContextError::ClientError(ClientError::ClientSpecific(
            TmError::VerificationError { .. }
        )))
    ));
    // evidence is not held against the clock of the host
    let other = tm_header(&tm_block("mockgaiaB-1", 21, now + 61 * SECOND), client_height);
    let evidence = tm_misbehaviour_any(TmMisbehaviour::new(
        client_id.clone(),
        header,
        other,
    ));
    assert!(validate(&ctx, misbehaviour_msg(&client_id, evidence)).is_ok());
}

#[test]
fn voting_power_is_added_up_within_64_bits() {
    assert!(powers_fit(&vec![], 3));
    assert!(powers_fit(&vec![50, 50], 3));
    assert!(powers_fit(&vec![u64::MAX / 3], 3));
    assert!(!powers_fit(&vec![u64::MAX / 3 + 1], 3));
    assert!(!powers_fit(&vec![u64::MAX / 3, 1], 3));
    assert!(!powers_fit(&vec![u64::MAX, u64::MAX], 1));
    assert!(powers_fit(&vec![u64::MAX - 1, 1], 1));
    assert!(!powers_fit(&vec![1, u64::MAX - 1, 1], 1));
}

#[test]
fn verdict_becomes_a_result_that_keeps_what_the_verdict_says() {
    assert!(into_result(LightClientVerdict::Success).is_ok());
    let tally = VotingPowerTally {
        total: 100,
        tallied: 30,
        threshold_numerator: 1,
        threshold_denominator: 3,
    };
    assert!(matches!(
        into_result(LightClientVerdict::NotEnoughTrust(tally)),
        Err(TmError::NotEnoughTrustedValsSigned { reason }) if reason == tally
    ));
}

#[test]
fn header_is_read_back_from_its_packed_form() {
    let now = now_nanos();
    let header = tm_header(&tm_block("mockgaiaB-1", 21, now), Height::new(1, 20).unwrap());
    let any = tm_header_any(header.clone());
    assert_eq!(TmHeader::try_from_any(&any).unwrap(), header);
    assert_eq!(TmHeader::decode(&any.value).unwrap(), header);
    let other = tm_header(&tm_block("mockgaiaB-1", 21, now + SECOND), Height::new(1, 20).unwrap());
    let evidence = TmMisbehaviour::new(tm_client_id(), header, other);
    assert_eq!(
        TmMisbehaviour::try_from_any(&tm_misbehaviour_any(evidence.clone())).unwrap(),
        evidence
    );
}

#[test]
fn header_whose_validators_hold_too_much_power_is_rejected() {
    let now = now_nanos();
    let header = tm_header(&tm_block("mockgaiaB-1", 21, now), Height::new(1, 20).unwrap());
    let good = proto_tm_header(header);

    let mut heavy = good.clone();
    for validator in heavy.validator_set.as_mut().unwrap().validators.iter_mut() {
        validator.voting_power = i64::MAX;
    }
    assert!(matches!(
        TmHeader::decode(&prost::Message::encode_to_vec(&heavy)),
        Err(TmError::InvalidRawHeader)
    ));

    let mut heavy_trusted = good.clone();
    for validator in heavy_trusted.trusted_validators.as_mut().unwrap().validators.iter_mut() {
        validator.voting_power = i64::MAX;
    }
    assert!(matches!(
        TmHeader::decode(&prost::Message::encode_to_vec(&heavy_trusted)),
        Err(TmError::InvalidRawHeader)
    ));

    let mut negative = good.clone();
    negative.validator_set.as_mut().unwrap().validators[0].voting_power = -1;
    assert!(matches!(
        TmHeader::decode(&prost::Message::encode_to_vec(&negative)),
        Err(TmError::InvalidRawHeader)
    ));

    // what is missing is said in the order of the parts
    let mut no_height = good.clone();
    no_height.trusted_height = None;
    no_height.trusted_validators = None;
    assert!(matches!(
        TmHeader::decode(&prost::Message::encode_to_vec(&no_height)),
        Err(TmError::MissingTrustedHeight)
    ));
    let mut no_trusted = good.clone();
    no_trusted.trusted_validators = None;
    assert!(matches!(
        TmHeader::decode(&prost::Message::encode_to_vec(&no_trusted)),
        Err(TmError::MissingTrustedNextValidatorSet)
    ));
    let mut no_validators = good.clone();
    no_validators.validator_set = None;
    no_validators.trusted_height = None;
    assert!(matches!(
        TmHeader::decode(&prost::Message::encode_to_vec(&no_validators)),
        Err(TmError::MissingValidatorSet)
    ));
    assert!(TmHeader::decode(&prost::Message::encode_to_vec(&good)).is_ok());
}

#[test]
fn voting_powers_add_up_to_a_power_of_63_bits() {
    assert!(powers_are_convertible(&vec![]));
    assert!(powers_are_convertible(&vec![50, 50]));
    assert!(powers_are_convertible(&vec![i64::MAX]));
    assert!(powers_are_convertible(&vec![i64::MAX - 1, 1]));
    assert!(!powers_are_convertible(&vec![i64::MAX, 1]));
    assert!(!powers_are_convertible(&vec![i64::MAX, i64::MAX, i64::MAX]));
    // a power below zero adds nothing
    assert!(powers_are_convertible(&vec![i64::MAX, -1, i64::MIN]));
    assert!(!powers_are_convertible(&vec![-1, i64::MAX, 1]));
}

#[test]
fn msg_update_client_serialization() {
    let client_id = ClientId::new("tendermint".to_string());
    let signer = dummy_signer();

    let header = tm_header(&tm_block("mockgaiaB-1", 21, now_nanos()), Height::new(1, 20).unwrap());

    let msg = MsgUpdateClient { client_id, header: tm_header_any(header), signer };
    let raw = msg.clone().into_raw();
    let msg_back = MsgUpdateClient::try_from_raw(raw.clone()).unwrap();
    let raw_back = msg_back.clone().into_raw();
    assert_eq!(msg, msg_back);
    assert_eq!(raw, raw_back);
}

#[test]
fn raw_update_message_needs_a_client_and_a_header() {
    let header = mock_header_any(MockHeader::new(Height::new(0, 46).unwrap()));
    let raw = RawMsgUpdateClient {
        client_id: "07-tendermint-0".to_string(),
        header: Some(header),
        signer: "signer".to_string(),
    };
    assert!(MsgUpdateClient::try_from_raw(raw.clone()).is_ok());
    assert!(matches!(
        MsgUpdateClient::try_from_raw(RawMsgUpdateClient { header: None, ..raw.clone() }),
        Err(ClientError::MissingRawHeader)
    ));
    assert!(matches!(
        MsgUpdateClient::try_from_raw(RawMsgUpdateClient {
            client_id: "client".to_string(),
            header: None,
            ..raw.clone()
        }),
        Err(ClientError::InvalidMsgUpdateClientId(IdentifierError::InvalidLength {
            length: 6,
            min: 9,
            max: 64
        }))
    ));
    assert!(matches!(
        MsgUpdateClient::try_from_raw(RawMsgUpdateClient {
            client_id: "07/tendermint".to_string(),
            ..raw
        }),
        Err(ClientError::InvalidMsgUpdateClientId(IdentifierError::ContainSeparator))
    ));
}
