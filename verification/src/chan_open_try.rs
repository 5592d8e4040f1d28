//! Opening a channel end in answer to the other chain: the second step of
//! the channel handshake.
//!
//! Chain A has begun the handshake; this chain, B, checks a proof that A
//! holds the channel end that it claims to hold, and opens its own end.

use vstd::prelude::*;
use vstd::string::StringExecFns;

use crate::any::{any_frozen_height, any_latest};
use crate::channel::{
    basic_fault, encoded_channel_end, hops_copy, hops_view, order_text,
    verify_connection_hops_length, ChannelEnd, ChannelEndView, ChannelError, Counterparty,
    CounterpartyView, Order, State, Version,
};
use crate::client_state::ClientStateCommon;
use crate::connection::ConnectionState;
use crate::context::{
    client_state_of, connection_of, consensus_state_of, HostStore, HostStoreView,
};
use crate::dispatch::{any_root, any_verify_membership, ConsensusState};
use crate::error::{ClientError, ContextError};
use crate::events::{IbcEvent, IbcEventView, MessageEvent, OpenTry};
use crate::height::{height_lt, Height};
use crate::identifier::{ChannelId, ConnectionId, PortId, Signer};
use crate::commitment::CommitmentProofBytes;

verus! {

/// The message with which a relayer asks chain B to open its end of a
/// channel that chain A has begun to open.
#[derive(Clone, Debug, PartialEq, Eq)]
pub struct MsgChannelOpenTry {
    pub port_id_on_b: PortId,
    pub connection_hops_on_b: Vec<ConnectionId>,
    pub port_id_on_a: PortId,
    pub chan_id_on_a: ChannelId,
    pub version_supported_on_a: Version,
    /// The proof that chain A holds its end of the channel.
    pub proof_chan_end_on_a: CommitmentProofBytes,
    /// The height of chain A at which the proof was taken.
    pub proof_height_on_a: Height,
    pub ordering: Order,
    pub signer: Signer,
}

pub struct MsgChannelOpenTryView {
    pub port_id_on_b: Seq<char>,
    pub connection_hops_on_b: Seq<Seq<char>>,
    pub port_id_on_a: Seq<char>,
    pub chan_id_on_a: Seq<char>,
    pub version_supported_on_a: Seq<char>,
    pub proof_chan_end_on_a: Seq<u8>,
    pub proof_height_on_a: Height,
    pub ordering: Order,
    pub signer: Seq<char>,
}

impl View for MsgChannelOpenTry {
    type V = MsgChannelOpenTryView;

    open spec fn view(&self) -> MsgChannelOpenTryView {
        MsgChannelOpenTryView {
            port_id_on_b: self.port_id_on_b@,
            connection_hops_on_b: hops_view(self.connection_hops_on_b@),
            port_id_on_a: self.port_id_on_a@,
            chan_id_on_a: self.chan_id_on_a@,
            version_supported_on_a: self.version_supported_on_a@,
            proof_chan_end_on_a: self.proof_chan_end_on_a@,
            proof_height_on_a: self.proof_height_on_a,
            ordering: self.ordering,
            signer: self.signer@,
        }
    }
}

impl MsgChannelOpenTry {
    /// Checks that the channel is to run over one connection.
    pub fn verify_connection_hops_length(&self) -> (r: Result<(), ChannelError>)
        ensures
            self@.connection_hops_on_b.len() == 1 ==> r is Ok,
            self@.connection_hops_on_b.len() != 1 ==> r is Err && r->Err_0 == (
            ChannelError::InvalidConnectionHopsLength {
                expected: 1,
                actual: self@.connection_hops_on_b.len() as usize,
            }),
    {
        verify_connection_hops_length(&self.connection_hops_on_b, 1)
    }
}

/// The decimal digit of a number below ten.
pub open spec fn digit(n: nat) -> char {
    if n == 0 {
        '0'
    } else if n == 1 {
        '1'
    } else if n == 2 {
        '2'
    } else if n == 3 {
        '3'
    } else if n == 4 {
        '4'
    } else if n == 5 {
        '5'
    } else if n == 6 {
        '6'
    } else if n == 7 {
        '7'
    } else if n == 8 {
        '8'
    } else {
        '9'
    }
}

/// The decimal digits of a number, without leading zeros.
pub open spec fn decimal_digits(n: nat) -> Seq<char>
    decreases n,
{
    if n < 10 {
        seq![digit(n)]
    } else {
        decimal_digits(n / 10).push(digit(n % 10))
    }
}

/// Formats a number with `format!`, as `Display` shows it: in decimal
/// digits.
#[verifier::external_body]
fn decimal(n: u64) -> (r: String)
    ensures
        r@ == decimal_digits(n as nat),
{
    format!("{}", n)
}

/// The name of the channel end that a host opens when it has opened
/// `counter` channel ends before.
pub open spec fn channel_name(counter: u64) -> Seq<char> {
    "channel-"@ + decimal_digits(counter as nat)
}

/// The path under which a chain stores a channel end.
pub open spec fn channel_end_path(port_id: Seq<char>, channel_id: Seq<char>) -> Seq<char> {
    "channelEnds/ports/"@ + port_id + "/channels/"@ + channel_id
}

/// Names the channel end that a host opens when it has opened `counter`
/// channel ends before.
pub fn channel_id_of_counter(counter: u64) -> (r: ChannelId)
    ensures
        r@ == channel_name(counter),
{
    let digits = decimal(counter);
    ChannelId::new("channel-".to_owned().concat(digits.as_str()))
}

/// Makes the path under which a chain stores a channel end.
pub fn path_of_channel_end(port_id: &PortId, channel_id: &ChannelId) -> (r: String)
    ensures
        r@ == channel_end_path(port_id@, channel_id@),
{
    "channelEnds/ports/".to_owned().concat(port_id.as_str()).concat("/channels/").concat(
        channel_id.as_str(),
    )
}

/// The channel end that chain A holds if it began the handshake as the
/// message says: one that waits for an answer, with no channel end on
/// chain B yet, over the connection end of A.
pub open spec fn expected_end_on_a(msg: MsgChannelOpenTryView, conn_id_on_a: Seq<char>) -> ChannelEndView {
    ChannelEndView {
        state: State::Init,
        ordering: msg.ordering,
        remote: CounterpartyView { port_id: msg.port_id_on_b, channel_id: None },
        connection_hops: seq![conn_id_on_a],
        version: msg.version_supported_on_a,
    }
}

/// The outcome of validating the message against the store of chain B.
/// The checks come in this order: the channel runs over one connection;
/// the connection exists, is open, and supports the ordering; the client
/// of the connection exists, is not frozen, and has reached the height of
/// the proof; a consensus state is stored for that height; the connection
/// names its other end; the expected channel end of chain A is well
/// formed; the proof shows that chain A stores it.
pub open spec fn open_try_outcome(store: HostStoreView, msg: MsgChannelOpenTryView) -> Result<
    (),
    ContextError,
> {
    if msg.connection_hops_on_b.len() != 1 {
        Err(
            ContextError::ChannelError(
                ChannelError::InvalidConnectionHopsLength {
                    expected: 1,
                    actual: msg.connection_hops_on_b.len() as usize,
                },
            ),
        )
    } else {
        match connection_of(store.connections, msg.connection_hops_on_b[0]) {
            None => Err(ContextError::ChannelError(ChannelError::ConnectionNotFound)),
            Some(conn) => if conn.state != ConnectionState::Open {
                Err(
                    ContextError::ChannelError(
                        ChannelError::ConnectionNotOpen { actual: conn.state },
                    ),
                )
            } else if conn.versions.len() == 0 {
                Err(ContextError::ChannelError(ChannelError::ConnectionVersionMissing))
            } else if !conn.versions[0].features.contains(order_text(msg.ordering)) {
                Err(ContextError::ChannelError(ChannelError::FeatureNotSupported))
            } else {
                match client_state_of(store.client_states, conn.client_id) {
                    None => Err(ContextError::ClientError(ClientError::ClientStateNotFound)),
                    Some(cs) => if any_frozen_height(cs) is Some {
                        Err(
                            ContextError::ClientError(
                                ClientError::ClientFrozen {
                                    frozen_height: any_frozen_height(cs)->0,
                                },
                            ),
                        )
                    } else if height_lt(any_latest(cs), msg.proof_height_on_a) {
                        Err(
                            ContextError::ClientError(
                                ClientError::InvalidProofHeight {
                                    latest_height: any_latest(cs),
                                    proof_height: msg.proof_height_on_a,
                                },
                            ),
                        )
                    } else {
                        match consensus_state_of(
                            store.consensus_states,
                            conn.client_id,
                            msg.proof_height_on_a,
                        ) {
                            None => Err(
                                ContextError::ClientError(
                                    ClientError::ConsensusStateNotFound {
                                        height: msg.proof_height_on_a,
                                    },
                                ),
                            ),
                            Some(consensus_state) => match conn.counterparty.connection_id {
                                None => Err(
                                    ContextError::ChannelError(
                                        ChannelError::UndefinedConnectionCounterparty,
                                    ),
                                ),
                                Some(conn_id_on_a) => match basic_fault(State::Init, msg.ordering) {
                                    Some(e) => Err(ContextError::ChannelError(e)),
                                    None => match any_verify_membership(
                                        cs,
                                        conn.counterparty.prefix,
                                        msg.proof_chan_end_on_a,
                                        any_root(consensus_state),
                                        channel_end_path(msg.port_id_on_a, msg.chan_id_on_a),
                                        encoded_channel_end(expected_end_on_a(msg, conn_id_on_a)),
                                    ) {
                                        Ok(_) => Ok(()),
                                        Err(e) => Err(
                                            ContextError::ChannelError(
                                                ChannelError::VerifyChannelFailed(e),
                                            ),
                                        ),
                                    },
                                },
                            },
                        }
                    },
                }
            },
        }
    }
}

/// Validates the message against the store of chain B. Who may sign a
/// message is the host's own rule, which the host applies before it hands
/// the message over.
pub fn validate(ctx_b: &HostStore, msg: &MsgChannelOpenTry) -> (r: Result<(), ContextError>)
    ensures
        match open_try_outcome(ctx_b@, msg@) {
            Ok(_) => r is Ok,
            Err(e) => r is Err && r->Err_0 == e,
        },
{
    match msg.verify_connection_hops_length() {
        Err(e) => {
            return Err(ContextError::ChannelError(e));
        },
        Ok(_) => {},
    }
    assert(msg@.connection_hops_on_b[0] == msg.connection_hops_on_b@[0]@);
    let conn_end_on_b = match ctx_b.connection_end(&msg.connection_hops_on_b[0]) {
        Ok(end) => end,
        Err(e) => {
            return Err(ContextError::ChannelError(e));
        },
    };
    match conn_end_on_b.verify_open() {
        Err(e) => {
            return Err(ContextError::ChannelError(e));
        },
        Ok(_) => {},
    }
    if conn_end_on_b.versions.len() == 0 {
        return Err(ContextError::ChannelError(ChannelError::ConnectionVersionMissing));
    }
    assert(conn_end_on_b@.versions[0] == conn_end_on_b.versions@[0]@);
    match conn_end_on_b.versions[0].verify_feature_supported(msg.ordering.as_str()) {
        Err(e) => {
            return Err(ContextError::ChannelError(e));
        },
        Ok(_) => {},
    }
    // verify the proof
    let client_id_on_b = &conn_end_on_b.client_id;
    let client_state_of_a_on_b = match ctx_b.client_state(client_id_on_b) {
        Ok(cs) => cs,
        Err(e) => {
            return Err(ContextError::ClientError(e));
        },
    };
    match client_state_of_a_on_b.confirm_not_frozen() {
        Err(e) => {
            return Err(ContextError::ClientError(e));
        },
        Ok(_) => {},
    }
    match client_state_of_a_on_b.validate_proof_height(msg.proof_height_on_a) {
        Err(e) => {
            return Err(ContextError::ClientError(e));
        },
        Ok(_) => {},
    }
    let consensus_state_of_a_on_b = match ctx_b.consensus_state(
        client_id_on_b,
        msg.proof_height_on_a,
    ) {
        Ok(cs) => cs,
        Err(e) => {
            return Err(ContextError::ClientError(e));
        },
    };
    let prefix_on_a = &conn_end_on_b.counterparty.prefix;
    let conn_id_on_a = match &conn_end_on_b.counterparty.connection_id {
        Some(id) => id.clone(),
        None => {
            return Err(ContextError::ChannelError(ChannelError::UndefinedConnectionCounterparty));
        },
    };
    let mut hops_on_a: Vec<ConnectionId> = Vec::new();
    hops_on_a.push(conn_id_on_a);
    assert(hops_view(hops_on_a@) =~= seq![conn_end_on_b@.counterparty.connection_id->0]);
    let expected_chan_end_on_a = match ChannelEnd::new(
        State::Init,
        msg.ordering,
        Counterparty::new(msg.port_id_on_b.clone(), None),
        hops_on_a,
        msg.version_supported_on_a.clone(),
    ) {
        Ok(end) => end,
        Err(e) => {
            return Err(ContextError::ChannelError(e));
        },
    };
    let chan_end_path_on_a = path_of_channel_end(&msg.port_id_on_a, &msg.chan_id_on_a);
    // the channel end of chain A is held against the expected one
    match client_state_of_a_on_b.verify_membership(
        prefix_on_a,
        &msg.proof_chan_end_on_a,
        &consensus_state_of_a_on_b.root(),
        chan_end_path_on_a,
        expected_chan_end_on_a.encode_vec(),
    ) {
        Ok(_) => Ok(()),
        Err(e) => Err(ContextError::ChannelError(ChannelError::VerifyChannelFailed(e))),
    }
}

/// What a module adds to the outcome of a handshake step: events and lines
/// for the log.
#[derive(Clone, Debug, PartialEq, Eq)]
pub struct ModuleExtras {
    pub events: Vec<String>,
    pub log: Vec<String>,
}

/// The texts of a list of texts.
pub open spec fn texts(list: Seq<String>) -> Seq<Seq<char>> {
    list.map_values(|t: String| t@)
}

/// What a module that is bound to a port is asked when a channel end is
/// opened on that port in answer to the other chain.
pub trait Module {
    /// Whether the module takes the channel.
    fn on_chan_open_try_validate(
        &self,
        order: Order,
        connection_hops: &Vec<ConnectionId>,
        port_id: &PortId,
        channel_id: &ChannelId,
        counterparty: &Counterparty,
        counterparty_version: &Version,
    ) -> (r: Result<(), ChannelError>);

    /// Takes the channel, and settles on the version that the module
    /// speaks on it.
    fn on_chan_open_try_execute(
        &mut self,
        order: Order,
        connection_hops: &Vec<ConnectionId>,
        port_id: &PortId,
        channel_id: &ChannelId,
        counterparty: &Counterparty,
        counterparty_version: &Version,
    ) -> (r: Result<(ModuleExtras, Version), ChannelError>);
}

/// Validates the message against the store of chain B, and asks the module
/// that is bound to the port, where there is one.
pub fn chan_open_try_validate<M: Module>(
    ctx_b: &HostStore,
    module: Option<&M>,
    msg: MsgChannelOpenTry,
) -> (r: Result<(), ContextError>)
    ensures
        open_try_outcome(ctx_b@, msg@) matches Err(e) ==> r is Err && r->Err_0 == e,
        open_try_outcome(ctx_b@, msg@) is Ok && module is None ==> r is Err && r->Err_0
            == ContextError::ChannelError(ChannelError::RouteNotFound),
        r is Err && open_try_outcome(ctx_b@, msg@) is Ok ==> r->Err_0 is ChannelError,
{
    match validate(ctx_b, &msg) {
        Err(e) => {
            return Err(e);
        },
        Ok(_) => {},
    }
    let chan_id_on_b = channel_id_of_counter(ctx_b.channel_counter());
    let module = match module {
        Some(m) => m,
        None => {
            return Err(ContextError::ChannelError(ChannelError::RouteNotFound));
        },
    };
    match module.on_chan_open_try_validate(
        msg.ordering,
        &msg.connection_hops_on_b,
        &msg.port_id_on_b,
        &chan_id_on_b,
        &Counterparty::new(msg.port_id_on_a.clone(), Some(msg.chan_id_on_a.clone())),
        &msg.version_supported_on_a,
    ) {
        Ok(_) => Ok(()),
        Err(e) => Err(ContextError::ChannelError(e)),
    }
}

/// The line that the host logs when it has opened a channel end.
pub open spec fn open_try_log_line(channel_id: Seq<char>) -> Seq<char> {
    "success: channel open try with channel identifier: "@ + channel_id
}

/// The store of chain B once the channel end is opened with the version
/// that the module settled on. The channel end is stored under the port
/// and the name that the counter gives; the counter moves on; the three
/// sequence numbers of the channel start at one; a line is logged; the two
/// events of the step are emitted, and then what the module added.
pub open spec fn open_try_store(
    store: HostStoreView,
    msg: MsgChannelOpenTryView,
    module_events: Seq<Seq<char>>,
    module_log: Seq<Seq<char>>,
    version: Seq<char>,
) -> HostStoreView {
    let chan_id_on_b = channel_name(store.channel_counter);
    HostStoreView {
        channels: store.channels.push(
            (
                msg.port_id_on_b,
                chan_id_on_b,
                ChannelEndView {
                    state: State::TryOpen,
                    ordering: msg.ordering,
                    remote: CounterpartyView {
                        port_id: msg.port_id_on_a,
                        channel_id: Some(msg.chan_id_on_a),
                    },
                    connection_hops: msg.connection_hops_on_b,
                    version,
                },
            ),
        ),
        channel_counter: (store.channel_counter + 1) as u64,
        next_sequence_send: store.next_sequence_send.push((msg.port_id_on_b, chan_id_on_b, 1)),
        next_sequence_recv: store.next_sequence_recv.push((msg.port_id_on_b, chan_id_on_b, 1)),
        next_sequence_ack: store.next_sequence_ack.push((msg.port_id_on_b, chan_id_on_b, 1)),
        logs: store.logs.push(open_try_log_line(chan_id_on_b)) + module_log,
        events: store.events.push(IbcEventView::Message(MessageEvent::Channel)).push(
            IbcEventView::OpenTryChannel {
                port_id: msg.port_id_on_b,
                channel_id: chan_id_on_b,
                counterparty_port_id: msg.port_id_on_a,
                counterparty_channel_id: msg.chan_id_on_a,
                connection_id: msg.connection_hops_on_b[0],
                version,
            },
        ) + module_events.map_values(|t: Seq<char>| IbcEventView::Module(t)),
        ..store
    }
}

/// Emits the events that a module added.
fn emit_module_events(ctx: &mut HostStore, events: &Vec<String>)
    ensures
        final(ctx)@ == (HostStoreView {
            events: old(ctx)@.events + texts(events@).map_values(
                |t: Seq<char>| IbcEventView::Module(t),
            ),
            ..old(ctx)@
        }),
{
    let ghost added = texts(events@).map_values(|t: Seq<char>| IbcEventView::Module(t));
    assert(old(ctx)@.events + added.subrange(0, 0) =~= old(ctx)@.events);
    let mut i: usize = 0;
    while i < events.len()
        invariant
            i <= events@.len(),
            added == texts(events@).map_values(|t: Seq<char>| IbcEventView::Module(t)),
            ctx@ == (HostStoreView {
                events: old(ctx)@.events + added.subrange(0, i as int),
                ..old(ctx)@
            }),
        decreases events@.len() - i,
    {
        let event = IbcEvent::Module(events[i].clone());
        assert(event@ == added[i as int]);
        ctx.emit_ibc_event(event);
        assert((old(ctx)@.events + added.subrange(0, i as int)).push(added[i as int]) =~= old(
            ctx,
        )@.events + added.subrange(0, i + 1));
        i += 1;
    }
    assert(added.subrange(0, i as int) =~= added);
}

/// Logs the lines that a module added.
fn log_module_lines(ctx: &mut HostStore, lines: &Vec<String>)
    ensures
        final(ctx)@ == (HostStoreView { logs: old(ctx)@.logs + texts(lines@), ..old(ctx)@ }),
{
    let ghost added = texts(lines@);
    assert(old(ctx)@.logs + added.subrange(0, 0) =~= old(ctx)@.logs);
    let mut i: usize = 0;
    while i < lines.len()
        invariant
            i <= lines@.len(),
            added == texts(lines@),
            ctx@ == (HostStoreView {
                logs: old(ctx)@.logs + added.subrange(0, i as int),
                ..old(ctx)@
            }),
        decreases lines@.len() - i,
    {
        ctx.log_message(lines[i].clone());
        assert((old(ctx)@.logs + added.subrange(0, i as int)).push(added[i as int]) =~= old(
            ctx,
        )@.logs + added.subrange(0, i + 1));
        i += 1;
    }
    assert(added.subrange(0, i as int) =~= added);
}

/// What keeps the host from opening the channel end, whatever the module
/// made of the channel: a message that names no connection, a counter of
/// channel ends that has run out, or an ordering that was never set.
pub open spec fn open_try_fault(store: HostStoreView, msg: MsgChannelOpenTryView) -> Option<
    ChannelError,
> {
    if msg.connection_hops_on_b.len() == 0 {
        Some(ChannelError::InvalidConnectionHopsLength { expected: 1, actual: 0 })
    } else if store.channel_counter == u64::MAX {
        Some(ChannelError::ChannelCounterOverflow)
    } else {
        basic_fault(State::TryOpen, msg.ordering)
    }
}

/// Opens the channel end on chain B with what the module made of the
/// channel: the version that it settled on, and its events and log lines.
/// Where the channel end cannot be opened, nothing is written.
pub fn chan_open_try_apply(
    ctx_b: &mut HostStore,
    msg: &MsgChannelOpenTry,
    extras: &ModuleExtras,
    version: Version,
) -> (r: Result<(), ContextError>)
    ensures
        match open_try_fault(old(ctx_b)@, msg@) {
            Some(e) => r is Err && r->Err_0 == ContextError::ChannelError(e) && final(ctx_b)@
                == old(ctx_b)@,
            None => r is Ok && final(ctx_b)@ == open_try_store(
                old(ctx_b)@,
                msg@,
                texts(extras.events@),
                texts(extras.log@),
                version@,
            ),
        },
{
    if msg.connection_hops_on_b.len() == 0 {
        return Err(
            ContextError::ChannelError(
                ChannelError::InvalidConnectionHopsLength { expected: 1, actual: 0 },
            ),
        );
    }
    if ctx_b.channel_counter() == u64::MAX {
        return Err(ContextError::ChannelError(ChannelError::ChannelCounterOverflow));
    }
    let chan_id_on_b = channel_id_of_counter(ctx_b.channel_counter());
    let conn_id_on_b = msg.connection_hops_on_b[0].clone();
    assert(msg@.connection_hops_on_b[0] == msg.connection_hops_on_b@[0]@);
    // state changes
    let chan_end_on_b = match ChannelEnd::new(
        State::TryOpen,
        msg.ordering,
        Counterparty::new(msg.port_id_on_a.clone(), Some(msg.chan_id_on_a.clone())),
        hops_copy(&msg.connection_hops_on_b),
        version.clone(),
    ) {
        Ok(end) => end,
        Err(e) => {
            return Err(ContextError::ChannelError(e));
        },
    };
    ctx_b.store_channel(msg.port_id_on_b.clone(), chan_id_on_b.clone(), chan_end_on_b);
    ctx_b.increase_channel_counter();
    // the sequence numbers of the channel start at one
    ctx_b.store_next_sequence_send(msg.port_id_on_b.clone(), chan_id_on_b.clone(), 1);
    ctx_b.store_next_sequence_recv(msg.port_id_on_b.clone(), chan_id_on_b.clone(), 1);
    ctx_b.store_next_sequence_ack(msg.port_id_on_b.clone(), chan_id_on_b.clone(), 1);
    // events and logs
    ctx_b.log_message(
        "success: channel open try with channel identifier: ".to_owned().concat(
            chan_id_on_b.as_str(),
        ),
    );
    let core_event = IbcEvent::OpenTryChannel(
        OpenTry {
            port_id: msg.port_id_on_b.clone(),
            channel_id: chan_id_on_b,
            counterparty_port_id: msg.port_id_on_a.clone(),
            counterparty_channel_id: msg.chan_id_on_a.clone(),
            connection_id: conn_id_on_b,
            version,
        },
    );
    ctx_b.emit_ibc_event(IbcEvent::Message(MessageEvent::Channel));
    ctx_b.emit_ibc_event(core_event);
    emit_module_events(ctx_b, &extras.events);
    log_module_lines(ctx_b, &extras.log);
    Ok(())
}

/// Opens the channel end on chain B: asks the module that is bound to the
/// port to take the channel, and opens the end with what the module made of
/// it. Where there is no module, the module refuses, or the channel end
/// cannot be opened, nothing is written. The host calls it once the message
/// has been validated.
pub fn chan_open_try_execute<M: Module>(
    ctx_b: &mut HostStore,
    module: Option<&mut M>,
    msg: MsgChannelOpenTry,
) -> (r: Result<(), ContextError>)
    ensures
        module is None ==> r is Err && r->Err_0 == ContextError::ChannelError(
            ChannelError::RouteNotFound,
        ),
        r is Err ==> r->Err_0 is ChannelError && final(ctx_b)@ == old(ctx_b)@,
        r is Ok ==> open_try_fault(old(ctx_b)@, msg@) is None && exists|
            module_events: Seq<Seq<char>>,
            module_log: Seq<Seq<char>>,
            version: Seq<char>,
        |
            final(ctx_b)@ == #[trigger] open_try_store(
                old(ctx_b)@,
                msg@,
                module_events,
                module_log,
                version,
            ),
{
    let chan_id_on_b = channel_id_of_counter(ctx_b.channel_counter());
    let module = match module {
        Some(m) => m,
        None => {
            return Err(ContextError::ChannelError(ChannelError::RouteNotFound));
        },
    };
    let (extras, version) = match module.on_chan_open_try_execute(
        msg.ordering,
        &msg.connection_hops_on_b,
        &msg.port_id_on_b,
        &chan_id_on_b,
        &Counterparty::new(msg.port_id_on_a.clone(), Some(msg.chan_id_on_a.clone())),
        &msg.version_supported_on_a,
    ) {
        Ok(made) => made,
        Err(e) => {
            return Err(ContextError::ChannelError(e));
        },
    };
    chan_open_try_apply(ctx_b, &msg, &extras, version)
}

} // verus!
