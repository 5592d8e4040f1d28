//! The store of a host chain: what the chain keeps of its clients, and the
//! events that the handlers emitted.
//!
//! Every list of the store is a log: an entry is added at the end and never
//! taken away, and the last entry for a key is the one that counts.

use vstd::prelude::*;

use crate::any::{AnyClientState, AnyClientStateView, AnyConsensusState, AnyConsensusStateView};
use crate::channel::{ChannelEnd, ChannelEndView, ChannelError};
use crate::connection::{ConnectionEnd, ConnectionEndView};
use crate::error::ClientError;
use crate::events::{IbcEvent, IbcEventView};
use crate::height::Height;
use crate::identifier::{ChannelId, ClientId, ConnectionId, PortId};
use crate::timestamp::Timestamp;

verus! {

/// The store of a host chain.
#[derive(Debug)]
pub struct HostStore {
    /// The time of the latest block of the host.
    pub host_timestamp: Timestamp,
    /// The height of the latest block of the host.
    pub host_height: Height,
    pub client_states: Vec<(ClientId, AnyClientState)>,
    pub consensus_states: Vec<(ClientId, Height, AnyConsensusState)>,
    /// The host time at which each consensus state was stored.
    pub update_times: Vec<(ClientId, Height, Timestamp)>,
    /// The host height at which each consensus state was stored.
    pub update_heights: Vec<(ClientId, Height, Height)>,
    pub connections: Vec<(ConnectionId, ConnectionEnd)>,
    pub channels: Vec<(PortId, ChannelId, ChannelEnd)>,
    /// The number of channel ends that the host has opened.
    pub channel_counter: u64,
    pub next_sequence_send: Vec<(PortId, ChannelId, u64)>,
    pub next_sequence_recv: Vec<(PortId, ChannelId, u64)>,
    pub next_sequence_ack: Vec<(PortId, ChannelId, u64)>,
    pub events: Vec<IbcEvent>,
    pub logs: Vec<String>,
}

pub struct HostStoreView {
    pub host_timestamp: Timestamp,
    pub host_height: Height,
    pub client_states: Seq<(Seq<char>, AnyClientStateView)>,
    pub consensus_states: Seq<(Seq<char>, Height, AnyConsensusStateView)>,
    pub update_times: Seq<(Seq<char>, Height, Timestamp)>,
    pub update_heights: Seq<(Seq<char>, Height, Height)>,
    pub connections: Seq<(Seq<char>, ConnectionEndView)>,
    pub channels: Seq<(Seq<char>, Seq<char>, ChannelEndView)>,
    pub channel_counter: u64,
    pub next_sequence_send: Seq<(Seq<char>, Seq<char>, u64)>,
    pub next_sequence_recv: Seq<(Seq<char>, Seq<char>, u64)>,
    pub next_sequence_ack: Seq<(Seq<char>, Seq<char>, u64)>,
    pub events: Seq<IbcEventView>,
    pub logs: Seq<Seq<char>>,
}

/// The texts of a log of sequence numbers.
pub open spec fn sequences_view(entries: Seq<(PortId, ChannelId, u64)>) -> Seq<
    (Seq<char>, Seq<char>, u64),
> {
    entries.map_values(|e: (PortId, ChannelId, u64)| (e.0@, e.1@, e.2))
}

impl View for HostStore {
    type V = HostStoreView;

    open spec fn view(&self) -> HostStoreView {
        HostStoreView {
            host_timestamp: self.host_timestamp,
            host_height: self.host_height,
            client_states: self.client_states@.map_values(
                |e: (ClientId, AnyClientState)| (e.0@, e.1@),
            ),
            consensus_states: self.consensus_states@.map_values(
                |e: (ClientId, Height, AnyConsensusState)| (e.0@, e.1, e.2@),
            ),
            update_times: self.update_times@.map_values(
                |e: (ClientId, Height, Timestamp)| (e.0@, e.1, e.2),
            ),
            update_heights: self.update_heights@.map_values(
                |e: (ClientId, Height, Height)| (e.0@, e.1, e.2),
            ),
            connections: self.connections@.map_values(
                |e: (ConnectionId, ConnectionEnd)| (e.0@, e.1@),
            ),
            channels: self.channels@.map_values(
                |e: (PortId, ChannelId, ChannelEnd)| (e.0@, e.1@, e.2@),
            ),
            channel_counter: self.channel_counter,
            next_sequence_send: sequences_view(self.next_sequence_send@),
            next_sequence_recv: sequences_view(self.next_sequence_recv@),
            next_sequence_ack: sequences_view(self.next_sequence_ack@),
            events: self.events@.map_values(|e: IbcEvent| e@),
            logs: self.logs@.map_values(|l: String| l@),
        }
    }
}

/// The connection end that is stored under an identifier: the last one
/// that was stored under it.
pub open spec fn connection_of(entries: Seq<(Seq<char>, ConnectionEndView)>, id: Seq<char>) -> Option<
    ConnectionEndView,
>
    decreases entries.len(),
{
    if entries.len() == 0 {
        None
    } else if entries.last().0 == id {
        Some(entries.last().1)
    } else {
        connection_of(entries.drop_last(), id)
    }
}

/// The channel end that is stored under a port and a channel identifier:
/// the last one that was stored under both.
pub open spec fn channel_of(
    entries: Seq<(Seq<char>, Seq<char>, ChannelEndView)>,
    port_id: Seq<char>,
    channel_id: Seq<char>,
) -> Option<ChannelEndView>
    decreases entries.len(),
{
    if entries.len() == 0 {
        None
    } else if entries.last().0 == port_id && entries.last().1 == channel_id {
        Some(entries.last().2)
    } else {
        channel_of(entries.drop_last(), port_id, channel_id)
    }
}

/// The client state that is stored under an identifier: the last one that
/// was stored under it.
pub open spec fn client_state_of(
    entries: Seq<(Seq<char>, AnyClientStateView)>,
    id: Seq<char>,
) -> Option<AnyClientStateView>
    decreases entries.len(),
{
    if entries.len() == 0 {
        None
    } else if entries.last().0 == id {
        Some(entries.last().1)
    } else {
        client_state_of(entries.drop_last(), id)
    }
}

/// The consensus state that is stored for a client at a height: the last
/// one that was stored for both.
pub open spec fn consensus_state_of(
    entries: Seq<(Seq<char>, Height, AnyConsensusStateView)>,
    id: Seq<char>,
    height: Height,
) -> Option<AnyConsensusStateView>
    decreases entries.len(),
{
    if entries.len() == 0 {
        None
    } else if entries.last().0 == id && entries.last().1 == height {
        Some(entries.last().2)
    } else {
        consensus_state_of(entries.drop_last(), id, height)
    }
}

/// The host time at which the consensus state of a client at a height was
/// last stored.
pub open spec fn update_time_of(
    entries: Seq<(Seq<char>, Height, Timestamp)>,
    id: Seq<char>,
    height: Height,
) -> Option<Timestamp>
    decreases entries.len(),
{
    if entries.len() == 0 {
        None
    } else if entries.last().0 == id && entries.last().1 == height {
        Some(entries.last().2)
    } else {
        update_time_of(entries.drop_last(), id, height)
    }
}

/// The host height at which the consensus state of a client at a height was
/// last stored.
pub open spec fn update_height_of(
    entries: Seq<(Seq<char>, Height, Height)>,
    id: Seq<char>,
    height: Height,
) -> Option<Height>
    decreases entries.len(),
{
    if entries.len() == 0 {
        None
    } else if entries.last().0 == id && entries.last().1 == height {
        Some(entries.last().2)
    } else {
        update_height_of(entries.drop_last(), id, height)
    }
}

impl HostStore {
    /// An empty store of a host at the height and the time given.
    pub fn new(host_height: Height, host_timestamp: Timestamp) -> (r: HostStore)
        ensures
            r@ == (HostStoreView {
                host_timestamp,
                host_height,
                client_states: Seq::empty(),
                consensus_states: Seq::empty(),
                update_times: Seq::empty(),
                update_heights: Seq::empty(),
                connections: Seq::empty(),
                channels: Seq::empty(),
                channel_counter: 0,
                next_sequence_send: Seq::empty(),
                next_sequence_recv: Seq::empty(),
                next_sequence_ack: Seq::empty(),
                events: Seq::empty(),
                logs: Seq::empty(),
            }),
    {
        let r = HostStore {
            host_timestamp,
            host_height,
            client_states: Vec::new(),
            consensus_states: Vec::new(),
            update_times: Vec::new(),
            update_heights: Vec::new(),
            connections: Vec::new(),
            channels: Vec::new(),
            channel_counter: 0,
            next_sequence_send: Vec::new(),
            next_sequence_recv: Vec::new(),
            next_sequence_ack: Vec::new(),
            events: Vec::new(),
            logs: Vec::new(),
        };
        assert(r@.connections =~= Seq::empty());
        assert(r@.channels =~= Seq::empty());
        assert(r@.next_sequence_send =~= Seq::empty());
        assert(r@.next_sequence_recv =~= Seq::empty());
        assert(r@.next_sequence_ack =~= Seq::empty());
        assert(r@.logs =~= Seq::empty());
        assert(r@.client_states =~= Seq::empty());
        assert(r@.consensus_states =~= Seq::empty());
        assert(r@.update_times =~= Seq::empty());
        assert(r@.update_heights =~= Seq::empty());
        assert(r@.events =~= Seq::empty());
        r
    }

    pub fn host_timestamp(&self) -> (r: Timestamp)
        ensures
            r == self@.host_timestamp,
    {
        self.host_timestamp
    }

    pub fn host_height(&self) -> (r: Height)
        ensures
            r == self@.host_height,
    {
        self.host_height
    }

    /// Moves the host on to a later block.
    pub fn advance_host(&mut self, host_height: Height, host_timestamp: Timestamp)
        ensures
            final(self)@ == (HostStoreView { host_height, host_timestamp, ..old(self)@ }),
    {
        self.host_height = host_height;
        self.host_timestamp = host_timestamp;
    }

    /// The state of a client, where the client exists.
    pub fn client_state(&self, client_id: &ClientId) -> (r: Result<AnyClientState, ClientError>)
        ensures
            match client_state_of(self@.client_states, client_id@) {
                Some(cs) => r is Ok && r->Ok_0@ == cs,
                None => r == Err::<AnyClientState, ClientError>(ClientError::ClientStateNotFound),
            },
    {
        let ghost entries = self@.client_states;
        let mut i: usize = self.client_states.len();
        assert(entries.subrange(0, i as int) =~= entries);
        while i > 0
            invariant
                entries == self@.client_states,
                i <= entries.len(),
                client_state_of(entries, client_id@) == client_state_of(
                    entries.subrange(0, i as int),
                    client_id@,
                ),
            decreases i,
        {
            i -= 1;
            assert(entries.subrange(0, i + 1).last() == entries[i as int]);
            assert(entries.subrange(0, i + 1).drop_last() =~= entries.subrange(0, i as int));
            assert(entries[i as int] == (self.client_states@[i as int].0@, self.client_states@[i as int].1@));
            if self.client_states[i].0.same(client_id) {
                return Ok(self.client_states[i].1.clone());
            }
        }
        Err(ClientError::ClientStateNotFound)
    }

    /// The consensus state of a client at a height, where one is stored.
    pub fn consensus_state(&self, client_id: &ClientId, height: Height) -> (r: Result<
        AnyConsensusState,
        ClientError,
    >)
        ensures
            match consensus_state_of(self@.consensus_states, client_id@, height) {
                Some(cs) => r is Ok && r->Ok_0@ == cs,
                None => r == Err::<AnyConsensusState, ClientError>(
                    ClientError::ConsensusStateNotFound { height },
                ),
            },
    {
        let ghost entries = self@.consensus_states;
        let mut i: usize = self.consensus_states.len();
        assert(entries.subrange(0, i as int) =~= entries);
        while i > 0
            invariant
                entries == self@.consensus_states,
                i <= entries.len(),
                consensus_state_of(entries, client_id@, height) == consensus_state_of(
                    entries.subrange(0, i as int),
                    client_id@,
                    height,
                ),
            decreases i,
        {
            i -= 1;
            assert(entries.subrange(0, i + 1).last() == entries[i as int]);
            assert(entries.subrange(0, i + 1).drop_last() =~= entries.subrange(0, i as int));
            assert(entries[i as int] == (
                self.consensus_states@[i as int].0@,
                self.consensus_states@[i as int].1,
                self.consensus_states@[i as int].2@,
            ));
            if self.consensus_states[i].0.same(client_id) && self.consensus_states[i].1 == height {
                return Ok(self.consensus_states[i].2.clone());
            }
        }
        Err(ClientError::ConsensusStateNotFound { height })
    }

    /// The host time at which the consensus state of a client at a height
    /// was stored.
    pub fn client_update_time(&self, client_id: &ClientId, height: Height) -> (r: Option<Timestamp>)
        ensures
            r == update_time_of(self@.update_times, client_id@, height),
    {
        let ghost entries = self@.update_times;
        let mut i: usize = self.update_times.len();
        assert(entries.subrange(0, i as int) =~= entries);
        while i > 0
            invariant
                entries == self@.update_times,
                i <= entries.len(),
                update_time_of(entries, client_id@, height) == update_time_of(
                    entries.subrange(0, i as int),
                    client_id@,
                    height,
                ),
            decreases i,
        {
            i -= 1;
            assert(entries.subrange(0, i + 1).last() == entries[i as int]);
            assert(entries.subrange(0, i + 1).drop_last() =~= entries.subrange(0, i as int));
            assert(entries[i as int] == (
                self.update_times@[i as int].0@,
                self.update_times@[i as int].1,
                self.update_times@[i as int].2,
            ));
            if self.update_times[i].0.same(client_id) && self.update_times[i].1 == height {
                return Some(self.update_times[i].2);
            }
        }
        None
    }

    /// The host height at which the consensus state of a client at a height
    /// was stored.
    pub fn client_update_height(&self, client_id: &ClientId, height: Height) -> (r: Option<Height>)
        ensures
            r == update_height_of(self@.update_heights, client_id@, height),
    {
        let ghost entries = self@.update_heights;
        let mut i: usize = self.update_heights.len();
        assert(entries.subrange(0, i as int) =~= entries);
        while i > 0
            invariant
                entries == self@.update_heights,
                i <= entries.len(),
                update_height_of(entries, client_id@, height) == update_height_of(
                    entries.subrange(0, i as int),
                    client_id@,
                    height,
                ),
            decreases i,
        {
            i -= 1;
            assert(entries.subrange(0, i + 1).last() == entries[i as int]);
            assert(entries.subrange(0, i + 1).drop_last() =~= entries.subrange(0, i as int));
            assert(entries[i as int] == (
                self.update_heights@[i as int].0@,
                self.update_heights@[i as int].1,
                self.update_heights@[i as int].2,
            ));
            if self.update_heights[i].0.same(client_id) && self.update_heights[i].1 == height {
                return Some(self.update_heights[i].2);
            }
        }
        None
    }

    /// Stores the state of a client.
    pub fn store_client_state(&mut self, client_id: ClientId, client_state: AnyClientState)
        ensures
            final(self)@ == (HostStoreView {
                client_states: old(self)@.client_states.push((client_id@, client_state@)),
                ..old(self)@
            }),
    {
        self.client_states.push((client_id, client_state));
        assert(final(self)@.client_states =~= old(self)@.client_states.push(
            (client_id@, client_state@),
        ));
    }

    /// Stores the consensus state of a client at a height.
    pub fn store_consensus_state(
        &mut self,
        client_id: ClientId,
        height: Height,
        consensus_state: AnyConsensusState,
    )
        ensures
            final(self)@ == (HostStoreView {
                consensus_states: old(self)@.consensus_states.push(
                    (client_id@, height, consensus_state@),
                ),
                ..old(self)@
            }),
    {
        self.consensus_states.push((client_id, height, consensus_state));
        assert(final(self)@.consensus_states =~= old(self)@.consensus_states.push(
            (client_id@, height, consensus_state@),
        ));
    }

    /// Records the host time at which a consensus state was stored.
    pub fn store_update_time(&mut self, client_id: ClientId, height: Height, timestamp: Timestamp)
        ensures
            final(self)@ == (HostStoreView {
                update_times: old(self)@.update_times.push((client_id@, height, timestamp)),
                ..old(self)@
            }),
    {
        self.update_times.push((client_id, height, timestamp));
        assert(final(self)@.update_times =~= old(self)@.update_times.push(
            (client_id@, height, timestamp),
        ));
    }

    /// Records the host height at which a consensus state was stored.
    pub fn store_update_height(&mut self, client_id: ClientId, height: Height, host_height: Height)
        ensures
            final(self)@ == (HostStoreView {
                update_heights: old(self)@.update_heights.push((client_id@, height, host_height)),
                ..old(self)@
            }),
    {
        self.update_heights.push((client_id, height, host_height));
        assert(final(self)@.update_heights =~= old(self)@.update_heights.push(
            (client_id@, height, host_height),
        ));
    }

    /// The connection end under an identifier, where the host holds one.
    pub fn connection_end(&self, connection_id: &ConnectionId) -> (r: Result<
        ConnectionEnd,
        ChannelError,
    >)
        ensures
            match connection_of(self@.connections, connection_id@) {
                Some(end) => r is Ok && r->Ok_0@ == end,
                None => r is Err && r->Err_0 == ChannelError::ConnectionNotFound,
            },
    {
        let ghost entries = self@.connections;
        let mut i: usize = self.connections.len();
        assert(entries.subrange(0, i as int) =~= entries);
        while i > 0
            invariant
                entries == self@.connections,
                i <= entries.len(),
                connection_of(entries, connection_id@) == connection_of(
                    entries.subrange(0, i as int),
                    connection_id@,
                ),
            decreases i,
        {
            i -= 1;
            assert(entries.subrange(0, i + 1).last() == entries[i as int]);
            assert(entries.subrange(0, i + 1).drop_last() =~= entries.subrange(0, i as int));
            assert(entries[i as int] == (self.connections@[i as int].0@, self.connections@[i as int].1@));
            if self.connections[i].0.same(connection_id) {
                return Ok(self.connections[i].1.clone());
            }
        }
        Err(ChannelError::ConnectionNotFound)
    }

    /// The channel end under a port and a channel identifier, where the
    /// host holds one.
    pub fn channel_end(&self, port_id: &PortId, channel_id: &ChannelId) -> (r: Option<ChannelEnd>)
        ensures
            match channel_of(self@.channels, port_id@, channel_id@) {
                Some(end) => r is Some && r->0@ == end,
                None => r is None,
            },
    {
        let ghost entries = self@.channels;
        let mut i: usize = self.channels.len();
        assert(entries.subrange(0, i as int) =~= entries);
        while i > 0
            invariant
                entries == self@.channels,
                i <= entries.len(),
                channel_of(entries, port_id@, channel_id@) == channel_of(
                    entries.subrange(0, i as int),
                    port_id@,
                    channel_id@,
                ),
            decreases i,
        {
            i -= 1;
            assert(entries.subrange(0, i + 1).last() == entries[i as int]);
            assert(entries.subrange(0, i + 1).drop_last() =~= entries.subrange(0, i as int));
            assert(entries[i as int] == (
                self.channels@[i as int].0@,
                self.channels@[i as int].1@,
                self.channels@[i as int].2@,
            ));
            if self.channels[i].0.same(port_id) && self.channels[i].1.same(channel_id) {
                return Some(self.channels[i].2.clone());
            }
        }
        None
    }

    /// The number of channel ends that the host has opened.
    pub fn channel_counter(&self) -> (r: u64)
        ensures
            r == self@.channel_counter,
    {
        self.channel_counter
    }

    /// Counts one more channel end.
    pub fn increase_channel_counter(&mut self)
        requires
            old(self)@.channel_counter < u64::MAX,
        ensures
            final(self)@ == (HostStoreView {
                channel_counter: (old(self)@.channel_counter + 1) as u64,
                ..old(self)@
            }),
    {
        self.channel_counter = self.channel_counter + 1;
    }

    /// Stores a connection end.
    pub fn store_connection(&mut self, connection_id: ConnectionId, connection_end: ConnectionEnd)
        ensures
            final(self)@ == (HostStoreView {
                connections: old(self)@.connections.push((connection_id@, connection_end@)),
                ..old(self)@
            }),
    {
        self.connections.push((connection_id, connection_end));
        assert(final(self)@.connections =~= old(self)@.connections.push(
            (connection_id@, connection_end@),
        ));
    }

    /// Stores a channel end.
    pub fn store_channel(&mut self, port_id: PortId, channel_id: ChannelId, channel_end: ChannelEnd)
        ensures
            final(self)@ == (HostStoreView {
                channels: old(self)@.channels.push((port_id@, channel_id@, channel_end@)),
                ..old(self)@
            }),
    {
        self.channels.push((port_id, channel_id, channel_end));
        assert(final(self)@.channels =~= old(self)@.channels.push(
            (port_id@, channel_id@, channel_end@),
        ));
    }

    /// Sets the sequence number of the next packet to send on a channel.
    pub fn store_next_sequence_send(&mut self, port_id: PortId, channel_id: ChannelId, seq: u64)
        ensures
            final(self)@ == (HostStoreView {
                next_sequence_send: old(self)@.next_sequence_send.push((port_id@, channel_id@, seq)),
                ..old(self)@
            }),
    {
        self.next_sequence_send.push((port_id, channel_id, seq));
        assert(final(self)@.next_sequence_send =~= old(self)@.next_sequence_send.push(
            (port_id@, channel_id@, seq),
        ));
    }

    /// Sets the sequence number of the next packet to receive on a channel.
    pub fn store_next_sequence_recv(&mut self, port_id: PortId, channel_id: ChannelId, seq: u64)
        ensures
            final(self)@ == (HostStoreView {
                next_sequence_recv: old(self)@.next_sequence_recv.push((port_id@, channel_id@, seq)),
                ..old(self)@
            }),
    {
        self.next_sequence_recv.push((port_id, channel_id, seq));
        assert(final(self)@.next_sequence_recv =~= old(self)@.next_sequence_recv.push(
            (port_id@, channel_id@, seq),
        ));
    }

    /// Sets the sequence number of the next packet to acknowledge on a
    /// channel.
    pub fn store_next_sequence_ack(&mut self, port_id: PortId, channel_id: ChannelId, seq: u64)
        ensures
            final(self)@ == (HostStoreView {
                next_sequence_ack: old(self)@.next_sequence_ack.push((port_id@, channel_id@, seq)),
                ..old(self)@
            }),
    {
        self.next_sequence_ack.push((port_id, channel_id, seq));
        assert(final(self)@.next_sequence_ack =~= old(self)@.next_sequence_ack.push(
            (port_id@, channel_id@, seq),
        ));
    }

    /// Writes a line to the log of the host.
    pub fn log_message(&mut self, message: String)
        ensures
            final(self)@ == (HostStoreView { logs: old(self)@.logs.push(message@), ..old(self)@ }),
    {
        self.logs.push(message);
        assert(final(self)@.logs =~= old(self)@.logs.push(message@));
    }

    /// Emits an event.
    pub fn emit_ibc_event(&mut self, event: IbcEvent)
        ensures
            final(self)@ == (HostStoreView { events: old(self)@.events.push(event@), ..old(self)@ }),
    {
        self.events.push(event);
        assert(final(self)@.events =~= old(self)@.events.push(event@));
    }
}

} // verus!
