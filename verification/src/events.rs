//! The events that the handlers emit.

use vstd::prelude::*;

use crate::height::Height;
use crate::identifier::{ChannelId, ClientId, ClientType, ConnectionId, PortId};

verus! {

/// The part of the protocol that a message belongs to.
#[derive(Clone, Copy, Debug, PartialEq, Eq, Structural)]
pub enum MessageEvent {
    Client,
    Connection,
    Channel,
}

/// A client was updated with a header.
#[derive(Clone, Debug, PartialEq, Eq)]
pub struct UpdateClient {
    pub client_id: ClientId,
    pub client_type: ClientType,
    /// The first of the heights at which consensus states were stored.
    pub consensus_height: Height,
    pub consensus_heights: Vec<Height>,
    /// The encoding of the header that the client was updated with.
    pub header: Vec<u8>,
}

/// A client was frozen on evidence of misbehaviour.
#[derive(Clone, Debug, PartialEq, Eq)]
pub struct ClientMisbehaviour {
    pub client_id: ClientId,
    pub client_type: ClientType,
}

/// A channel end was opened in answer to the other chain.
#[derive(Clone, Debug, PartialEq, Eq)]
pub struct OpenTry {
    pub port_id: PortId,
    pub channel_id: ChannelId,
    pub counterparty_port_id: PortId,
    pub counterparty_channel_id: ChannelId,
    pub connection_id: ConnectionId,
    pub version: crate::channel::Version,
}

/// An event of the protocol.
#[derive(Clone, Debug, PartialEq, Eq)]
pub enum IbcEvent {
    Message(MessageEvent),
    UpdateClient(UpdateClient),
    ClientMisbehaviour(ClientMisbehaviour),
    OpenTryChannel(OpenTry),
    /// An event of the module that a channel is bound to, by its text.
    Module(String),
}

pub enum IbcEventView {
    Message(MessageEvent),
    UpdateClient {
        client_id: Seq<char>,
        client_type: Seq<char>,
        consensus_height: Height,
        consensus_heights: Seq<Height>,
        header: Seq<u8>,
    },
    ClientMisbehaviour { client_id: Seq<char>, client_type: Seq<char> },
    OpenTryChannel {
        port_id: Seq<char>,
        channel_id: Seq<char>,
        counterparty_port_id: Seq<char>,
        counterparty_channel_id: Seq<char>,
        connection_id: Seq<char>,
        version: Seq<char>,
    },
    Module(Seq<char>),
}

impl View for IbcEvent {
    type V = IbcEventView;

    open spec fn view(&self) -> IbcEventView {
        match self {
            IbcEvent::Message(m) => IbcEventView::Message(*m),
            IbcEvent::UpdateClient(e) => IbcEventView::UpdateClient {
                client_id: e.client_id@,
                client_type: e.client_type@,
                consensus_height: e.consensus_height,
                consensus_heights: e.consensus_heights@,
                header: e.header@,
            },
            IbcEvent::ClientMisbehaviour(e) => IbcEventView::ClientMisbehaviour {
                client_id: e.client_id@,
                client_type: e.client_type@,
            },
            IbcEvent::OpenTryChannel(e) => IbcEventView::OpenTryChannel {
                port_id: e.port_id@,
                channel_id: e.channel_id@,
                counterparty_port_id: e.counterparty_port_id@,
                counterparty_channel_id: e.counterparty_channel_id@,
                connection_id: e.connection_id@,
                version: e.version@,
            },
            IbcEvent::Module(text) => IbcEventView::Module(text@),
        }
    }
}

impl UpdateClient {
    pub fn client_id(&self) -> (r: &ClientId)
        ensures
            r@ == self.client_id@,
    {
        &self.client_id
    }

    pub fn client_type(&self) -> (r: &ClientType)
        ensures
            r@ == self.client_type@,
    {
        &self.client_type
    }

    pub fn consensus_height(&self) -> (r: &Height)
        ensures
            *r == self.consensus_height,
    {
        &self.consensus_height
    }

    pub fn consensus_heights(&self) -> (r: &Vec<Height>)
        ensures
            r@ == self.consensus_heights@,
    {
        &self.consensus_heights
    }

    pub fn header(&self) -> (r: &Vec<u8>)
        ensures
            r@ == self.header@,
    {
        &self.header
    }
}

impl ClientMisbehaviour {
    pub fn client_id(&self) -> (r: &ClientId)
        ensures
            r@ == self.client_id@,
    {
        &self.client_id
    }

    pub fn client_type(&self) -> (r: &ClientType)
        ensures
            r@ == self.client_type@,
    {
        &self.client_type
    }
}

} // verus!
