//! Messages in packed form, and the client states and consensus states of
//! every kind of client that a host supports, each as one type with a case
//! for each kind.

use vstd::prelude::*;

use crate::height::Height;
use crate::ics07_tendermint::client_state::{
    ClientState as TmClientState, ClientStateView as TmClientStateView,
};
use crate::ics07_tendermint::types::{
    ConsensusState as TmConsensusState, ConsensusStateView as TmConsensusStateView,
};
use crate::mock::client_state::MockClientState;
use crate::mock::types::MockConsensusState;

verus! {

/// A message in packed form: the name of its type, and its encoding.
#[derive(Debug, PartialEq, Eq)]
pub struct Any {
    pub type_url: String,
    pub value: Vec<u8>,
}

pub struct AnyView {
    pub type_url: Seq<char>,
    pub value: Seq<u8>,
}

impl View for Any {
    type V = AnyView;

    open spec fn view(&self) -> AnyView {
        AnyView { type_url: self.type_url@, value: self.value@ }
    }
}

impl Clone for Any {
    fn clone(&self) -> (r: Any)
        ensures
            r@ == self@,
    {
        Any {
            type_url: self.type_url.clone(),
            value: crate::bytes::bytes_copy(self.value.as_slice()),
        }
    }
}

impl Any {
    /// Whether the message is of the type with the name given.
    pub fn is_of_type(&self, type_url: &str) -> (r: bool)
        ensures
            r == (self@.type_url == type_url@),
    {
        self.type_url == type_url.to_owned()
    }
}

/// The state of a client of any kind.
#[derive(Debug, PartialEq, Eq)]
pub enum AnyClientState {
    Tendermint(TmClientState),
    Mock(MockClientState),
}

pub enum AnyClientStateView {
    Tendermint(TmClientStateView),
    Mock(MockClientState),
}

impl View for AnyClientState {
    type V = AnyClientStateView;

    open spec fn view(&self) -> AnyClientStateView {
        match self {
            AnyClientState::Tendermint(cs) => AnyClientStateView::Tendermint(cs@),
            AnyClientState::Mock(cs) => AnyClientStateView::Mock(*cs),
        }
    }
}

impl Clone for AnyClientState {
    fn clone(&self) -> (r: AnyClientState)
        ensures
            r@ == self@,
    {
        match self {
            AnyClientState::Tendermint(cs) => AnyClientState::Tendermint(cs.clone()),
            AnyClientState::Mock(cs) => AnyClientState::Mock(*cs),
        }
    }
}

/// Whether a client state carries the mark of a frozen client.
pub open spec fn any_frozen(cs: AnyClientStateView) -> bool {
    match cs {
        AnyClientStateView::Tendermint(s) => s.frozen_height.is_some(),
        AnyClientStateView::Mock(s) => s.frozen_height.is_some(),
    }
}

/// The height at which a client was frozen, if it was.
pub open spec fn any_frozen_height(cs: AnyClientStateView) -> Option<Height> {
    match cs {
        AnyClientStateView::Tendermint(s) => s.frozen_height,
        AnyClientStateView::Mock(s) => s.frozen_height,
    }
}

/// The latest height of a client state.
pub open spec fn any_latest(cs: AnyClientStateView) -> Height {
    match cs {
        AnyClientStateView::Tendermint(s) => s.latest_height,
        AnyClientStateView::Mock(s) => s.header.height,
    }
}

/// The consensus state of a client of any kind.
#[derive(Debug, PartialEq, Eq)]
pub enum AnyConsensusState {
    Tendermint(TmConsensusState),
    Mock(MockConsensusState),
}

pub enum AnyConsensusStateView {
    Tendermint(TmConsensusStateView),
    Mock(MockConsensusState),
}

impl View for AnyConsensusState {
    type V = AnyConsensusStateView;

    open spec fn view(&self) -> AnyConsensusStateView {
        match self {
            AnyConsensusState::Tendermint(cs) => AnyConsensusStateView::Tendermint(cs@),
            AnyConsensusState::Mock(cs) => AnyConsensusStateView::Mock(*cs),
        }
    }
}

impl Clone for AnyConsensusState {
    fn clone(&self) -> (r: AnyConsensusState)
        ensures
            r@ == self@,
    {
        match self {
            AnyConsensusState::Tendermint(cs) => AnyConsensusState::Tendermint(cs.clone()),
            AnyConsensusState::Mock(cs) => AnyConsensusState::Mock(*cs),
        }
    }
}

} // verus!
