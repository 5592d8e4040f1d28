//! The ends of a connection, as far as the channel handshake reads them.

use vstd::prelude::*;

use crate::channel::ChannelError;
use crate::commitment::CommitmentPrefix;
use crate::identifier::{ClientId, ConnectionId};
use crate::timestamp::Duration;

verus! {

/// How far the handshake of a connection end has come.
#[derive(Clone, Copy, Debug, PartialEq, Eq, Structural, Hash)]
pub enum ConnectionState {
    Uninitialized,
    Init,
    TryOpen,
    Open,
}

/// A version of the connection protocol and the features that it supports:
/// the orderings of the channels that may run over the connection.
#[derive(Debug, PartialEq, Eq)]
pub struct ConnectionVersion {
    pub identifier: String,
    pub features: Vec<String>,
}

pub struct ConnectionVersionView {
    pub identifier: Seq<char>,
    pub features: Seq<Seq<char>>,
}

impl View for ConnectionVersion {
    type V = ConnectionVersionView;

    open spec fn view(&self) -> ConnectionVersionView {
        ConnectionVersionView {
            identifier: self.identifier@,
            features: self.features@.map_values(|f: String| f@),
        }
    }
}

impl Clone for ConnectionVersion {
    fn clone(&self) -> (r: ConnectionVersion)
        ensures
            r@ == self@,
    {
        let mut features: Vec<String> = Vec::new();
        let mut i: usize = 0;
        while i < self.features.len()
            invariant
                i <= self.features@.len(),
                features@.len() == i,
                forall|j: int| 0 <= j < i ==> features@[j]@ == self.features@[j]@,
            decreases self.features@.len() - i,
        {
            features.push(self.features[i].clone());
            i += 1;
        }
        let r = ConnectionVersion { identifier: self.identifier.clone(), features };
        assert(r@.features =~= self@.features);
        r
    }
}

impl ConnectionVersion {
    /// Checks that the version supports a feature.
    pub fn verify_feature_supported(&self, feature: &str) -> (r: Result<(), ChannelError>)
        ensures
            self@.features.contains(feature@) ==> r is Ok,
            !self@.features.contains(feature@) ==> r is Err && r->Err_0
                == ChannelError::FeatureNotSupported,
    {
        let wanted = feature.to_owned();
        let mut i: usize = 0;
        while i < self.features.len()
            invariant
                i <= self.features@.len(),
                wanted@ == feature@,
                forall|j: int| 0 <= j < i ==> self@.features[j] != feature@,
            decreases self.features@.len() - i,
        {
            if self.features[i] == wanted {
                assert(self@.features[i as int] == feature@);
                return Ok(());
            }
            i += 1;
        }
        Err(ChannelError::FeatureNotSupported)
    }
}

/// The end of a connection on the other chain.
#[derive(Debug, PartialEq, Eq)]
pub struct ConnectionCounterparty {
    pub client_id: ClientId,
    pub connection_id: Option<ConnectionId>,
    pub prefix: CommitmentPrefix,
}

pub struct ConnectionCounterpartyView {
    pub client_id: Seq<char>,
    pub connection_id: Option<Seq<char>>,
    pub prefix: Seq<u8>,
}

pub open spec fn connection_id_view(id: Option<ConnectionId>) -> Option<Seq<char>> {
    match id {
        Some(c) => Some(c@),
        None => None,
    }
}

impl View for ConnectionCounterparty {
    type V = ConnectionCounterpartyView;

    open spec fn view(&self) -> ConnectionCounterpartyView {
        ConnectionCounterpartyView {
            client_id: self.client_id@,
            connection_id: connection_id_view(self.connection_id),
            prefix: self.prefix@,
        }
    }
}

impl Clone for ConnectionCounterparty {
    fn clone(&self) -> (r: ConnectionCounterparty)
        ensures
            r@ == self@,
    {
        let connection_id = match &self.connection_id {
            Some(c) => Some(c.clone()),
            None => None,
        };
        ConnectionCounterparty {
            client_id: self.client_id.clone(),
            connection_id,
            prefix: self.prefix.clone(),
        }
    }
}

/// One end of a connection.
#[derive(Debug, PartialEq, Eq)]
pub struct ConnectionEnd {
    pub state: ConnectionState,
    pub client_id: ClientId,
    pub counterparty: ConnectionCounterparty,
    pub versions: Vec<ConnectionVersion>,
    pub delay_period: Duration,
}

pub struct ConnectionEndView {
    pub state: ConnectionState,
    pub client_id: Seq<char>,
    pub counterparty: ConnectionCounterpartyView,
    pub versions: Seq<ConnectionVersionView>,
    pub delay_period: Duration,
}

impl View for ConnectionEnd {
    type V = ConnectionEndView;

    open spec fn view(&self) -> ConnectionEndView {
        ConnectionEndView {
            state: self.state,
            client_id: self.client_id@,
            counterparty: self.counterparty@,
            versions: self.versions@.map_values(|v: ConnectionVersion| v@),
            delay_period: self.delay_period,
        }
    }
}

impl Clone for ConnectionEnd {
    fn clone(&self) -> (r: ConnectionEnd)
        ensures
            r@ == self@,
    {
        let mut versions: Vec<ConnectionVersion> = Vec::new();
        let mut i: usize = 0;
        while i < self.versions.len()
            invariant
                i <= self.versions@.len(),
                versions@.len() == i,
                forall|j: int| 0 <= j < i ==> versions@[j]@ == self.versions@[j]@,
            decreases self.versions@.len() - i,
        {
            versions.push(self.versions[i].clone());
            i += 1;
        }
        let r = ConnectionEnd {
            state: self.state,
            client_id: self.client_id.clone(),
            counterparty: self.counterparty.clone(),
            versions,
            delay_period: self.delay_period,
        };
        assert(r@.versions =~= self@.versions);
        r
    }
}

impl ConnectionEnd {
    /// Checks that the connection end is open.
    pub fn verify_open(&self) -> (r: Result<(), ChannelError>)
        ensures
            self@.state == ConnectionState::Open ==> r is Ok,
            self@.state != ConnectionState::Open ==> r is Err && r->Err_0 == (
            ChannelError::ConnectionNotOpen { actual: self@.state }),
    {
        if self.state == ConnectionState::Open {
            Ok(())
        } else {
            Err(ChannelError::ConnectionNotOpen { actual: self.state })
        }
    }
}

} // verus!
