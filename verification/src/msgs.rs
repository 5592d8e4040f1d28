//! The messages that update a client.

use vstd::prelude::*;

use crate::any::{Any, AnyView};
use crate::client_state::UpdateKind;
use crate::error::ClientError;
use crate::identifier::{identifier_fault, validate_client_identifier, ClientId, Signer};

verus! {

/// The message that updates a client with a header.
#[derive(Clone, Debug, PartialEq, Eq)]
pub struct MsgUpdateClient {
    pub client_id: ClientId,
    pub header: Any,
    pub signer: Signer,
}

/// The message that updates a client, as it arrives.
#[derive(Clone, Debug, PartialEq, Eq)]
pub struct RawMsgUpdateClient {
    pub client_id: String,
    pub header: Option<Any>,
    pub signer: String,
}

/// What is wrong with a raw message, if anything: the text that is to name
/// the client is no client identifier, or there is no header.
pub open spec fn msg_update_client_fault(client_id: Seq<char>, has_header: bool) -> Option<
    ClientError,
> {
    match identifier_fault(client_id, 9, 64) {
        Some(e) => Some(ClientError::InvalidMsgUpdateClientId(e)),
        None => if has_header {
            None
        } else {
            Some(ClientError::MissingRawHeader)
        },
    }
}

impl MsgUpdateClient {
    /// Reads the message from its raw form.
    pub fn try_from_raw(raw: RawMsgUpdateClient) -> (r: Result<MsgUpdateClient, ClientError>)
        ensures
            match msg_update_client_fault(raw.client_id@, raw.header is Some) {
                Some(e) => r is Err && r->Err_0 == e,
                None => r is Ok && r->Ok_0.client_id@ == raw.client_id@ && r->Ok_0.header@
                    == raw.header->0@ && r->Ok_0.signer@ == raw.signer@,
            },
    {
        match validate_client_identifier(raw.client_id.as_str()) {
            Err(e) => {
                return Err(ClientError::InvalidMsgUpdateClientId(e));
            },
            Ok(_) => {},
        }
        match raw.header {
            None => Err(ClientError::MissingRawHeader),
            Some(header) => Ok(
                MsgUpdateClient {
                    client_id: ClientId::new(raw.client_id),
                    header,
                    signer: Signer::new(raw.signer),
                },
            ),
        }
    }

    /// The raw form of the message.
    pub fn into_raw(self) -> (r: RawMsgUpdateClient)
        ensures
            r.client_id@ == self.client_id@,
            r.header is Some && r.header->0@ == self.header@,
            r.signer@ == self.signer@,
    {
        RawMsgUpdateClient {
            client_id: self.client_id.id,
            header: Some(self.header),
            signer: self.signer.account,
        }
    }
}

/// The message that submits evidence of misbehaviour to a client.
#[derive(Clone, Debug, PartialEq, Eq)]
pub struct MsgSubmitMisbehaviour {
    pub client_id: ClientId,
    pub misbehaviour: Any,
    pub signer: Signer,
}

/// Either of the two messages.
#[derive(Clone, Debug, PartialEq, Eq)]
pub enum MsgUpdateOrMisbehaviour {
    UpdateClient(MsgUpdateClient),
    Misbehaviour(MsgSubmitMisbehaviour),
}

impl MsgUpdateOrMisbehaviour {
    /// The identifier of the client that the message is for.
    pub open spec fn id(&self) -> Seq<char> {
        match self {
            MsgUpdateOrMisbehaviour::UpdateClient(m) => m.client_id@,
            MsgUpdateOrMisbehaviour::Misbehaviour(m) => m.client_id@,
        }
    }

    /// What the message submits to the client, in packed form.
    pub open spec fn message(&self) -> AnyView {
        match self {
            MsgUpdateOrMisbehaviour::UpdateClient(m) => m.header@,
            MsgUpdateOrMisbehaviour::Misbehaviour(m) => m.misbehaviour@,
        }
    }

    /// The way in which the message updates the client.
    pub open spec fn kind(&self) -> UpdateKind {
        match self {
            MsgUpdateOrMisbehaviour::UpdateClient(_) => UpdateKind::UpdateClient,
            MsgUpdateOrMisbehaviour::Misbehaviour(_) => UpdateKind::SubmitMisbehaviour,
        }
    }

    pub fn client_id(&self) -> (r: &ClientId)
        ensures
            r@ == self.id(),
    {
        match self {
            MsgUpdateOrMisbehaviour::UpdateClient(m) => &m.client_id,
            MsgUpdateOrMisbehaviour::Misbehaviour(m) => &m.client_id,
        }
    }

    /// The account that signed the message.
    pub open spec fn signed_by(&self) -> Seq<char> {
        match self {
            MsgUpdateOrMisbehaviour::UpdateClient(m) => m.signer@,
            MsgUpdateOrMisbehaviour::Misbehaviour(m) => m.signer@,
        }
    }

    pub fn signer(&self) -> (r: &Signer)
        ensures
            r@ == self.signed_by(),
    {
        match self {
            MsgUpdateOrMisbehaviour::UpdateClient(m) => &m.signer,
            MsgUpdateOrMisbehaviour::Misbehaviour(m) => &m.signer,
        }
    }

    pub fn update_kind(&self) -> (r: UpdateKind)
        ensures
            r == self.kind(),
    {
        match self {
            MsgUpdateOrMisbehaviour::UpdateClient(_) => UpdateKind::UpdateClient,
            MsgUpdateOrMisbehaviour::Misbehaviour(_) => UpdateKind::SubmitMisbehaviour,
        }
    }

    /// Takes the message apart: the client, what is submitted to it, and
    /// the way in which it updates the client.
    pub fn into_parts(self) -> (r: (ClientId, Any, UpdateKind))
        ensures
            r.0@ == self.id(),
            r.1@ == self.message(),
            r.2 == self.kind(),
    {
        match self {
            MsgUpdateOrMisbehaviour::UpdateClient(m) => (
                m.client_id,
                m.header,
                UpdateKind::UpdateClient,
            ),
            MsgUpdateOrMisbehaviour::Misbehaviour(m) => (
                m.client_id,
                m.misbehaviour,
                UpdateKind::SubmitMisbehaviour,
            ),
        }
    }
}

} // verus!
