//! Identifiers of clients, connections, channels and ports, and the names of
//! chains and signers. An identifier is a text; the text is its view.

use vstd::prelude::*;
use vstd::string::StrSliceExecFns;
use vstd::utf8::encode_utf8;

verus! {

/// Why a text is no identifier.
#[derive(Clone, Copy, Debug, PartialEq, Eq, Structural)]
pub enum IdentifierError {
    /// The text is empty.
    Empty,
    /// The text holds a slash, which separates the parts of a path.
    ContainSeparator,
    /// The text is shorter or longer than this kind of identifier may be,
    /// counted in bytes.
    InvalidLength { length: usize, min: usize, max: usize },
    /// The text holds a character that is neither a letter, nor a digit,
    /// nor one of `._+-#[]<>`.
    InvalidCharacter,
}

/// Whether `char::is_alphanumeric` holds of a character: it is a letter or
/// a number of some script.
pub uninterp spec fn alphanumeric(c: char) -> bool;

/// Calls `char::is_alphanumeric`.
#[verifier::external_body]
fn is_alphanumeric(c: char) -> (r: bool)
    ensures
        r == alphanumeric(c),
{
    c.is_alphanumeric()
}

/// A character that may stand in an identifier: a letter, a digit, or one
/// of `._+-#[]<>`.
pub open spec fn identifier_char(c: char) -> bool {
    alphanumeric(c) || c == '.' || c == '_' || c == '+' || c == '-' || c == '#' || c == '['
        || c == ']' || c == '<' || c == '>'
}

/// What is wrong with the characters of a text that is to be an
/// identifier, if anything.
pub open spec fn identifier_chars_fault(id: Seq<char>) -> Option<IdentifierError> {
    if id.len() == 0 {
        Some(IdentifierError::Empty)
    } else if id.contains('/') {
        Some(IdentifierError::ContainSeparator)
    } else if !(forall|i: int| 0 <= i < id.len() ==> identifier_char(#[trigger] id[i])) {
        Some(IdentifierError::InvalidCharacter)
    } else {
        None
    }
}

/// What is wrong with a text that is to be an identifier of `min` to `max`
/// bytes, if anything.
pub open spec fn identifier_fault(id: Seq<char>, min: usize, max: usize) -> Option<
    IdentifierError,
> {
    match identifier_chars_fault(id) {
        Some(e) => Some(e),
        None => if encode_utf8(id).len() < min || encode_utf8(id).len() > max {
            Some(
                IdentifierError::InvalidLength {
                    length: encode_utf8(id).len() as usize,
                    min,
                    max,
                },
            )
        } else {
            None
        },
    }
}

/// Checks that a text is not empty and holds nothing but the characters of
/// identifiers.
pub fn validate_identifier_chars(id: &str) -> (r: Result<(), IdentifierError>)
    ensures
        match identifier_chars_fault(id@) {
            Some(e) => r == Err::<(), IdentifierError>(e),
            None => r is Ok,
        },
{
    let n = id.unicode_len();
    if n == 0 {
        return Err(IdentifierError::Empty);
    }
    let mut i: usize = 0;
    while i < n
        invariant
            n == id@.len(),
            i <= n,
            forall|j: int| 0 <= j < i ==> id@[j] != '/',
        decreases n - i,
    {
        if id.get_char(i) == '/' {
            return Err(IdentifierError::ContainSeparator);
        }
        i += 1;
    }
    let mut i: usize = 0;
    while i < n
        invariant
            n == id@.len(),
            i <= n,
            !id@.contains('/'),
            forall|j: int| 0 <= j < i ==> identifier_char(#[trigger] id@[j]),
        decreases n - i,
    {
        let c = id.get_char(i);
        let special = c == '.' || c == '_' || c == '+' || c == '-' || c == '#' || c == '[' || c
            == ']' || c == '<' || c == '>';
        if !special && !is_alphanumeric(c) {
            return Err(IdentifierError::InvalidCharacter);
        }
        i += 1;
    }
    Ok(())
}

/// Checks that a text is of `min` to `max` bytes.
pub fn validate_identifier_length(id: &str, min: usize, max: usize) -> (r: Result<
    (),
    IdentifierError,
>)
    ensures
        min <= encode_utf8(id@).len() <= max ==> r is Ok,
        !(min <= encode_utf8(id@).len() <= max) ==> r == Err::<(), IdentifierError>(
            IdentifierError::InvalidLength { length: encode_utf8(id@).len() as usize, min, max },
        ),
{
    let length = id.as_bytes().len();
    if length < min || length > max {
        return Err(IdentifierError::InvalidLength { length, min, max });
    }
    Ok(())
}

/// Checks that a text is an identifier of `min` to `max` bytes.
pub fn validate_identifier(id: &str, min: usize, max: usize) -> (r: Result<(), IdentifierError>)
    ensures
        match identifier_fault(id@, min, max) {
            Some(e) => r == Err::<(), IdentifierError>(e),
            None => r is Ok,
        },
{
    match validate_identifier_chars(id) {
        Err(e) => Err(e),
        Ok(_) => validate_identifier_length(id, min, max),
    }
}

/// Checks that a text can name a client: an identifier of 9 to 64 bytes.
pub fn validate_client_identifier(id: &str) -> (r: Result<(), IdentifierError>)
    ensures
        match identifier_fault(id@, 9, 64) {
            Some(e) => r == Err::<(), IdentifierError>(e),
            None => r is Ok,
        },
{
    validate_identifier(id, 9, 64)
}

/// Checks that a text can name a connection: an identifier of 10 to 64
/// bytes.
pub fn validate_connection_identifier(id: &str) -> (r: Result<(), IdentifierError>)
    ensures
        match identifier_fault(id@, 10, 64) {
            Some(e) => r == Err::<(), IdentifierError>(e),
            None => r is Ok,
        },
{
    validate_identifier(id, 10, 64)
}

/// Checks that a text can name a port: an identifier of 2 to 128 bytes.
pub fn validate_port_identifier(id: &str) -> (r: Result<(), IdentifierError>)
    ensures
        match identifier_fault(id@, 2, 128) {
            Some(e) => r == Err::<(), IdentifierError>(e),
            None => r is Ok,
        },
{
    validate_identifier(id, 2, 128)
}

/// Checks that a text can name a channel: an identifier of 8 to 64 bytes.
pub fn validate_channel_identifier(id: &str) -> (r: Result<(), IdentifierError>)
    ensures
        match identifier_fault(id@, 8, 64) {
            Some(e) => r == Err::<(), IdentifierError>(e),
            None => r is Ok,
        },
{
    validate_identifier(id, 8, 64)
}

/// The kind of a light client, such as `07-tendermint`.
#[derive(Debug, PartialEq, Eq, Hash)]
pub struct ClientType {
    pub name: String,
}

impl View for ClientType {
    type V = Seq<char>;

    open spec fn view(&self) -> Seq<char> {
        self.name@
    }
}

impl Clone for ClientType {
    fn clone(&self) -> (r: ClientType)
        ensures
            r@ == self@,
    {
        ClientType { name: self.name.clone() }
    }
}

impl ClientType {
    pub fn new(name: String) -> (r: ClientType)
        ensures
            r@ == name@,
    {
        ClientType { name }
    }

    pub fn as_str(&self) -> (r: &str)
        ensures
            r@ == self@,
    {
        self.name.as_str()
    }

    /// Whether both name the same kind of client.
    pub fn same(&self, other: &ClientType) -> (r: bool)
        ensures
            r == (self@ == other@),
    {
        self.name == other.name
    }
}

/// The name under which a host stores a client.
#[derive(Debug, PartialEq, Eq, Hash)]
pub struct ClientId {
    pub id: String,
}

impl View for ClientId {
    type V = Seq<char>;

    open spec fn view(&self) -> Seq<char> {
        self.id@
    }
}

impl Clone for ClientId {
    fn clone(&self) -> (r: ClientId)
        ensures
            r@ == self@,
    {
        ClientId { id: self.id.clone() }
    }
}

impl ClientId {
    pub fn new(id: String) -> (r: ClientId)
        ensures
            r@ == id@,
    {
        ClientId { id }
    }

    pub fn as_str(&self) -> (r: &str)
        ensures
            r@ == self@,
    {
        self.id.as_str()
    }

    /// Whether both name the same client.
    pub fn same(&self, other: &ClientId) -> (r: bool)
        ensures
            r == (self@ == other@),
    {
        self.id == other.id
    }
}

/// The name under which a host stores a connection.
#[derive(Debug, PartialEq, Eq, Hash)]
pub struct ConnectionId {
    pub id: String,
}

impl View for ConnectionId {
    type V = Seq<char>;

    open spec fn view(&self) -> Seq<char> {
        self.id@
    }
}

impl Clone for ConnectionId {
    fn clone(&self) -> (r: ConnectionId)
        ensures
            r@ == self@,
    {
        ConnectionId { id: self.id.clone() }
    }
}

impl ConnectionId {
    pub fn new(id: String) -> (r: ConnectionId)
        ensures
            r@ == id@,
    {
        ConnectionId { id }
    }

    pub fn as_str(&self) -> (r: &str)
        ensures
            r@ == self@,
    {
        self.id.as_str()
    }

    /// Whether both name the same connection.
    pub fn same(&self, other: &ConnectionId) -> (r: bool)
        ensures
            r == (self@ == other@),
    {
        self.id == other.id
    }
}

/// The name of a port, to which a module is bound.
#[derive(Debug, PartialEq, Eq, Hash)]
pub struct PortId {
    pub id: String,
}

impl View for PortId {
    type V = Seq<char>;

    open spec fn view(&self) -> Seq<char> {
        self.id@
    }
}

impl Clone for PortId {
    fn clone(&self) -> (r: PortId)
        ensures
            r@ == self@,
    {
        PortId { id: self.id.clone() }
    }
}

impl PortId {
    pub fn new(id: String) -> (r: PortId)
        ensures
            r@ == id@,
    {
        PortId { id }
    }

    pub fn as_str(&self) -> (r: &str)
        ensures
            r@ == self@,
    {
        self.id.as_str()
    }

    /// Whether both name the same port.
    pub fn same(&self, other: &PortId) -> (r: bool)
        ensures
            r == (self@ == other@),
    {
        self.id == other.id
    }
}

/// The name of a channel end on its chain.
#[derive(Debug, PartialEq, Eq, Hash)]
pub struct ChannelId {
    pub id: String,
}

impl View for ChannelId {
    type V = Seq<char>;

    open spec fn view(&self) -> Seq<char> {
        self.id@
    }
}

impl Clone for ChannelId {
    fn clone(&self) -> (r: ChannelId)
        ensures
            r@ == self@,
    {
        ChannelId { id: self.id.clone() }
    }
}

impl ChannelId {
    pub fn new(id: String) -> (r: ChannelId)
        ensures
            r@ == id@,
    {
        ChannelId { id }
    }

    pub fn as_str(&self) -> (r: &str)
        ensures
            r@ == self@,
    {
        self.id.as_str()
    }

    /// Whether both name the same channel end.
    pub fn same(&self, other: &ChannelId) -> (r: bool)
        ensures
            r == (self@ == other@),
    {
        self.id == other.id
    }
}

/// The account that signed a message.
#[derive(Debug, PartialEq, Eq, Hash)]
pub struct Signer {
    pub account: String,
}

impl View for Signer {
    type V = Seq<char>;

    open spec fn view(&self) -> Seq<char> {
        self.account@
    }
}

impl Clone for Signer {
    fn clone(&self) -> (r: Signer)
        ensures
            r@ == self@,
    {
        Signer { account: self.account.clone() }
    }
}

impl Signer {
    pub fn new(account: String) -> (r: Signer)
        ensures
            r@ == account@,
    {
        Signer { account }
    }
}

/// The name of a chain and the number of its revision.
#[derive(Debug, PartialEq, Eq, Hash)]
pub struct ChainId {
    pub id: String,
    pub revision_number: u64,
}

pub struct ChainIdView {
    pub id: Seq<char>,
    pub revision_number: u64,
}

impl View for ChainId {
    type V = ChainIdView;

    open spec fn view(&self) -> ChainIdView {
        ChainIdView { id: self.id@, revision_number: self.revision_number }
    }
}

impl Clone for ChainId {
    fn clone(&self) -> (r: ChainId)
        ensures
            r@ == self@,
    {
        ChainId { id: self.id.clone(), revision_number: self.revision_number }
    }
}

impl ChainId {
    /// A chain identifier from the full text of the name and the revision
    /// that the name stands for.
    pub fn new(id: String, revision_number: u64) -> (r: ChainId)
        ensures
            r@ == (ChainIdView { id: id@, revision_number }),
    {
        ChainId { id, revision_number }
    }

    pub fn as_str(&self) -> (r: &str)
        ensures
            r@ == self@.id,
    {
        self.id.as_str()
    }

    pub fn revision_number(&self) -> (r: u64)
        ensures
            r == self@.revision_number,
    {
        self.revision_number
    }
}

} // verus!
