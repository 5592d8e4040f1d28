//! The ends of a channel: their state, their ordering, the end on the other
//! chain, and the connections that they run over.

use vstd::prelude::*;
use vstd::string::StrSliceExecFns;

use crate::identifier::{
    identifier_fault, validate_channel_identifier, validate_connection_identifier,
    validate_port_identifier, ChannelId, ConnectionId, IdentifierError, PortId,
};

verus! {

/// The version of the protocol that the modules at both ends speak.
#[derive(Debug, PartialEq, Eq, Hash)]
pub struct Version {
    pub text: String,
}

impl View for Version {
    type V = Seq<char>;

    open spec fn view(&self) -> Seq<char> {
        self.text@
    }
}

impl Clone for Version {
    fn clone(&self) -> (r: Version)
        ensures
            r@ == self@,
    {
        Version { text: self.text.clone() }
    }
}

impl Version {
    pub fn new(text: String) -> (r: Version)
        ensures
            r@ == text@,
    {
        Version { text }
    }

    /// The version that says nothing.
    pub fn empty() -> (r: Version)
        ensures
            r@.len() == 0,
    {
        Version { text: String::new() }
    }

    pub fn as_str(&self) -> (r: &str)
        ensures
            r@ == self@,
    {
        self.text.as_str()
    }

    pub fn same(&self, other: &Version) -> (r: bool)
        ensures
            r == (self@ == other@),
    {
        self.text == other.text
    }
}

/// What was asked of the state of a channel end.
#[derive(Clone, Copy, Debug, PartialEq, Eq, Structural)]
pub enum ExpectedState {
    /// The state was to be this one.
    Exactly(State),
    /// The state was to be set.
    NotUninitialized,
    /// The channel end was not to be closed.
    NotClosed,
    /// The number was to stand for a state: one of 0, 1, 2, 3, 4.
    KnownNumber,
}

/// The state that was found where another was asked for.
#[derive(Clone, Copy, Debug, PartialEq, Eq, Structural)]
pub enum ActualState {
    /// The channel end is in this state.
    State(State),
    /// The raw channel end holds this number.
    Number(i32),
}

/// What was asked of the ordering of a channel end.
#[derive(Clone, Copy, Debug, PartialEq, Eq, Structural)]
pub enum ExpectedOrder {
    /// The ordering was to be set.
    NotUninitialized,
    /// The number was to stand for an ordering: one of 0, 1, 2.
    KnownNumber,
    /// The word was to name an ordering: one of `uninitialized`,
    /// `unordered`, `ordered`.
    KnownName,
}

/// The ordering that was found where another was asked for.
#[derive(Clone, Debug, PartialEq, Eq)]
pub enum ActualOrder {
    /// The channel end has this ordering.
    Order(Order),
    /// The raw channel end holds this number.
    Number(i32),
    /// The text that was to name an ordering.
    Name(String),
}

/// Why a channel end, or a step of the channel handshake, was refused.
#[derive(Clone, Debug)]
pub enum ChannelError {
    /// The state of the channel end is not what was asked for, or the
    /// number stands for no state.
    InvalidState { expected: ExpectedState, actual: ActualState },
    /// The ordering of the channel end was never set, or the number or the
    /// word stands for no ordering.
    InvalidOrderType { expected: ExpectedOrder, actual: ActualOrder },
    /// The other end has a channel identifier where it was to have none.
    InvalidChannelId { actual: ChannelId },
    /// The channel does not run over the number of connections expected.
    InvalidConnectionHopsLength { expected: usize, actual: usize },
    /// The other end of the channel is not the one expected.
    InvalidCounterparty { expected: Counterparty, actual: Counterparty },
    /// The raw channel end names no other end.
    MissingCounterparty,
    /// No module is bound to the port.
    RouteNotFound,
    /// The host holds no connection under the identifier.
    ConnectionNotFound,
    /// The connection is not open.
    ConnectionNotOpen { actual: crate::connection::ConnectionState },
    /// The connection has settled on no version.
    ConnectionVersionMissing,
    /// The connection names no connection on the other chain.
    UndefinedConnectionCounterparty,
    /// The host has opened as many channel ends as it can count.
    ChannelCounterOverflow,
    /// The connection does not support the ordering asked for.
    FeatureNotSupported,
    /// The proof that the other chain holds the expected channel end failed.
    VerifyChannelFailed(crate::error::ClientError),
    /// The module that the channel is bound to refused the channel.
    AppModule { description: String },
    /// A text that is to name a port, a channel or a connection is no
    /// identifier.
    Identifier(IdentifierError),
}

/// Whether packets arrive in the order in which they were sent.
#[derive(Clone, Copy, Debug, PartialEq, Eq, Structural, Hash)]
pub enum Order {
    Uninitialized,
    Unordered,
    Ordered,
}

impl Default for Order {
    fn default() -> (r: Order)
        ensures
            r == Order::Unordered,
    {
        Order::Unordered
    }
}

/// The number of an ordering.
pub open spec fn order_number(order: Order) -> i32 {
    match order {
        Order::Uninitialized => 0,
        Order::Unordered => 1,
        Order::Ordered => 2,
    }
}

/// The name of an ordering.
pub open spec fn order_text(order: Order) -> Seq<char> {
    match order {
        Order::Uninitialized => "ORDER_NONE_UNSPECIFIED"@,
        Order::Unordered => "ORDER_UNORDERED"@,
        Order::Ordered => "ORDER_ORDERED"@,
    }
}

/// The ordering that a number stands for.
pub open spec fn order_of_number(nr: i32) -> Option<Order> {
    if nr == 0 {
        Some(Order::Uninitialized)
    } else if nr == 1 {
        Some(Order::Unordered)
    } else if nr == 2 {
        Some(Order::Ordered)
    } else {
        None
    }
}

/// The text of the lower-case copy that `str::to_lowercase` makes.
pub uninterp spec fn lowercase_of(text: Seq<char>) -> Seq<char>;

/// What is left of `text` once `pattern` is taken away from its start as
/// often as it stands there.
pub open spec fn without_leading(text: Seq<char>, pattern: Seq<char>) -> Seq<char>
    decreases text.len(),
{
    if pattern.len() > 0 && pattern.is_prefix_of(text) {
        without_leading(text.skip(pattern.len() as int), pattern)
    } else {
        text
    }
}

/// Calls `str::to_lowercase`.
#[verifier::external_body]
fn lowercase(text: &str) -> (r: String)
    ensures
        r@ == lowercase_of(text@),
{
    text.to_lowercase()
}

/// Calls `str::trim_start_matches` with a text that is not empty as the
/// pattern: the call takes the pattern away from the start as often as it
/// stands there.
#[verifier::external_body]
fn trim_leading<'a>(text: &'a str, pattern: &str) -> (r: &'a str)
    requires
        pattern@.len() > 0,
    ensures
        r@ == without_leading(text@, pattern@),
{
    text.trim_start_matches(pattern)
}

/// The bytes that `prost` makes of an `ibc_proto` channel end with the
/// state, the ordering, the port and the channel of the other end, the
/// connections and the version given.
pub uninterp spec fn channel_end_encoding(
    state: i32,
    ordering: i32,
    port_id: Seq<char>,
    channel_id: Seq<char>,
    connection_hops: Seq<Seq<char>>,
    version: Seq<char>,
) -> Seq<u8>;

/// Builds `ibc_proto::ibc::core::channel::v1::Channel` by its struct
/// literal and encodes it with `prost::Message::encode_to_vec`.
#[verifier::external_body]
fn encode_raw_channel(
    state: i32,
    ordering: i32,
    port_id: &str,
    channel_id: &str,
    connection_hops: Vec<String>,
    version: &str,
) -> (r: Vec<u8>)
    ensures
        r@ == channel_end_encoding(
            state,
            ordering,
            port_id@,
            channel_id@,
            connection_hops@.map_values(|h: String| h@),
            version@,
        ),
{
    let counterparty = ibc_proto::ibc::core::channel::v1::Counterparty {
        port_id: port_id.to_string(),
        channel_id: channel_id.to_string(),
    };
    let raw = ibc_proto::ibc::core::channel::v1::Channel {
        state,
        ordering,
        counterparty: Some(counterparty),
        connection_hops,
        version: version.to_string(),
    };
    prost::Message::encode_to_vec(&raw)
}

/// The ordering that a word names, once the word is in lower case and its
/// leading `order_` is taken away.
pub open spec fn order_of_word(word: Seq<char>) -> Option<Order> {
    if word == "uninitialized"@ {
        Some(Order::Uninitialized)
    } else if word == "unordered"@ {
        Some(Order::Unordered)
    } else if word == "ordered"@ {
        Some(Order::Ordered)
    } else {
        None
    }
}

impl Order {
    /// Yields the name of the ordering.
    pub fn as_str(&self) -> (r: &'static str)
        ensures
            r@ == order_text(*self),
    {
        match self {
            Order::Uninitialized => "ORDER_NONE_UNSPECIFIED",
            Order::Unordered => "ORDER_UNORDERED",
            Order::Ordered => "ORDER_ORDERED",
        }
    }

    /// The number of the ordering.
    pub fn number(self) -> (r: i32)
        ensures
            r == order_number(self),
    {
        match self {
            Order::Uninitialized => 0,
            Order::Unordered => 1,
            Order::Ordered => 2,
        }
    }

    /// Reads an ordering from its number: 0, 1 or 2.
    pub fn from_i32(nr: i32) -> (r: Result<Order, ChannelError>)
        ensures
            match order_of_number(nr) {
                Some(order) => r == Ok::<Order, ChannelError>(order),
                None => r == Err::<Order, ChannelError>(
                    ChannelError::InvalidOrderType {
                expected: ExpectedOrder::KnownNumber,
                actual: ActualOrder::Number(nr),
            },
                ),
            },
    {
        if nr == 0 {
            Ok(Order::Uninitialized)
        } else if nr == 1 {
            Ok(Order::Unordered)
        } else if nr == 2 {
            Ok(Order::Ordered)
        } else {
            Err(ChannelError::InvalidOrderType {
                expected: ExpectedOrder::KnownNumber,
                actual: ActualOrder::Number(nr),
            })
        }
    }

    /// Reads an ordering from a word in any case, with or without a leading
    /// `order_`: `uninitialized`, `unordered` or `ordered`.
    pub fn parse(s: &str) -> (r: Result<Order, ChannelError>)
        ensures
            match order_of_word(without_leading(lowercase_of(s@), "order_"@)) {
                Some(order) => r == Ok::<Order, ChannelError>(order),
                None => r matches Err(
                    ChannelError::InvalidOrderType {
                        expected: ExpectedOrder::KnownName,
                        actual: ActualOrder::Name(name),
                    },
                ) && name@ == s@,
            },
    {
        let lower = lowercase(s);
        proof {
            reveal_strlit("order_");
        }
        match Order::of_word(trim_leading(lower.as_str(), "order_")) {
            Some(order) => Ok(order),
            None => Err(
                ChannelError::InvalidOrderType {
                    expected: ExpectedOrder::KnownName,
                    actual: ActualOrder::Name(s.to_owned()),
                },
            ),
        }
    }

    /// The ordering that a word in lower case names: `uninitialized`,
    /// `unordered` or `ordered`.
    pub fn of_word(word: &str) -> (r: Option<Order>)
        ensures
            r == order_of_word(word@),
    {
        let word = word.to_owned();
        if word == "uninitialized".to_owned() {
            Some(Order::Uninitialized)
        } else if word == "unordered".to_owned() {
            Some(Order::Unordered)
        } else if word == "ordered".to_owned() {
            Some(Order::Ordered)
        } else {
            None
        }
    }
}

impl core::str::FromStr for Order {
    type Err = ChannelError;

    /// Reads an ordering from a word, as `Order::parse` does.
    fn from_str(s: &str) -> (r: Result<Order, ChannelError>)
        ensures
            match order_of_word(without_leading(lowercase_of(s@), "order_"@)) {
                Some(order) => r == Ok::<Order, ChannelError>(order),
                None => r matches Err(
                    ChannelError::InvalidOrderType {
                        expected: ExpectedOrder::KnownName,
                        actual: ActualOrder::Name(name),
                    },
                ) && name@ == s@,
            },
    {
        Order::parse(s)
    }
}

/// How far the handshake of a channel end has come.
#[derive(Clone, Copy, Debug, PartialEq, Eq, Structural, Hash)]
pub enum State {
    Uninitialized,
    Init,
    TryOpen,
    Open,
    Closed,
}

/// The name of a state.
pub open spec fn state_text(state: State) -> Seq<char> {
    match state {
        State::Uninitialized => "UNINITIALIZED"@,
        State::Init => "INIT"@,
        State::TryOpen => "TRYOPEN"@,
        State::Open => "OPEN"@,
        State::Closed => "CLOSED"@,
    }
}

/// The number of a state: its place in the handshake.
pub open spec fn state_number(state: State) -> int {
    match state {
        State::Uninitialized => 0,
        State::Init => 1,
        State::TryOpen => 2,
        State::Open => 3,
        State::Closed => 4,
    }
}

/// The state that a number stands for.
pub open spec fn state_of_number(nr: i32) -> Option<State> {
    if nr == 0 {
        Some(State::Uninitialized)
    } else if nr == 1 {
        Some(State::Init)
    } else if nr == 2 {
        Some(State::TryOpen)
    } else if nr == 3 {
        Some(State::Open)
    } else if nr == 4 {
        Some(State::Closed)
    } else {
        None
    }
}

impl State {
    /// Yields the name of the state.
    pub fn as_string(&self) -> (r: &'static str)
        ensures
            r@ == state_text(*self),
    {
        match self {
            State::Uninitialized => "UNINITIALIZED",
            State::Init => "INIT",
            State::TryOpen => "TRYOPEN",
            State::Open => "OPEN",
            State::Closed => "CLOSED",
        }
    }

    /// Reads a state from its number: 0 to 4.
    pub fn from_i32(s: i32) -> (r: Result<State, ChannelError>)
        ensures
            match state_of_number(s) {
                Some(state) => r == Ok::<State, ChannelError>(state),
                None => r == Err::<State, ChannelError>(
                    ChannelError::InvalidState {
                expected: ExpectedState::KnownNumber,
                actual: ActualState::Number(s),
            },
                ),
            },
    {
        if s == 0 {
            Ok(State::Uninitialized)
        } else if s == 1 {
            Ok(State::Init)
        } else if s == 2 {
            Ok(State::TryOpen)
        } else if s == 3 {
            Ok(State::Open)
        } else if s == 4 {
            Ok(State::Closed)
        } else {
            Err(ChannelError::InvalidState {
                expected: ExpectedState::KnownNumber,
                actual: ActualState::Number(s),
            })
        }
    }

    /// The place of the state in the handshake.
    pub fn number(self) -> (r: i32)
        ensures
            r == state_number(self),
    {
        match self {
            State::Uninitialized => 0,
            State::Init => 1,
            State::TryOpen => 2,
            State::Open => 3,
            State::Closed => 4,
        }
    }

    /// Whether this state is `Open`.
    pub fn is_open(self) -> (r: bool)
        ensures
            r == (self == State::Open),
    {
        self == State::Open
    }

    /// Whether a channel end in this state has come no further than one in
    /// the state `other`.
    pub fn less_or_equal_progress(self, other: State) -> (r: bool)
        ensures
            r == (state_number(self) <= state_number(other)),
    {
        self.number() <= other.number()
    }
}

/// The end of a channel on the other chain.
#[derive(Debug, PartialEq, Eq)]
pub struct Counterparty {
    pub port_id: PortId,
    pub channel_id: Option<ChannelId>,
}

pub struct CounterpartyView {
    pub port_id: Seq<char>,
    pub channel_id: Option<Seq<char>>,
}

pub open spec fn channel_id_view(id: Option<ChannelId>) -> Option<Seq<char>> {
    match id {
        Some(c) => Some(c@),
        None => None,
    }
}

impl View for Counterparty {
    type V = CounterpartyView;

    open spec fn view(&self) -> CounterpartyView {
        CounterpartyView { port_id: self.port_id@, channel_id: channel_id_view(self.channel_id) }
    }
}

impl Clone for Counterparty {
    fn clone(&self) -> (r: Counterparty)
        ensures
            r@ == self@,
    {
        let channel_id = match &self.channel_id {
            Some(c) => Some(c.clone()),
            None => None,
        };
        Counterparty { port_id: self.port_id.clone(), channel_id }
    }
}

impl Counterparty {
    pub fn new(port_id: PortId, channel_id: Option<ChannelId>) -> (r: Counterparty)
        ensures
            r@ == (CounterpartyView { port_id: port_id@, channel_id: channel_id_view(channel_id) }),
    {
        Counterparty { port_id, channel_id }
    }

    pub fn port_id(&self) -> (r: &PortId)
        ensures
            r@ == self@.port_id,
    {
        &self.port_id
    }

    pub fn channel_id(&self) -> (r: Option<&ChannelId>)
        ensures
            match r {
                Some(c) => self@.channel_id == Some(c@),
                None => self@.channel_id.is_none(),
            },
    {
        match &self.channel_id {
            Some(c) => Some(c),
            None => None,
        }
    }

    /// Whether both are the same end: the same port and the same channel.
    pub fn same(&self, other: &Counterparty) -> (r: bool)
        ensures
            r == (self@ == other@),
    {
        if !self.port_id.same(&other.port_id) {
            return false;
        }
        match (&self.channel_id, &other.channel_id) {
            (Some(a), Some(b)) => a.same(b),
            (None, None) => true,
            _ => false,
        }
    }

    /// Checks, when a handshake is begun on this chain, that the other end
    /// has no channel identifier yet.
    pub fn verify_empty_channel_id(&self) -> (r: Result<(), ChannelError>)
        ensures
            self@.channel_id.is_none() ==> r is Ok,
            self@.channel_id.is_some() ==> (r matches Err(
                ChannelError::InvalidChannelId { actual },
            ) && Some(actual@) == self@.channel_id),
    {
        match &self.channel_id {
            Some(c) => Err(ChannelError::InvalidChannelId { actual: c.clone() }),
            None => Ok(()),
        }
    }
}

/// One end of a channel.
#[derive(Debug, PartialEq, Eq)]
pub struct ChannelEnd {
    pub state: State,
    pub ordering: Order,
    pub remote: Counterparty,
    pub connection_hops: Vec<ConnectionId>,
    pub version: Version,
}

pub struct ChannelEndView {
    pub state: State,
    pub ordering: Order,
    pub remote: CounterpartyView,
    pub connection_hops: Seq<Seq<char>>,
    pub version: Seq<char>,
}

/// The texts of a list of connection identifiers.
pub open spec fn hops_view(hops: Seq<ConnectionId>) -> Seq<Seq<char>> {
    hops.map_values(|c: ConnectionId| c@)
}

impl View for ChannelEnd {
    type V = ChannelEndView;

    open spec fn view(&self) -> ChannelEndView {
        ChannelEndView {
            state: self.state,
            ordering: self.ordering,
            remote: self.remote@,
            connection_hops: hops_view(self.connection_hops@),
            version: self.version@,
        }
    }
}

/// A copy of a list of connection identifiers.
pub fn hops_copy(hops: &Vec<ConnectionId>) -> (r: Vec<ConnectionId>)
    ensures
        hops_view(r@) == hops_view(hops@),
{
    let mut out: Vec<ConnectionId> = Vec::new();
    let mut i: usize = 0;
    while i < hops.len()
        invariant
            i <= hops@.len(),
            out@.len() == i,
            forall|j: int| 0 <= j < i ==> out@[j]@ == hops@[j]@,
        decreases hops@.len() - i,
    {
        out.push(hops[i].clone());
        i += 1;
    }
    assert(hops_view(out@) =~= hops_view(hops@));
    out
}

/// Whether two lists name the same connections in the same order.
pub fn hops_same(a: &Vec<ConnectionId>, b: &Vec<ConnectionId>) -> (r: bool)
    ensures
        r == (hops_view(a@) == hops_view(b@)),
{
    if a.len() != b.len() {
        assert(hops_view(a@).len() != hops_view(b@).len());
        return false;
    }
    let mut i: usize = 0;
    while i < a.len()
        invariant
            a@.len() == b@.len(),
            i <= a@.len(),
            forall|j: int| 0 <= j < i ==> a@[j]@ == b@[j]@,
        decreases a@.len() - i,
    {
        if !a[i].same(&b[i]) {
            assert(hops_view(a@)[i as int] != hops_view(b@)[i as int]);
            return false;
        }
        i += 1;
    }
    assert(hops_view(a@) =~= hops_view(b@));
    true
}

impl Clone for ChannelEnd {
    fn clone(&self) -> (r: ChannelEnd)
        ensures
            r@ == self@,
    {
        ChannelEnd {
            state: self.state,
            ordering: self.ordering,
            remote: self.remote.clone(),
            connection_hops: hops_copy(&self.connection_hops),
            version: self.version.clone(),
        }
    }
}

/// The bytes that a channel end is stored as on its chain. Where the other
/// end has no channel identifier, the empty text stands for it.
pub open spec fn encoded_channel_end(end: ChannelEndView) -> Seq<u8> {
    channel_end_encoding(
        state_number(end.state) as i32,
        order_number(end.ordering),
        end.remote.port_id,
        match end.remote.channel_id {
            Some(c) => c,
            None => Seq::empty(),
        },
        end.connection_hops,
        end.version,
    )
}

/// What makes a channel end unfit to be stored: a state or an ordering that
/// was never set.
pub open spec fn basic_fault(state: State, ordering: Order) -> Option<ChannelError> {
    if state == State::Uninitialized {
        Some(
            ChannelError::InvalidState { expected: ExpectedState::NotUninitialized, actual: ActualState::State(state) },
        )
    } else if ordering == Order::Uninitialized {
        Some(ChannelError::InvalidOrderType {
                expected: ExpectedOrder::NotUninitialized,
                actual: ActualOrder::Order(ordering),
            })
    } else {
        None
    }
}

impl ChannelEnd {
    /// A channel end is well formed when its state and its ordering are set.
    pub open spec fn wf(&self) -> bool {
        basic_fault(self@.state, self@.ordering) is None
    }

    /// Makes a channel end of its parts without validating them. It serves
    /// the messages of the handshake, which carry ends that are not yet
    /// well formed.
    pub fn new_without_validation(
        state: State,
        ordering: Order,
        remote: Counterparty,
        connection_hops: Vec<ConnectionId>,
        version: Version,
    ) -> (r: ChannelEnd)
        ensures
            r@ == (ChannelEndView {
                state,
                ordering,
                remote: remote@,
                connection_hops: hops_view(connection_hops@),
                version: version@,
            }),
    {
        ChannelEnd { state, ordering, remote, connection_hops, version }
    }

    /// Makes a channel end of its parts, provided that its state and its
    /// ordering are set.
    pub fn new(
        state: State,
        ordering: Order,
        remote: Counterparty,
        connection_hops: Vec<ConnectionId>,
        version: Version,
    ) -> (r: Result<ChannelEnd, ChannelError>)
        ensures
            match basic_fault(state, ordering) {
                Some(e) => r is Err && r->Err_0 == e,
                None => r is Ok && r->Ok_0.wf() && r->Ok_0@ == (ChannelEndView {
                    state,
                    ordering,
                    remote: remote@,
                    connection_hops: hops_view(connection_hops@),
                    version: version@,
                }),
            },
    {
        let channel_end = ChannelEnd::new_without_validation(
            state,
            ordering,
            remote,
            connection_hops,
            version,
        );
        match channel_end.validate_basic() {
            Err(e) => Err(e),
            Ok(_) => Ok(channel_end),
        }
    }

    /// The bytes that this channel end is stored as on its chain.
    pub fn encode_vec(&self) -> (r: Vec<u8>)
        ensures
            r@ == encoded_channel_end(self@),
    {
        let mut hops: Vec<String> = Vec::new();
        let mut i: usize = 0;
        while i < self.connection_hops.len()
            invariant
                i <= self.connection_hops@.len(),
                hops@.len() == i,
                forall|j: int| 0 <= j < i ==> hops@[j]@ == self.connection_hops@[j]@,
            decreases self.connection_hops@.len() - i,
        {
            hops.push(self.connection_hops[i].id.clone());
            i += 1;
        }
        assert(hops@.map_values(|h: String| h@) =~= self@.connection_hops);
        let none = String::new();
        let channel_id: &str = match &self.remote.channel_id {
            Some(c) => c.as_str(),
            None => none.as_str(),
        };
        encode_raw_channel(
            self.state.number(),
            self.ordering.number(),
            self.remote.port_id.as_str(),
            channel_id,
            hops,
            self.version.as_str(),
        )
    }

    /// Updates the channel end to assume the state `s`.
    pub fn set_state(&mut self, s: State)
        ensures
            final(self)@ == (ChannelEndView { state: s, ..old(self)@ }),
    {
        self.state = s;
    }

    pub fn set_version(&mut self, v: Version)
        ensures
            final(self)@ == (ChannelEndView { version: v@, ..old(self)@ }),
    {
        self.version = v;
    }

    pub fn set_counterparty_channel_id(&mut self, c: ChannelId)
        ensures
            final(self)@ == (ChannelEndView {
                remote: CounterpartyView {
                    port_id: old(self)@.remote.port_id,
                    channel_id: Some(c@),
                },
                ..old(self)@
            }),
    {
        self.remote.channel_id = Some(c);
    }

    /// Whether this channel end is in the state `Open`.
    pub fn is_open(&self) -> (r: bool)
        ensures
            r == (self@.state == State::Open),
    {
        self.state == State::Open
    }

    pub fn state(&self) -> (r: &State)
        ensures
            *r == self@.state,
    {
        &self.state
    }

    pub fn ordering(&self) -> (r: &Order)
        ensures
            *r == self@.ordering,
    {
        &self.ordering
    }

    pub fn counterparty(&self) -> (r: &Counterparty)
        ensures
            r@ == self@.remote,
    {
        &self.remote
    }

    pub fn connection_hops(&self) -> (r: &Vec<ConnectionId>)
        ensures
            hops_view(r@) == self@.connection_hops,
    {
        &self.connection_hops
    }

    pub fn version(&self) -> (r: &Version)
        ensures
            r@ == self@.version,
    {
        &self.version
    }

    /// Checks that the state and the ordering of the channel end are set.
    pub fn validate_basic(&self) -> (r: Result<(), ChannelError>)
        ensures
            r is Ok <==> self.wf(),
            match basic_fault(self@.state, self@.ordering) {
                Some(e) => r is Err && r->Err_0 == e,
                None => r is Ok,
            },
    {
        if self.state == State::Uninitialized {
            return Err(
                ChannelError::InvalidState {
                    expected: ExpectedState::NotUninitialized,
                    actual: ActualState::State(self.state),
                },
            );
        }
        if self.ordering == Order::Uninitialized {
            return Err(ChannelError::InvalidOrderType {
                expected: ExpectedOrder::NotUninitialized,
                actual: ActualOrder::Order(self.ordering),
            });
        }
        Ok(())
    }

    /// Checks that the channel end is in the state expected.
    pub fn verify_state_matches(&self, expected: &State) -> (r: Result<(), ChannelError>)
        ensures
            self@.state == *expected ==> r is Ok,
            self@.state != *expected ==> r is Err && r->Err_0 == (ChannelError::InvalidState {
                expected: ExpectedState::Exactly(*expected),
                actual: ActualState::State(self@.state),
            }),
    {
        if !(self.state == *expected) {
            return Err(
                ChannelError::InvalidState {
                    expected: ExpectedState::Exactly(*expected),
                    actual: ActualState::State(self.state),
                },
            );
        }
        Ok(())
    }

    /// Checks that the channel end is not closed.
    pub fn verify_not_closed(&self) -> (r: Result<(), ChannelError>)
        ensures
            self@.state != State::Closed ==> r is Ok,
            self@.state == State::Closed ==> r is Err && r->Err_0 == (ChannelError::InvalidState {
                expected: ExpectedState::NotClosed,
                actual: ActualState::State(State::Closed),
            }),
    {
        if self.state == State::Closed {
            return Err(
                ChannelError::InvalidState { expected: ExpectedState::NotClosed, actual: ActualState::State(self.state) },
            );
        }
        Ok(())
    }

    /// Whether the channel end has the ordering `other`.
    pub fn order_matches(&self, other: &Order) -> (r: bool)
        ensures
            r == (self@.ordering == *other),
    {
        self.ordering == *other
    }

    /// Whether the channel end runs over the connections `other`.
    pub fn connection_hops_matches(&self, other: &Vec<ConnectionId>) -> (r: bool)
        ensures
            r == (self@.connection_hops == hops_view(other@)),
    {
        hops_same(&self.connection_hops, other)
    }

    /// Checks that the other end of the channel is the one expected.
    pub fn verify_counterparty_matches(&self, expected: &Counterparty) -> (r: Result<
        (),
        ChannelError,
    >)
        ensures
            self@.remote == expected@ ==> r is Ok,
            self@.remote != expected@ ==> (r matches Err(
                ChannelError::InvalidCounterparty { expected: e, actual: a },
            ) && e@ == expected@ && a@ == self@.remote),
    {
        if !self.remote.same(expected) {
            return Err(
                ChannelError::InvalidCounterparty {
                    expected: expected.clone(),
                    actual: self.remote.clone(),
                },
            );
        }
        Ok(())
    }

    /// Checks that the channel runs over one connection, which is all that
    /// this version of the protocol supports.
    pub fn verify_connection_hops_length(&self) -> (r: Result<(), ChannelError>)
        ensures
            self@.connection_hops.len() == 1 ==> r is Ok,
            self@.connection_hops.len() != 1 ==> r is Err && r->Err_0 == (
            ChannelError::InvalidConnectionHopsLength {
                expected: 1,
                actual: self@.connection_hops.len() as usize,
            }),
    {
        verify_connection_hops_length(&self.connection_hops, 1)
    }

    /// Whether the channel end speaks the version `other`.
    pub fn version_matches(&self, other: &Version) -> (r: bool)
        ensures
            r == (self@.version == other@),
    {
        self.version.same(other)
    }
}

/// Checks that a list names as many connections as expected.
pub fn verify_connection_hops_length(connection_hops: &Vec<ConnectionId>, expected: usize) -> (r:
    Result<(), ChannelError>)
    ensures
        connection_hops@.len() == expected ==> r is Ok,
        connection_hops@.len() != expected ==> r is Err && r->Err_0 == (
        ChannelError::InvalidConnectionHopsLength {
            expected,
            actual: connection_hops@.len() as usize,
        }),
{
    if connection_hops.len() != expected {
        return Err(
            ChannelError::InvalidConnectionHopsLength { expected, actual: connection_hops.len() },
        );
    }
    Ok(())
}

/// A channel end with its identifier and the port that it is bound to.
#[derive(Clone, Debug, PartialEq, Eq)]
pub struct IdentifiedChannelEnd {
    pub port_id: PortId,
    pub channel_id: ChannelId,
    pub channel_end: ChannelEnd,
}

impl IdentifiedChannelEnd {
    pub fn new(port_id: PortId, channel_id: ChannelId, channel_end: ChannelEnd) -> (r:
        IdentifiedChannelEnd)
        ensures
            r.port_id@ == port_id@,
            r.channel_id@ == channel_id@,
            r.channel_end@ == channel_end@,
    {
        IdentifiedChannelEnd { port_id, channel_id, channel_end }
    }
}

/// The end of a channel on the other chain, as it arrives: the channel
/// identifier is empty where there is none.
#[derive(Clone, Debug, PartialEq, Eq)]
pub struct RawCounterparty {
    pub port_id: String,
    pub channel_id: String,
}

/// One end of a channel, as it arrives.
#[derive(Clone, Debug, PartialEq, Eq)]
pub struct RawChannel {
    pub state: i32,
    pub ordering: i32,
    pub counterparty: Option<RawCounterparty>,
    pub connection_hops: Vec<String>,
    pub version: String,
}

/// A channel end with its identifier and its port, as it arrives.
#[derive(Clone, Debug, PartialEq, Eq)]
pub struct RawIdentifiedChannel {
    pub state: i32,
    pub ordering: i32,
    pub counterparty: Option<RawCounterparty>,
    pub connection_hops: Vec<String>,
    pub version: String,
    pub port_id: String,
    pub channel_id: String,
}

/// The other end that a raw one stands for. An empty channel identifier
/// stands for none; any other is to be a channel identifier, and the port
/// is to be a port identifier.
pub open spec fn counterparty_of(port_id: Seq<char>, channel_id: Seq<char>) -> Result<
    CounterpartyView,
    ChannelError,
> {
    if channel_id.len() != 0 && identifier_fault(channel_id, 8, 64) is Some {
        Err(ChannelError::Identifier(identifier_fault(channel_id, 8, 64)->0))
    } else if identifier_fault(port_id, 2, 128) is Some {
        Err(ChannelError::Identifier(identifier_fault(port_id, 2, 128)->0))
    } else {
        Ok(
            CounterpartyView {
                port_id,
                channel_id: if channel_id.len() == 0 {
                    None
                } else {
                    Some(channel_id)
                },
            },
        )
    }
}

/// What is wrong with the first text, from `from` on, that is no
/// connection identifier, if there is such a text.
pub open spec fn hops_fault(hops: Seq<Seq<char>>, from: int) -> Option<IdentifierError>
    decreases hops.len() - from,
{
    if from < 0 || from >= hops.len() {
        None
    } else if identifier_fault(hops[from], 10, 64) is Some {
        identifier_fault(hops[from], 10, 64)
    } else {
        hops_fault(hops, from + 1)
    }
}

/// The channel end that a raw one stands for. The checks come in this
/// order: the state and the ordering are numbers of a state and of an
/// ordering; there is another end, and it is one; every connection has an
/// identifier; the state and the ordering are set.
pub open spec fn channel_end_of(
    state: i32,
    ordering: i32,
    counterparty: Option<(Seq<char>, Seq<char>)>,
    connection_hops: Seq<Seq<char>>,
    version: Seq<char>,
) -> Result<ChannelEndView, ChannelError> {
    match state_of_number(state) {
        None => Err(ChannelError::InvalidState {
                expected: ExpectedState::KnownNumber,
                actual: ActualState::Number(state),
            }),
        Some(chan_state) => match order_of_number(ordering) {
            None => Err(ChannelError::InvalidOrderType {
                expected: ExpectedOrder::KnownNumber,
                actual: ActualOrder::Number(ordering),
            }),
            Some(chan_ordering) => match counterparty {
                None => Err(ChannelError::MissingCounterparty),
                Some((port_id, channel_id)) => match counterparty_of(port_id, channel_id) {
                    Err(e) => Err(e),
                    Ok(remote) => match hops_fault(connection_hops, 0) {
                        Some(e) => Err(ChannelError::Identifier(e)),
                        None => match basic_fault(chan_state, chan_ordering) {
                            Some(e) => Err(e),
                            None => Ok(
                                ChannelEndView {
                                    state: chan_state,
                                    ordering: chan_ordering,
                                    remote,
                                    connection_hops,
                                    version,
                                },
                            ),
                        },
                    },
                },
            },
        },
    }
}

/// The texts of a raw counterparty, where there is one.
pub open spec fn raw_counterparty_view(raw: Option<RawCounterparty>) -> Option<
    (Seq<char>, Seq<char>),
> {
    match raw {
        Some(c) => Some((c.port_id@, c.channel_id@)),
        None => None,
    }
}

/// The texts of a list of texts.
pub open spec fn raw_hops_view(hops: Seq<String>) -> Seq<Seq<char>> {
    hops.map_values(|h: String| h@)
}

/// Reads a list of connection identifiers from their texts.
pub fn hops_from_raw(raw: Vec<String>) -> (r: Result<Vec<ConnectionId>, ChannelError>)
    ensures
        match hops_fault(raw_hops_view(raw@), 0) {
            Some(e) => r is Err && r->Err_0 == ChannelError::Identifier(e),
            None => r is Ok && hops_view(r->Ok_0@) == raw_hops_view(raw@),
        },
{
    let ghost texts = raw_hops_view(raw@);
    let mut hops: Vec<ConnectionId> = Vec::new();
    let mut i: usize = 0;
    while i < raw.len()
        invariant
            texts == raw_hops_view(raw@),
            i <= raw@.len(),
            hops@.len() == i,
            forall|j: int| 0 <= j < i ==> hops@[j]@ == raw@[j]@,
            hops_fault(texts, 0) == hops_fault(texts, i as int),
        decreases raw@.len() - i,
    {
        assert(texts[i as int] == raw@[i as int]@);
        match validate_connection_identifier(raw[i].as_str()) {
            Err(e) => {
                return Err(ChannelError::Identifier(e));
            },
            Ok(_) => {},
        }
        hops.push(ConnectionId::new(raw[i].clone()));
        i += 1;
    }
    assert(hops_view(hops@) =~= texts);
    Ok(hops)
}

impl Counterparty {
    /// Reads the other end of a channel from its raw form.
    pub fn try_from_raw(raw_counterparty: RawCounterparty) -> (r: Result<Counterparty, ChannelError>)
        ensures
            match counterparty_of(raw_counterparty.port_id@, raw_counterparty.channel_id@) {
                Ok(c) => r is Ok && r->Ok_0@ == c,
                Err(e) => r is Err && r->Err_0 == e,
            },
    {
        let channel_id: Option<ChannelId> = if raw_counterparty.channel_id.as_str().unicode_len()
            == 0 {
            None
        } else {
            match validate_channel_identifier(raw_counterparty.channel_id.as_str()) {
                Err(e) => {
                    return Err(ChannelError::Identifier(e));
                },
                Ok(_) => {},
            }
            Some(ChannelId::new(raw_counterparty.channel_id))
        };
        match validate_port_identifier(raw_counterparty.port_id.as_str()) {
            Err(e) => {
                return Err(ChannelError::Identifier(e));
            },
            Ok(_) => {},
        }
        Ok(Counterparty::new(PortId::new(raw_counterparty.port_id), channel_id))
    }

    /// The raw form of the other end of a channel.
    pub fn into_raw(self) -> (r: RawCounterparty)
        ensures
            r.port_id@ == self@.port_id,
            r.channel_id@ == (match self@.channel_id {
                Some(c) => c,
                None => Seq::empty(),
            }),
    {
        let channel_id = match self.channel_id {
            Some(c) => c.id,
            None => String::new(),
        };
        RawCounterparty { port_id: self.port_id.id, channel_id }
    }
}

impl ChannelEnd {
    /// Reads a channel end from its raw form.
    pub fn try_from_raw(value: RawChannel) -> (r: Result<ChannelEnd, ChannelError>)
        ensures
            match channel_end_of(
                value.state,
                value.ordering,
                raw_counterparty_view(value.counterparty),
                raw_hops_view(value.connection_hops@),
                value.version@,
            ) {
                Ok(end) => r is Ok && r->Ok_0@ == end && r->Ok_0.wf(),
                Err(e) => r is Err && r->Err_0 == e,
            },
    {
        let chan_state = match State::from_i32(value.state) {
            Ok(s) => s,
            Err(e) => {
                return Err(e);
            },
        };
        let chan_ordering = match Order::from_i32(value.ordering) {
            Ok(o) => o,
            Err(e) => {
                return Err(e);
            },
        };
        // the other end of the channel
        let remote = match value.counterparty {
            None => {
                return Err(ChannelError::MissingCounterparty);
            },
            Some(raw) => match Counterparty::try_from_raw(raw) {
                Ok(c) => c,
                Err(e) => {
                    return Err(e);
                },
            },
        };
        // each connection hop is to be a connection identifier
        let connection_hops = match hops_from_raw(value.connection_hops) {
            Ok(hops) => hops,
            Err(e) => {
                return Err(e);
            },
        };
        let version = Version::new(value.version);
        ChannelEnd::new(chan_state, chan_ordering, remote, connection_hops, version)
    }

    /// The raw form of a channel end.
    pub fn into_raw(self) -> (r: RawChannel)
        ensures
            r.state == state_number(self@.state),
            r.ordering == order_number(self@.ordering),
            r.counterparty is Some,
            r.counterparty->0.port_id@ == self@.remote.port_id,
            r.counterparty->0.channel_id@ == (match self@.remote.channel_id {
                Some(c) => c,
                None => Seq::empty(),
            }),
            raw_hops_view(r.connection_hops@) == self@.connection_hops,
            r.version@ == self@.version,
    {
        let mut hops: Vec<String> = Vec::new();
        let mut i: usize = 0;
        while i < self.connection_hops.len()
            invariant
                i <= self.connection_hops@.len(),
                hops@.len() == i,
                forall|j: int| 0 <= j < i ==> hops@[j]@ == self.connection_hops@[j]@,
            decreases self.connection_hops@.len() - i,
        {
            hops.push(self.connection_hops[i].id.clone());
            i += 1;
        }
        assert(raw_hops_view(hops@) =~= self@.connection_hops);
        RawChannel {
            state: self.state.number(),
            ordering: self.ordering.number(),
            counterparty: Some(self.remote.into_raw()),
            connection_hops: hops,
            version: self.version.text,
        }
    }
}

/// The identified channel end that a raw one stands for: the port and the
/// channel are to be identifiers, and the channel end is to be one.
pub open spec fn identified_channel_end_fault(value: RawIdentifiedChannel) -> Option<ChannelError> {
    if identifier_fault(value.port_id@, 2, 128) is Some {
        Some(ChannelError::Identifier(identifier_fault(value.port_id@, 2, 128)->0))
    } else if identifier_fault(value.channel_id@, 8, 64) is Some {
        Some(ChannelError::Identifier(identifier_fault(value.channel_id@, 8, 64)->0))
    } else {
        match channel_end_of(
            value.state,
            value.ordering,
            raw_counterparty_view(value.counterparty),
            raw_hops_view(value.connection_hops@),
            value.version@,
        ) {
            Err(e) => Some(e),
            Ok(_) => None,
        }
    }
}

impl IdentifiedChannelEnd {
    /// Reads a channel end with its identifier and its port from its raw
    /// form.
    pub fn try_from_raw(value: RawIdentifiedChannel) -> (r: Result<
        IdentifiedChannelEnd,
        ChannelError,
    >)
        ensures
            match identified_channel_end_fault(value) {
                Some(e) => r is Err && r->Err_0 == e,
                None => r is Ok && r->Ok_0.port_id@ == value.port_id@ && r->Ok_0.channel_id@
                    == value.channel_id@ && Ok::<ChannelEndView, ChannelError>(r->Ok_0.channel_end@)
                    == channel_end_of(
                    value.state,
                    value.ordering,
                    raw_counterparty_view(value.counterparty),
                    raw_hops_view(value.connection_hops@),
                    value.version@,
                ),
            },
    {
        let raw_channel_end = RawChannel {
            state: value.state,
            ordering: value.ordering,
            counterparty: value.counterparty,
            connection_hops: value.connection_hops,
            version: value.version,
        };
        match validate_port_identifier(value.port_id.as_str()) {
            Err(e) => {
                return Err(ChannelError::Identifier(e));
            },
            Ok(_) => {},
        }
        match validate_channel_identifier(value.channel_id.as_str()) {
            Err(e) => {
                return Err(ChannelError::Identifier(e));
            },
            Ok(_) => {},
        }
        match ChannelEnd::try_from_raw(raw_channel_end) {
            Err(e) => Err(e),
            Ok(channel_end) => Ok(
                IdentifiedChannelEnd {
                    port_id: PortId::new(value.port_id),
                    channel_id: ChannelId::new(value.channel_id),
                    channel_end,
                },
            ),
        }
    }

    /// The raw form of a channel end with its identifier and its port.
    pub fn into_raw(self) -> (r: RawIdentifiedChannel)
        ensures
            r.state == state_number(self.channel_end@.state),
            r.ordering == order_number(self.channel_end@.ordering),
            r.counterparty is Some,
            r.counterparty->0.port_id@ == self.channel_end@.remote.port_id,
            r.counterparty->0.channel_id@ == (match self.channel_end@.remote.channel_id {
                Some(c) => c,
                None => Seq::empty(),
            }),
            raw_hops_view(r.connection_hops@) == self.channel_end@.connection_hops,
            r.version@ == self.channel_end@.version,
            r.port_id@ == self.port_id@,
            r.channel_id@ == self.channel_id@,
    {
        let raw = self.channel_end.into_raw();
        RawIdentifiedChannel {
            state: raw.state,
            ordering: raw.ordering,
            counterparty: raw.counterparty,
            connection_hops: raw.connection_hops,
            version: raw.version,
            port_id: self.port_id.id,
            channel_id: self.channel_id.id,
        }
    }
}

} // verus!
