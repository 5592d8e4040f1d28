use std::str::FromStr;

use ibc::channel::{
    verify_connection_hops_length, ActualOrder, ActualState, ChannelEnd, ChannelError,
    Counterparty, ExpectedOrder, ExpectedState, IdentifiedChannelEnd, Order, RawChannel,
    RawCounterparty, RawIdentifiedChannel, State, Version,
};
use ibc::identifier::{ChannelId, ConnectionId, IdentifierError, PortId};

fn get_dummy_raw_counterparty(channel_id: String) -> RawCounterparty {
    RawCounterparty { port_id: "defaultPort".to_string(), channel_id }
}

fn get_dummy_raw_channel_end(state: i32, channel_id: Option<u64>) -> RawChannel {
    let channel_id = match channel_id {
        Some(id) => format!("channel-{id}"),
        None => "".to_string(),
    };
    RawChannel {
        state,
        ordering: 2,
        counterparty: Some(get_dummy_raw_counterparty(channel_id)),
        connection_hops: vec!["connection-0".to_string()],
        version: "".to_string(), // the version is not validated
    }
}

fn open_end() -> ChannelEnd {
    ChannelEnd::new(
        State::Open,
        Order::Ordered,
        Counterparty::new(PortId::new("transfer".to_string()), Some(ChannelId::new("channel-7".to_string()))),
        vec![ConnectionId::new("connection-0".to_string())],
        Version::new("ics20-1".to_string()),
    )
    .unwrap()
}

#[test]
fn channel_end_try_from_raw() {
    let raw_channel_end = get_dummy_raw_channel_end(2, Some(0));

    let empty_raw_channel_end = RawChannel { counterparty: None, ..raw_channel_end.clone() };

    struct Test {
        name: String,
        params: RawChannel,
        want_pass: bool,
    }

    let tests: Vec<Test> = vec![
        Test {
            name: "Raw channel end with missing counterparty".to_string(),
            params: empty_raw_channel_end,
            want_pass: false,
        },
        Test {
            name: "Raw channel end with incorrect state".to_string(),
            params: RawChannel { state: -1, ..raw_channel_end.clone() },
            want_pass: false,
        },
        Test {
            name: "Raw channel end with incorrect ordering".to_string(),
            params: RawChannel { ordering: -1, ..raw_channel_end.clone() },
            want_pass: false,
        },
        Test {
            name: "Raw channel end with incorrect connection id in connection hops".to_string(),
            params: RawChannel {
                connection_hops: vec!["connection*".to_string()].into_iter().collect(),
                ..raw_channel_end.clone()
            },
            want_pass: false,
        },
        Test {
            name: "Raw channel end with incorrect connection id (has blank space)".to_string(),
            params: RawChannel {
                connection_hops: vec!["con nection".to_string()].into_iter().collect(),
                ..raw_channel_end.clone()
            },
            want_pass: false,
        },
        Test {
            name: "Raw channel end with two correct connection ids in connection hops".to_string(),
            params: RawChannel {
                connection_hops: vec!["connection-1".to_string(), "connection-2".to_string()]
                    .into_iter()
                    .collect(),
                ..raw_channel_end.clone()
            },
            want_pass: true,
        },
        Test {
            name: "Raw channel end with correct params".to_string(),
            params: raw_channel_end,
            want_pass: true,
        },
    ]
    .into_iter()
    .collect();

    for test in tests {
        let p = test.params.clone();

        let ce_result = ChannelEnd::try_from_raw(p);

        assert_eq!(
            test.want_pass,
            ce_result.is_ok(),
            "ChannelEnd::try_from() failed for test {}, \nmsg{:?} with error {:?}",
            test.name,
            test.params.clone(),
            ce_result.err(),
        );
    }
}

#[test]
fn parse_channel_ordering_type() {
    struct Test {
        ordering: &'static str,
        want_res: Order,
        want_err: bool,
    }
    let tests: Vec<Test> = vec![
        Test { ordering: "UNINITIALIZED", want_res: Order::Uninitialized, want_err: false },
        Test { ordering: "UNORDERED", want_res: Order::Unordered, want_err: false },
        Test { ordering: "ORDERED", want_res: Order::Ordered, want_err: false },
        Test { ordering: "UNKNOWN_ORDER", want_res: Order::Uninitialized, want_err: true },
    ]
    .into_iter()
    .collect();

    for test in tests {
        match Order::from_str(test.ordering) {
            Ok(res) => {
                assert!(!test.want_err);
                assert_eq!(test.want_res, res);
            }
            Err(_) => assert!(test.want_err, "parse failed"),
        }
    }
}

#[test]
fn orderings_are_read_in_any_case_with_or_without_their_prefix() {
    assert_eq!(Order::parse("order_ordered").unwrap(), Order::Ordered);
    assert_eq!(Order::parse("ORDER_UNORDERED").unwrap(), Order::Unordered);
    assert_eq!(Order::parse("Order_Order_Uninitialized").unwrap(), Order::Uninitialized);
    assert_eq!(Order::parse("unordered").unwrap(), Order::Unordered);
    assert_eq!(Order::of_word("ordered"), Some(Order::Ordered));
    assert_eq!(Order::of_word("unordered"), Some(Order::Unordered));
    assert_eq!(Order::of_word("uninitialized"), Some(Order::Uninitialized));
    assert_eq!(Order::of_word("ORDERED"), None);
    assert_eq!(Order::of_word("order_ordered"), None);
    match Order::parse("ORDER_NONE") {
        Err(ChannelError::InvalidOrderType {
            expected: ExpectedOrder::KnownName,
            actual: ActualOrder::Name(actual),
        }) => assert_eq!(actual, "ORDER_NONE"),
        other => panic!("unexpected result {other:?}"),
    }
}

#[test]
fn orderings_and_states_have_names_and_numbers() {
    assert_eq!(Order::Uninitialized.as_str(), "ORDER_NONE_UNSPECIFIED");
    assert_eq!(Order::Unordered.as_str(), "ORDER_UNORDERED");
    assert_eq!(Order::Ordered.as_str(), "ORDER_ORDERED");
    assert_eq!(Order::default(), Order::Unordered);
    for (nr, order) in [(0, Order::Uninitialized), (1, Order::Unordered), (2, Order::Ordered)] {
        assert_eq!(Order::from_i32(nr).unwrap(), order);
        assert_eq!(order.number(), nr);
    }
    for nr in [-1, 3, i32::MAX] {
        assert!(matches!(
            Order::from_i32(nr),
            Err(ChannelError::InvalidOrderType {
                expected: ExpectedOrder::KnownNumber,
                actual: ActualOrder::Number(actual),
            }) if actual == nr
        ));
    }

    let states = [
        (0, State::Uninitialized, "UNINITIALIZED"),
        (1, State::Init, "INIT"),
        (2, State::TryOpen, "TRYOPEN"),
        (3, State::Open, "OPEN"),
        (4, State::Closed, "CLOSED"),
    ];
    for (nr, state, name) in states {
        assert_eq!(State::from_i32(nr).unwrap(), state);
        assert_eq!(state.number(), nr);
        assert_eq!(state.as_string(), name);
        assert_eq!(state.is_open(), nr == 3);
    }
    for nr in [-1, 5, i32::MIN] {
        assert!(matches!(
            State::from_i32(nr),
            Err(ChannelError::InvalidState {
                expected: ExpectedState::KnownNumber,
                actual: ActualState::Number(actual),
            }) if actual == nr
        ));
    }
}

#[test]
fn states_are_compared_by_their_progress() {
    assert!(State::Init.less_or_equal_progress(State::Open));
    assert!(State::TryOpen.less_or_equal_progress(State::TryOpen));
    assert!(!State::Closed.less_or_equal_progress(State::Open));
    assert!(State::Uninitialized.less_or_equal_progress(State::Init));
    assert!(!State::Open.less_or_equal_progress(State::TryOpen));
}

#[test]
fn channel_end_needs_a_state_and_an_ordering() {
    let make = |state, ordering| {
        ChannelEnd::new(
            state,
            ordering,
            Counterparty::new(PortId::new("transfer".to_string()), None),
            vec![],
            Version::empty(),
        )
    };
    assert!(matches!(
        make(State::Uninitialized, Order::Ordered),
        Err(ChannelError::InvalidState {
            expected: ExpectedState::NotUninitialized,
            actual: ActualState::State(State::Uninitialized)
        })
    ));
    // the state is checked before the ordering
    assert!(matches!(
        make(State::Uninitialized, Order::Uninitialized),
        Err(ChannelError::InvalidState { .. })
    ));
    assert!(matches!(
        make(State::Init, Order::Uninitialized),
        Err(ChannelError::InvalidOrderType {
            expected: ExpectedOrder::NotUninitialized,
            actual: ActualOrder::Order(Order::Uninitialized)
        })
    ));
    assert!(make(State::Init, Order::Unordered).unwrap().validate_basic().is_ok());

    let unchecked = ChannelEnd::new_without_validation(
        State::Uninitialized,
        Order::Uninitialized,
        Counterparty::new(PortId::new("transfer".to_string()), None),
        vec![],
        Version::empty(),
    );
    assert!(unchecked.validate_basic().is_err());
}

#[test]
fn channel_end_getters_and_setters() {
    let mut end = open_end();
    assert!(end.is_open());
    assert_eq!(end.state(), &State::Open);
    assert_eq!(end.ordering(), &Order::Ordered);
    assert_eq!(end.counterparty().port_id(), &PortId::new("transfer".to_string()));
    assert_eq!(end.counterparty().channel_id(), Some(&ChannelId::new("channel-7".to_string())));
    assert_eq!(end.connection_hops(), &vec![ConnectionId::new("connection-0".to_string())]);
    assert_eq!(end.version(), &Version::new("ics20-1".to_string()));

    end.set_state(State::Closed);
    assert!(!end.is_open());
    assert_eq!(end.state(), &State::Closed);
    end.set_version(Version::new("ics20-2".to_string()));
    assert!(end.version_matches(&Version::new("ics20-2".to_string())));
    assert!(!end.version_matches(&Version::new("ics20-1".to_string())));
    end.set_counterparty_channel_id(ChannelId::new("channel-9".to_string()));
    assert_eq!(end.counterparty().channel_id(), Some(&ChannelId::new("channel-9".to_string())));
    assert_eq!(end.counterparty().port_id(), &PortId::new("transfer".to_string()));
}

#[test]
fn channel_end_checks() {
    let end = open_end();
    assert!(end.verify_state_matches(&State::Open).is_ok());
    assert!(matches!(
        end.verify_state_matches(&State::Init),
        Err(ChannelError::InvalidState {
            expected: ExpectedState::Exactly(State::Init),
            actual: ActualState::State(State::Open)
        })
    ));
    assert!(end.verify_not_closed().is_ok());
    let mut closed = open_end();
    closed.set_state(State::Closed);
    assert!(matches!(
        closed.verify_not_closed(),
        Err(ChannelError::InvalidState {
            expected: ExpectedState::NotClosed,
            actual: ActualState::State(State::Closed)
        })
    ));

    assert!(end.order_matches(&Order::Ordered));
    assert!(!end.order_matches(&Order::Unordered));
    assert!(end.connection_hops_matches(&vec![ConnectionId::new("connection-0".to_string())]));
    assert!(!end.connection_hops_matches(&vec![ConnectionId::new("connection-1".to_string())]));
    assert!(!end.connection_hops_matches(&vec![]));

    let same = Counterparty::new(
        PortId::new("transfer".to_string()),
        Some(ChannelId::new("channel-7".to_string())),
    );
    assert!(end.verify_counterparty_matches(&same).is_ok());
    let without_channel = Counterparty::new(PortId::new("transfer".to_string()), None);
    match end.verify_counterparty_matches(&without_channel) {
        Err(ChannelError::InvalidCounterparty { expected, actual }) => {
            assert_eq!(expected, without_channel);
            assert_eq!(actual, same);
        }
        other => panic!("unexpected result {other:?}"),
    }
    let other_port = Counterparty::new(
        PortId::new("other".to_string()),
        Some(ChannelId::new("channel-7".to_string())),
    );
    assert!(end.verify_counterparty_matches(&other_port).is_err());
}

#[test]
fn channel_runs_over_one_connection() {
    assert!(open_end().verify_connection_hops_length().is_ok());
    let hop = || ConnectionId::new("connection-0".to_string());
    assert!(matches!(
        verify_connection_hops_length(&vec![], 1),
        Err(ChannelError::InvalidConnectionHopsLength { expected: 1, actual: 0 })
    ));
    assert!(matches!(
        verify_connection_hops_length(&vec![hop(), hop()], 1),
        Err(ChannelError::InvalidConnectionHopsLength { expected: 1, actual: 2 })
    ));
    assert!(verify_connection_hops_length(&vec![hop(), hop()], 2).is_ok());
    let two = ChannelEnd::new(
        State::Open,
        Order::Ordered,
        Counterparty::new(PortId::new("transfer".to_string()), None),
        vec![hop(), hop()],
        Version::empty(),
    )
    .unwrap();
    assert!(two.verify_connection_hops_length().is_err());
}

#[test]
fn counterparty_without_channel_is_empty() {
    let none = Counterparty::new(PortId::new("transfer".to_string()), None);
    assert!(none.verify_empty_channel_id().is_ok());
    assert_eq!(none.channel_id(), None);
    let some = Counterparty::new(
        PortId::new("transfer".to_string()),
        Some(ChannelId::new("channel-7".to_string())),
    );
    match some.verify_empty_channel_id() {
        Err(ChannelError::InvalidChannelId { actual }) => {
            assert_eq!(actual, ChannelId::new("channel-7".to_string()))
        }
        other => panic!("unexpected result {other:?}"),
    }
}

#[test]
fn raw_channel_end_round_trip() {
    let raw = RawChannel {
        state: 3,
        ordering: 1,
        counterparty: Some(RawCounterparty {
            port_id: "transfer".to_string(),
            channel_id: "channel-7".to_string(),
        }),
        connection_hops: vec!["connection-1".to_string(), "connection-2".to_string()],
        version: "ics20-1".to_string(),
    };
    let end = ChannelEnd::try_from_raw(raw.clone()).unwrap();
    assert_eq!(end.state(), &State::Open);
    assert_eq!(end.ordering(), &Order::Unordered);
    assert_eq!(end.clone().into_raw(), raw);

    // an empty channel identifier stands for none
    let raw = get_dummy_raw_channel_end(1, None);
    let end = ChannelEnd::try_from_raw(raw.clone()).unwrap();
    assert_eq!(end.counterparty().channel_id(), None);
    assert_eq!(end.into_raw(), raw);
}

#[test]
fn raw_channel_end_is_checked_in_order() {
    let good = get_dummy_raw_channel_end(2, Some(0));
    assert!(matches!(
        ChannelEnd::try_from_raw(RawChannel { state: 9, ordering: 9, ..good.clone() }),
        Err(ChannelError::InvalidState {
            expected: ExpectedState::KnownNumber,
            actual: ActualState::Number(9)
        })
    ));
    assert!(matches!(
        ChannelEnd::try_from_raw(RawChannel { ordering: 9, counterparty: None, ..good.clone() }),
        Err(ChannelError::InvalidOrderType {
            expected: ExpectedOrder::KnownNumber,
            actual: ActualOrder::Number(9)
        })
    ));
    assert!(matches!(
        ChannelEnd::try_from_raw(RawChannel { counterparty: None, ..good.clone() }),
        Err(ChannelError::MissingCounterparty)
    ));
    assert!(matches!(
        ChannelEnd::try_from_raw(RawChannel {
            counterparty: Some(get_dummy_raw_counterparty("ch".to_string())),
            ..good.clone()
        }),
        Err(ChannelError::Identifier(IdentifierError::InvalidLength { length: 2, min: 8, max: 64 }))
    ));
    assert!(matches!(
        ChannelEnd::try_from_raw(RawChannel {
            connection_hops: vec!["connection-0".to_string(), "conn".to_string()],
            ..good.clone()
        }),
        Err(ChannelError::Identifier(IdentifierError::InvalidLength {
            length: 4,
            min: 10,
            max: 64
        }))
    ));
    // the numbers are those of a state and an ordering, but neither is set
    assert!(matches!(
        ChannelEnd::try_from_raw(RawChannel { state: 0, ordering: 0, ..good.clone() }),
        Err(ChannelError::InvalidState { .. })
    ));
    assert!(matches!(
        ChannelEnd::try_from_raw(RawChannel { ordering: 0, ..good }),
        Err(ChannelError::InvalidOrderType { .. })
    ));
}

#[test]
fn identified_channel_end_names_port_and_channel() {
    let end = open_end();
    let identified = IdentifiedChannelEnd::new(
        PortId::new("transfer".to_string()),
        ChannelId::new("channel-0".to_string()),
        end.clone(),
    );
    assert_eq!(identified.port_id, PortId::new("transfer".to_string()));
    assert_eq!(identified.channel_id, ChannelId::new("channel-0".to_string()));
    assert_eq!(identified.channel_end, end);

    let raw = RawIdentifiedChannel {
        state: 3,
        ordering: 2,
        counterparty: Some(RawCounterparty {
            port_id: "transfer".to_string(),
            channel_id: "channel-7".to_string(),
        }),
        connection_hops: vec!["connection-0".to_string()],
        version: "ics20-1".to_string(),
        port_id: "transfer".to_string(),
        channel_id: "channel-0".to_string(),
    };
    assert_eq!(IdentifiedChannelEnd::try_from_raw(raw.clone()).unwrap(), identified);
    assert!(matches!(
        IdentifiedChannelEnd::try_from_raw(RawIdentifiedChannel {
            port_id: "t".to_string(),
            channel_id: "c".to_string(),
            ..raw.clone()
        }),
        Err(ChannelError::Identifier(IdentifierError::InvalidLength { length: 1, min: 2, max: 128 }))
    ));
    assert!(matches!(
        IdentifiedChannelEnd::try_from_raw(RawIdentifiedChannel {
            channel_id: "c".to_string(),
            state: 9,
            ..raw
        }),
        Err(ChannelError::Identifier(IdentifierError::InvalidLength { length: 1, min: 8, max: 64 }))
    ));
}

#[test]
fn channel_end_is_encoded_as_its_protobuf_message() {
    let bytes = open_end().encode_vec();
    // state 3, ordering 2, the counterparty, one hop, the version
    let mut expected = vec![0x08, 3, 0x10, 2];
    expected.extend_from_slice(&[0x1a, 21, 0x0a, 8]);
    expected.extend_from_slice(b"transfer");
    expected.extend_from_slice(&[0x12, 9]);
    expected.extend_from_slice(b"channel-7");
    expected.extend_from_slice(&[0x22, 12]);
    expected.extend_from_slice(b"connection-0");
    expected.extend_from_slice(&[0x2a, 7]);
    expected.extend_from_slice(b"ics20-1");
    assert_eq!(bytes, expected);
}

#[test]
fn identified_channel_end_round_trip() {
    let raw = RawIdentifiedChannel {
        state: 2,
        ordering: 1,
        counterparty: Some(RawCounterparty {
            port_id: "transfer".to_string(),
            channel_id: String::new(),
        }),
        connection_hops: vec!["connection-3".to_string()],
        version: "ics20-1".to_string(),
        port_id: "transfer".to_string(),
        channel_id: "channel-12".to_string(),
    };
    let identified = IdentifiedChannelEnd::try_from_raw(raw.clone()).unwrap();
    assert_eq!(identified.channel_end.state, State::TryOpen);
    assert_eq!(identified.channel_end.ordering, Order::Unordered);
    assert_eq!(identified.into_raw(), raw);
}
