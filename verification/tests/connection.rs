use uplift_desk::connection::{
    get_characteristics, is_connectable, Advertisement, ConnectionAction, ConnectionEvent,
    ConnectionMachine, ConnectionState, State,
};
use uplift_desk::errors::DeskError;
use uplift_desk::uuid::{
    Uuid, DESK_DATA_IN_UUID_VALUE, DESK_DATA_OUT_UUID_VALUE, DESK_NAME_UUID_VALUE,
};

fn connectable_ads() -> Vec<Advertisement> {
    vec![
        Advertisement::LocalNameKey("desk".to_string()),
        Advertisement::TxPowerLevel(-40),
        Advertisement::Connectable(true),
    ]
}

fn all_characteristics() -> Vec<Uuid> {
    vec![
        Uuid::from_value(DESK_NAME_UUID_VALUE),
        Uuid::from_value(DESK_DATA_IN_UUID_VALUE),
        Uuid::from_value(DESK_DATA_OUT_UUID_VALUE),
    ]
}

#[test]
fn adapter_state_codes() {
    assert_eq!(State::from(0), State::Unknown);
    assert_eq!(State::from(1), State::Resetting);
    assert_eq!(State::from(2), State::Unsupported);
    assert_eq!(State::from(3), State::Unauthorized);
    assert_eq!(State::from(4), State::PoweredOff);
    assert_eq!(State::from(5), State::PoweredOn);
    assert_eq!(State::from(99), State::Unknown);
}

#[test]
fn connectable_needs_the_flag() {
    assert!(is_connectable(&connectable_ads()));
    assert!(!is_connectable(&vec![
        Advertisement::LocalNameKey("desk".to_string()),
        Advertisement::Connectable(false),
    ]));
    assert!(!is_connectable(&vec![]));
}

#[test]
fn resolves_all_three_characteristics() {
    let set = get_characteristics(&all_characteristics()).unwrap();
    assert_eq!(set.name, 0);
    assert_eq!(set.command_in, 1);
    assert_eq!(set.telemetry_out, 2);
}

#[test]
fn missing_characteristic_is_fatal() {
    let only_two = vec![
        Uuid::from_value(DESK_DATA_IN_UUID_VALUE),
        Uuid::from_value(DESK_DATA_OUT_UUID_VALUE),
    ];
    assert_eq!(
        get_characteristics(&only_two),
        Err(DeskError::CharacteristicMissing)
    );
    assert_eq!(
        get_characteristics(&vec![]),
        Err(DeskError::CharacteristicMissing)
    );
}

#[test]
fn happy_path_reaches_ready() {
    let mut machine = ConnectionMachine::new(3);
    assert_eq!(machine.state, ConnectionState::AwaitingPower);

    // other adapter states are ignored
    let action = machine.step(ConnectionEvent::AdapterState(State::PoweredOff));
    assert_eq!(action, ConnectionAction::Wait);
    assert_eq!(machine.state, ConnectionState::AwaitingPower);

    let action = machine.step(ConnectionEvent::AdapterState(State::PoweredOn));
    assert_eq!(action, ConnectionAction::StartScan);
    assert_eq!(machine.state, ConnectionState::Scanning);

    // a non-connectable advertisement keeps scanning
    let action = machine.step(ConnectionEvent::Discovered(vec![Advertisement::Connectable(
        false,
    )]));
    assert_eq!(action, ConnectionAction::Wait);
    assert_eq!(machine.state, ConnectionState::Scanning);

    let action = machine.step(ConnectionEvent::Discovered(connectable_ads()));
    assert_eq!(action, ConnectionAction::Connect);
    assert_eq!(machine.state, ConnectionState::Connecting);
    assert_eq!(machine.attempts, 1);

    let action = machine.step(ConnectionEvent::ConnectSucceeded);
    assert_eq!(action, ConnectionAction::DiscoverServices);
    assert_eq!(machine.state, ConnectionState::DiscoveringServices);

    let action = machine.step(ConnectionEvent::ServicesDiscovered(all_characteristics()));
    match action {
        ConnectionAction::Subscribe(set) => {
            assert_eq!(set.command_in, 1);
            assert_eq!(set.telemetry_out, 2);
            assert_eq!(set.name, 0);
        }
        other => panic!("expected a subscribe action, got {other:?}"),
    }
    assert_eq!(machine.state, ConnectionState::Subscribing);

    let action = machine.step(ConnectionEvent::SubscribeSucceeded);
    assert_eq!(action, ConnectionAction::PrimeQuery);
    assert_eq!(machine.state, ConnectionState::Ready);
}

#[test]
fn retry_budget_is_exact() {
    let budget = 3u8;
    let mut machine = ConnectionMachine::new(budget);
    machine.step(ConnectionEvent::AdapterState(State::PoweredOn));

    for round in 1..budget {
        let action = machine.step(ConnectionEvent::Discovered(connectable_ads()));
        assert_eq!(action, ConnectionAction::Connect);
        let action = machine.step(ConnectionEvent::ConnectFailed);
        assert_eq!(action, ConnectionAction::StartScan);
        assert_eq!(machine.state, ConnectionState::Scanning);
        assert_eq!(machine.attempts, round);
    }

    let action = machine.step(ConnectionEvent::Discovered(connectable_ads()));
    assert_eq!(action, ConnectionAction::Connect);
    let action = machine.step(ConnectionEvent::ConnectFailed);
    assert_eq!(
        action,
        ConnectionAction::Fail(DeskError::ConnectFailed { attempts: budget })
    );
    assert_eq!(machine.state, ConnectionState::Failed);
    assert_eq!(
        machine.error,
        Some(DeskError::ConnectFailed { attempts: budget })
    );
}

#[test]
fn missing_characteristic_never_retries() {
    let mut machine = ConnectionMachine::new(3);
    machine.step(ConnectionEvent::AdapterState(State::PoweredOn));
    machine.step(ConnectionEvent::Discovered(connectable_ads()));
    machine.step(ConnectionEvent::ConnectSucceeded);

    let only_one = vec![Uuid::from_value(DESK_DATA_IN_UUID_VALUE)];
    let action = machine.step(ConnectionEvent::ServicesDiscovered(only_one));
    assert_eq!(
        action,
        ConnectionAction::Fail(DeskError::CharacteristicMissing)
    );
    assert_eq!(machine.state, ConnectionState::Failed);
}

#[test]
fn stream_end_is_fatal_everywhere() {
    let mut machine = ConnectionMachine::new(2);
    let action = machine.step(ConnectionEvent::StreamEnded);
    assert_eq!(action, ConnectionAction::Fail(DeskError::ScanTerminated));
    assert_eq!(machine.state, ConnectionState::Failed);
    assert_eq!(machine.error, Some(DeskError::ScanTerminated));

    let mut scanning = ConnectionMachine::new(2);
    scanning.step(ConnectionEvent::AdapterState(State::PoweredOn));
    let action = scanning.step(ConnectionEvent::StreamEnded);
    assert_eq!(action, ConnectionAction::Fail(DeskError::ScanTerminated));
}

#[test]
fn deliberate_disconnect_is_terminal() {
    let mut machine = ConnectionMachine::new(2);
    machine.step(ConnectionEvent::AdapterState(State::PoweredOn));
    machine.disconnect();
    assert_eq!(machine.state, ConnectionState::Disconnected);

    let action = machine.step(ConnectionEvent::Discovered(connectable_ads()));
    assert_eq!(action, ConnectionAction::Wait);
    assert_eq!(machine.state, ConnectionState::Disconnected);
}
