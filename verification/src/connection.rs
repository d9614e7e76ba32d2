//! The connection lifecycle state machine.
//!
//! The machine drives adapter power-on wait, scan, connect, service
//! discovery, notification subscription, and the ready state, as a pure
//! function from state and platform event to next state and action. The
//! surrounding driver performs each action against the radio and feeds
//! the resulting event back in. Connect failures return to scanning
//! under a bounded attempt budget; spending the budget is fatal, as is
//! exhaustion of the platform event source or a missing characteristic.

use crate::demux::EventPredicate;
use crate::errors::DeskError;
use crate::uuid::{
    Uuid, DESK_DATA_IN_UUID_VALUE, DESK_DATA_OUT_UUID_VALUE, DESK_NAME_UUID_VALUE,
    DESK_SERVICE_UUID_VALUE,
};
use vstd::prelude::*;

verus! {

/// The power state the platform reports for the adapter.
#[derive(Clone, Copy, Debug, PartialEq, Eq, Structural)]
pub enum State {
    Unknown,
    Resetting,
    Unsupported,
    Unauthorized,
    PoweredOff,
    PoweredOn,
}

impl From<i64> for State {
    /// Decode the platform's numeric adapter-state code.
    fn from(state: i64) -> (r: State) {
        if state == 1 {
            State::Resetting
        } else if state == 2 {
            State::Unsupported
        } else if state == 3 {
            State::Unauthorized
        } else if state == 4 {
            State::PoweredOff
        } else if state == 5 {
            State::PoweredOn
        } else {
            State::Unknown
        }
    }
}

impl vstd::std_specs::convert::FromSpecImpl<i64> for State {
    open spec fn obeys_from_spec() -> bool {
        true
    }

    open spec fn from_spec(state: i64) -> State {
        if state == 1 {
            State::Resetting
        } else if state == 2 {
            State::Unsupported
        } else if state == 3 {
            State::Unauthorized
        } else if state == 4 {
            State::PoweredOff
        } else if state == 5 {
            State::PoweredOn
        } else {
            State::Unknown
        }
    }
}

/// One entry of a discovery advertisement.
#[derive(Clone, Debug, PartialEq)]
pub enum Advertisement {
    /// The advertised local name.
    LocalNameKey(String),
    /// The advertised transmit power level.
    TxPowerLevel(i64),
    /// Whether the peripheral accepts connections.
    Connectable(bool),
}

/// Whether an advertisement list marks the peripheral connectable.
pub open spec fn spec_is_connectable(ads: Seq<Advertisement>) -> bool {
    exists|i: int| 0 <= i < ads.len() && ads[i] == Advertisement::Connectable(true)
}

/// Decide whether an advertisement list marks the peripheral
/// connectable.
pub fn is_connectable(ads: &Vec<Advertisement>) -> (r: bool)
    ensures
        r == spec_is_connectable(ads@),
{
    let mut i: usize = 0;
    while i < ads.len()
        invariant
            i <= ads@.len(),
            forall|j: int| 0 <= j < i ==> #[trigger] ads@[j] != Advertisement::Connectable(true),
        decreases ads@.len() - i,
    {
        let connectable_here = match &ads[i] {
            Advertisement::Connectable(b) => *b,
            _ => false,
        };
        if connectable_here {
            return true;
        }
        i = i + 1;
    }
    false
}

/// Whether a peripheral's advertised service list includes the desk
/// service. Even a filtered scan surfaces unrelated peripherals at
/// first; those are not desk candidates.
pub fn contains_desk_service(services: &Vec<Uuid>) -> (r: bool)
    ensures
        r == (exists|i: int|
            0 <= i < services@.len() && (#[trigger] services@[i].spec_value())
                == DESK_SERVICE_UUID_VALUE),
{
    let mut i: usize = 0;
    while i < services.len()
        invariant
            i <= services@.len(),
            forall|j: int|
                0 <= j < i ==> (#[trigger] services@[j].spec_value()) != DESK_SERVICE_UUID_VALUE,
        decreases services@.len() - i,
    {
        if services[i].value() == DESK_SERVICE_UUID_VALUE {
            return true;
        }
        i = i + 1;
    }
    false
}

/// The three required characteristic endpoints, as indices into the
/// discovered characteristic list.
#[derive(Clone, Copy, Debug, PartialEq, Eq, Structural)]
pub struct CharacteristicSet {
    /// The command-write endpoint.
    pub command_in: usize,
    /// The telemetry-notify endpoint.
    pub telemetry_out: usize,
    /// The read-only device-name endpoint.
    pub name: usize,
}

/// The first index at or after `from` whose UUID has the given value.
pub open spec fn first_index_with(s: Seq<Uuid>, value: u128, from: int) -> Option<int>
    decreases s.len() - from,
{
    if from < 0 || from >= s.len() {
        None
    } else if s[from].spec_value() == value {
        Some(from)
    } else {
        first_index_with(s, value, from + 1)
    }
}

/// Resolve the three required characteristics out of a discovered
/// characteristic list, each at its first occurrence; any of them
/// missing resolves to nothing.
pub open spec fn spec_resolve(s: Seq<Uuid>) -> Option<CharacteristicSet> {
    match (
        first_index_with(s, DESK_DATA_IN_UUID_VALUE, 0),
        first_index_with(s, DESK_DATA_OUT_UUID_VALUE, 0),
        first_index_with(s, DESK_NAME_UUID_VALUE, 0),
    ) {
        (Some(ci), Some(to), Some(nm)) => Some(
            CharacteristicSet {
                command_in: ci as usize,
                telemetry_out: to as usize,
                name: nm as usize,
            },
        ),
        _ => None,
    }
}

proof fn lemma_first_index_props(s: Seq<Uuid>, value: u128, k: int)
    requires
        0 <= k <= s.len(),
    ensures
        match first_index_with(s, value, k) {
            Some(i) => k <= i < s.len() && s[i].spec_value() == value && (forall|j: int|
                k <= j < i ==> (#[trigger] s[j].spec_value()) != value),
            None => forall|j: int| k <= j < s.len() ==> (#[trigger] s[j].spec_value()) != value,
        },
    decreases s.len() - k,
{
    if k < s.len() {
        lemma_first_index_props(s, value, k + 1);
    }
}

proof fn lemma_first_index_skip(s: Seq<Uuid>, value: u128, k: int)
    requires
        0 <= k <= s.len(),
        forall|j: int| 0 <= j < k ==> (#[trigger] s[j].spec_value()) != value,
    ensures
        first_index_with(s, value, 0) == first_index_with(s, value, k),
    decreases k,
{
    if k > 0 {
        lemma_first_index_skip(s, value, k - 1);
    }
}

/// Resolution succeeds exactly when all three required characteristics
/// occur in the list, and then each resolved index points at its
/// characteristic's first occurrence.
pub proof fn lemma_resolve_props(s: Seq<Uuid>)
    requires
        s.len() <= usize::MAX,
    ensures
        spec_resolve(s) is Some <==> ((exists|i: int|
            0 <= i < s.len() && (#[trigger] s[i].spec_value()) == DESK_DATA_IN_UUID_VALUE)
            && (exists|i: int|
            0 <= i < s.len() && (#[trigger] s[i].spec_value()) == DESK_DATA_OUT_UUID_VALUE)
            && (exists|i: int|
            0 <= i < s.len() && (#[trigger] s[i].spec_value()) == DESK_NAME_UUID_VALUE)),
        spec_resolve(s) matches Some(cs) ==> cs.command_in < s.len()
            && s[cs.command_in as int].spec_value() == DESK_DATA_IN_UUID_VALUE
            && cs.telemetry_out < s.len()
            && s[cs.telemetry_out as int].spec_value() == DESK_DATA_OUT_UUID_VALUE
            && cs.name < s.len() && s[cs.name as int].spec_value() == DESK_NAME_UUID_VALUE,
{
    lemma_first_index_props(s, DESK_DATA_IN_UUID_VALUE, 0);
    lemma_first_index_props(s, DESK_DATA_OUT_UUID_VALUE, 0);
    lemma_first_index_props(s, DESK_NAME_UUID_VALUE, 0);
}

/// Find the first characteristic with the given UUID value.
fn find_uuid(uuids: &Vec<Uuid>, value: u128) -> (r: Option<usize>)
    ensures
        match first_index_with(uuids@, value, 0) {
            Some(i) => r == Some(i as usize),
            None => r is None,
        },
{
    let mut i: usize = 0;
    while i < uuids.len()
        invariant
            i <= uuids@.len(),
            forall|j: int| 0 <= j < i ==> (#[trigger] uuids@[j].spec_value()) != value,
        decreases uuids@.len() - i,
    {
        if uuids[i].value() == value {
            proof {
                lemma_first_index_skip(uuids@, value, i as int);
            }
            return Some(i);
        }
        i = i + 1;
    }
    proof {
        lemma_first_index_skip(uuids@, value, uuids@.len() as int);
    }
    None
}

/// Resolve the three required characteristics by their fixed UUIDs out
/// of the discovered characteristic list. Any of them missing is a
/// fatal discovery error, never retried.
pub fn get_characteristics(uuids: &Vec<Uuid>) -> (r: Result<CharacteristicSet, DeskError>)
    ensures
        match spec_resolve(uuids@) {
            Some(cs) => r == Ok::<CharacteristicSet, DeskError>(cs),
            None => r == Err::<CharacteristicSet, DeskError>(DeskError::CharacteristicMissing),
        },
{
    let command_in = find_uuid(uuids, DESK_DATA_IN_UUID_VALUE);
    let telemetry_out = find_uuid(uuids, DESK_DATA_OUT_UUID_VALUE);
    let name = find_uuid(uuids, DESK_NAME_UUID_VALUE);
    match (command_in, telemetry_out, name) {
        (Some(ci), Some(to), Some(nm)) => Ok(
            CharacteristicSet { command_in: ci, telemetry_out: to, name: nm },
        ),
        _ => Err(DeskError::CharacteristicMissing),
    }
}

/// The lifecycle states of the connection manager.
#[derive(Clone, Copy, Debug, PartialEq, Eq, Structural)]
pub enum ConnectionState {
    AwaitingPower,
    Scanning,
    Connecting,
    DiscoveringServices,
    Subscribing,
    Ready,
    Disconnected,
    Failed,
}

/// What the platform reports to the connection manager.
#[derive(Clone, Debug, PartialEq)]
pub enum ConnectionEvent {
    /// The adapter's power state changed.
    AdapterState(State),
    /// A peripheral advertising the desk service was seen.
    Discovered(Vec<Advertisement>),
    /// The pending connect finished successfully.
    ConnectSucceeded,
    /// The pending connect failed.
    ConnectFailed,
    /// Service discovery finished; the discovered characteristics.
    ServicesDiscovered(Vec<Uuid>),
    /// The telemetry subscription is active.
    SubscribeSucceeded,
    /// The platform event source stopped emitting.
    StreamEnded,
}

/// What the driver must do next against the radio.
#[derive(Clone, Copy, Debug, PartialEq, Eq, Structural)]
pub enum ConnectionAction {
    /// Nothing; wait for the next event.
    Wait,
    /// Start (or restart) the filtered scan.
    StartScan,
    /// Stop scanning and connect to the discovered peripheral.
    Connect,
    /// Request service and characteristic discovery.
    DiscoverServices,
    /// Subscribe to telemetry notifications on the resolved endpoints.
    Subscribe(CharacteristicSet),
    /// Issue one query write to prime an initial telemetry sample.
    PrimeQuery,
    /// Give up with the carried error.
    Fail(DeskError),
}

/// The connection manager: current lifecycle state, connect attempts
/// made, the attempt budget, and what discovery resolved.
#[derive(Clone, Copy, Debug)]
pub struct ConnectionMachine {
    /// The current lifecycle state.
    pub state: ConnectionState,
    /// Connect attempts made so far.
    pub attempts: u8,
    /// How many connect attempts are allowed in all.
    pub budget: u8,
    /// The resolved characteristics, once discovery has run.
    pub characteristics: Option<CharacteristicSet>,
    /// The fatal error, once the machine has failed.
    pub error: Option<DeskError>,
}

impl ConnectionMachine {
    /// The machine's invariant: the budget is positive, attempts never
    /// pass it, scanning always has an attempt left, the initial state
    /// has none spent, and exactly the failed state carries an error.
    pub open spec fn wf(self) -> bool {
        &&& self.budget >= 1
        &&& self.attempts <= self.budget
        &&& (self.state == ConnectionState::Scanning ==> self.attempts < self.budget)
        &&& (self.state == ConnectionState::AwaitingPower ==> self.attempts == 0)
        &&& (self.state == ConnectionState::Failed <==> self.error is Some)
    }

    /// A fresh manager awaiting adapter power, with the given connect
    /// attempt budget.
    pub fn new(budget: u8) -> (r: ConnectionMachine)
        requires
            budget >= 1,
        ensures
            r == (ConnectionMachine {
                state: ConnectionState::AwaitingPower,
                attempts: 0,
                budget,
                characteristics: None,
                error: None,
            }),
            r.wf(),
    {
        ConnectionMachine {
            state: ConnectionState::AwaitingPower,
            attempts: 0,
            budget,
            characteristics: None,
            error: None,
        }
    }

    /// The transition relation of the connection manager, one event at
    /// a time.
    pub open spec fn spec_step(m: ConnectionMachine, e: ConnectionEvent) -> (
        ConnectionMachine,
        ConnectionAction,
    ) {
        match m.state {
            ConnectionState::AwaitingPower => match e {
                ConnectionEvent::AdapterState(s) => if s == State::PoweredOn {
                    (
                        ConnectionMachine { state: ConnectionState::Scanning, ..m },
                        ConnectionAction::StartScan,
                    )
                } else {
                    (m, ConnectionAction::Wait)
                },
                ConnectionEvent::StreamEnded => Self::spec_fail(m, DeskError::ScanTerminated),
                _ => (m, ConnectionAction::Wait),
            },
            ConnectionState::Scanning => match e {
                ConnectionEvent::Discovered(ads) => if spec_is_connectable(ads@) {
                    (
                        ConnectionMachine {
                            state: ConnectionState::Connecting,
                            attempts: (m.attempts + 1) as u8,
                            ..m
                        },
                        ConnectionAction::Connect,
                    )
                } else {
                    (m, ConnectionAction::Wait)
                },
                ConnectionEvent::StreamEnded => Self::spec_fail(m, DeskError::ScanTerminated),
                _ => (m, ConnectionAction::Wait),
            },
            ConnectionState::Connecting => match e {
                ConnectionEvent::ConnectSucceeded => (
                    ConnectionMachine { state: ConnectionState::DiscoveringServices, ..m },
                    ConnectionAction::DiscoverServices,
                ),
                ConnectionEvent::ConnectFailed => if m.attempts < m.budget {
                    (
                        ConnectionMachine { state: ConnectionState::Scanning, ..m },
                        ConnectionAction::StartScan,
                    )
                } else {
                    Self::spec_fail(m, DeskError::ConnectFailed { attempts: m.attempts })
                },
                ConnectionEvent::StreamEnded => Self::spec_fail(m, DeskError::ScanTerminated),
                _ => (m, ConnectionAction::Wait),
            },
            ConnectionState::DiscoveringServices => match e {
                ConnectionEvent::ServicesDiscovered(uuids) => match spec_resolve(uuids@) {
                    Some(cs) => (
                        ConnectionMachine {
                            state: ConnectionState::Subscribing,
                            characteristics: Some(cs),
                            ..m
                        },
                        ConnectionAction::Subscribe(cs),
                    ),
                    None => Self::spec_fail(m, DeskError::CharacteristicMissing),
                },
                ConnectionEvent::StreamEnded => Self::spec_fail(m, DeskError::ScanTerminated),
                _ => (m, ConnectionAction::Wait),
            },
            ConnectionState::Subscribing => match e {
                ConnectionEvent::SubscribeSucceeded => (
                    ConnectionMachine { state: ConnectionState::Ready, ..m },
                    ConnectionAction::PrimeQuery,
                ),
                ConnectionEvent::StreamEnded => Self::spec_fail(m, DeskError::ScanTerminated),
                _ => (m, ConnectionAction::Wait),
            },
            ConnectionState::Ready => match e {
                ConnectionEvent::StreamEnded => Self::spec_fail(m, DeskError::ScanTerminated),
                _ => (m, ConnectionAction::Wait),
            },
            ConnectionState::Disconnected => (m, ConnectionAction::Wait),
            ConnectionState::Failed => (m, ConnectionAction::Wait),
        }
    }

    /// The failed machine for a fatal error, with the matching action.
    pub open spec fn spec_fail(m: ConnectionMachine, err: DeskError) -> (
        ConnectionMachine,
        ConnectionAction,
    ) {
        (
            ConnectionMachine { state: ConnectionState::Failed, error: Some(err), ..m },
            ConnectionAction::Fail(err),
        )
    }

    /// Feed one platform event into the manager; the machine moves as
    /// [`ConnectionMachine::spec_step`] says, and the returned action is
    /// what the driver must perform next.
    pub fn step(&mut self, e: ConnectionEvent) -> (a: ConnectionAction)
        requires
            old(self).wf(),
        ensures
            *final(self) == Self::spec_step(*old(self), e).0,
            a == Self::spec_step(*old(self), e).1,
            final(self).wf(),
    {
        match self.state {
            ConnectionState::AwaitingPower => match e {
                ConnectionEvent::AdapterState(s) => match s {
                    State::PoweredOn => {
                        self.state = ConnectionState::Scanning;
                        ConnectionAction::StartScan
                    },
                    _ => ConnectionAction::Wait,
                },
                ConnectionEvent::StreamEnded => self.fail(DeskError::ScanTerminated),
                _ => ConnectionAction::Wait,
            },
            ConnectionState::Scanning => match e {
                ConnectionEvent::Discovered(ads) => {
                    if is_connectable(&ads) {
                        self.state = ConnectionState::Connecting;
                        self.attempts = self.attempts + 1;
                        ConnectionAction::Connect
                    } else {
                        ConnectionAction::Wait
                    }
                },
                ConnectionEvent::StreamEnded => self.fail(DeskError::ScanTerminated),
                _ => ConnectionAction::Wait,
            },
            ConnectionState::Connecting => match e {
                ConnectionEvent::ConnectSucceeded => {
                    self.state = ConnectionState::DiscoveringServices;
                    ConnectionAction::DiscoverServices
                },
                ConnectionEvent::ConnectFailed => {
                    if self.attempts < self.budget {
                        self.state = ConnectionState::Scanning;
                        ConnectionAction::StartScan
                    } else {
                        let attempts = self.attempts;
                        self.fail(DeskError::ConnectFailed { attempts })
                    }
                },
                ConnectionEvent::StreamEnded => self.fail(DeskError::ScanTerminated),
                _ => ConnectionAction::Wait,
            },
            ConnectionState::DiscoveringServices => match e {
                ConnectionEvent::ServicesDiscovered(uuids) => {
                    match get_characteristics(&uuids) {
                        Ok(cs) => {
                            self.state = ConnectionState::Subscribing;
                            self.characteristics = Some(cs);
                            ConnectionAction::Subscribe(cs)
                        },
                        Err(_) => self.fail(DeskError::CharacteristicMissing),
                    }
                },
                ConnectionEvent::StreamEnded => self.fail(DeskError::ScanTerminated),
                _ => ConnectionAction::Wait,
            },
            ConnectionState::Subscribing => match e {
                ConnectionEvent::SubscribeSucceeded => {
                    self.state = ConnectionState::Ready;
                    ConnectionAction::PrimeQuery
                },
                ConnectionEvent::StreamEnded => self.fail(DeskError::ScanTerminated),
                _ => ConnectionAction::Wait,
            },
            ConnectionState::Ready => match e {
                ConnectionEvent::StreamEnded => self.fail(DeskError::ScanTerminated),
                _ => ConnectionAction::Wait,
            },
            ConnectionState::Disconnected => ConnectionAction::Wait,
            ConnectionState::Failed => ConnectionAction::Wait,
        }
    }

    /// Record a fatal error and move to the failed state.
    fn fail(&mut self, err: DeskError) -> (a: ConnectionAction)
        ensures
            *final(self) == Self::spec_fail(*old(self), err).0,
            a == Self::spec_fail(*old(self), err).1,
    {
        self.state = ConnectionState::Failed;
        self.error = Some(err);
        ConnectionAction::Fail(err)
    }

    /// A deliberate teardown: from any state the manager moves to the
    /// terminal disconnected state; the driver must release the radio
    /// connection on every such path.
    pub fn disconnect(&mut self)
        requires
            old(self).wf(),
            old(self).state != ConnectionState::Failed,
        ensures
            *final(self) == (ConnectionMachine {
                state: ConnectionState::Disconnected,
                ..*old(self)
            }),
            final(self).wf(),
    {
        self.state = ConnectionState::Disconnected;
    }
}

/// One discovery-and-connect round that fails: a connectable peripheral
/// is seen, the connect is attempted, and the attempt fails.
pub open spec fn spec_failure_cycle(m: ConnectionMachine, ads: Vec<Advertisement>)
    -> ConnectionMachine {
    ConnectionMachine::spec_step(
        ConnectionMachine::spec_step(m, ConnectionEvent::Discovered(ads)).0,
        ConnectionEvent::ConnectFailed,
    ).0
}

/// `n` consecutive failing discovery-and-connect rounds.
pub open spec fn spec_failure_cycles(m: ConnectionMachine, ads: Vec<Advertisement>, n: nat)
    -> ConnectionMachine
    decreases n,
{
    if n == 0 {
        m
    } else {
        spec_failure_cycle(spec_failure_cycles(m, ads, (n - 1) as nat), ads)
    }
}

/// The retry bound: from a scanning manager, consecutive connect
/// failures leave it scanning with one more attempt counted each, until
/// the attempt budget is spent; the round that spends it moves the
/// manager to the failed state, whose error carries the full number of
/// attempts, and every later round leaves that outcome unchanged.
pub proof fn lemma_retry_bound(m: ConnectionMachine, ads: Vec<Advertisement>, n: nat)
    requires
        m.wf(),
        m.state == ConnectionState::Scanning,
        spec_is_connectable(ads@),
    ensures
        m.attempts + n < m.budget ==> (spec_failure_cycles(m, ads, n).state
            == ConnectionState::Scanning && spec_failure_cycles(m, ads, n).attempts == m.attempts
            + n && spec_failure_cycles(m, ads, n).budget == m.budget),
        m.attempts + n >= m.budget ==> (spec_failure_cycles(m, ads, n).state
            == ConnectionState::Failed && spec_failure_cycles(m, ads, n).error == Some(
            DeskError::ConnectFailed { attempts: m.budget },
        )),
    decreases n,
{
    if n > 0 {
        lemma_retry_bound(m, ads, (n - 1) as nat);
    }
}

/// The events the peripheral delegate emits, as one ordered stream that
/// the demultiplexer splits into per-concern sub-streams.
#[derive(Clone, Debug, PartialEq)]
pub enum PeripheralEvent {
    /// Service discovery finished.
    DiscoveredServices,
    /// Characteristic discovery finished for one service; the
    /// characteristics found.
    DiscoveredCharacteristics(Vec<Uuid>),
    /// A subscribed characteristic pushed a fresh value.
    UpdatedCharacteristicValue(Vec<u8>),
    /// A characteristic write completed.
    WroteCharacteristicValue,
}

/// Which kind of peripheral event a sub-stream wants.
#[derive(Clone, Copy, Debug, PartialEq, Eq, Structural)]
pub enum PeripheralEventKind {
    DiscoveredServices,
    DiscoveredCharacteristics,
    UpdatedCharacteristicValue,
    WroteCharacteristicValue,
}

/// A demultiplexer predicate selecting one kind of peripheral event.
#[derive(Clone, Copy, Debug, PartialEq, Eq, Structural)]
pub struct PeripheralEventFilter {
    /// The kind of event this sub-stream receives.
    pub kind: PeripheralEventKind,
}

impl EventPredicate<PeripheralEvent> for PeripheralEventFilter {
    open spec fn accepts(&self, e: &PeripheralEvent) -> bool {
        match *e {
            PeripheralEvent::DiscoveredServices => self.kind
                == PeripheralEventKind::DiscoveredServices,
            PeripheralEvent::DiscoveredCharacteristics(_) => self.kind
                == PeripheralEventKind::DiscoveredCharacteristics,
            PeripheralEvent::UpdatedCharacteristicValue(_) => self.kind
                == PeripheralEventKind::UpdatedCharacteristicValue,
            PeripheralEvent::WroteCharacteristicValue => self.kind
                == PeripheralEventKind::WroteCharacteristicValue,
        }
    }

    fn eval(&self, e: &PeripheralEvent) -> (r: bool)
        ensures
            r == self.accepts(e),
    {
        let here = match e {
            PeripheralEvent::DiscoveredServices => PeripheralEventKind::DiscoveredServices,
            PeripheralEvent::DiscoveredCharacteristics(_) => {
                PeripheralEventKind::DiscoveredCharacteristics
            },
            PeripheralEvent::UpdatedCharacteristicValue(_) => {
                PeripheralEventKind::UpdatedCharacteristicValue
            },
            PeripheralEvent::WroteCharacteristicValue => {
                PeripheralEventKind::WroteCharacteristicValue
            },
        };
        self.kind == here
    }
}

} // verus!
