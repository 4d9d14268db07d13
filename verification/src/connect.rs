//! The device connector and the connection supervisor.
//!
//! Connecting is a fixed sequence of transport operations with a decision
//! after each: enumerate adapters, search the already-visible peripherals
//! by display name, scan once and search again if needed, connect if not
//! yet connected, then discover services. The transport operations
//! themselves block on the outside world, so the sequence is modelled here
//! as a state machine: the caller performs the action each state asks for
//! and feeds the observed result back as an event. Every decision, and the
//! exact error each step can fail with, is fixed by `spec_connect_step`.
//!
//! The supervisor is the independent polling loop that watches peripheral
//! connectivity; its whole decision is `supervisor_verdict`.

use vstd::prelude::*;
use crate::errors::AttrError;

verus! {

/// The fixed UUID of the one GATT service this system speaks to.
pub const ORNAMENT_SERVICE_UUID: u128 = 0x895225fe_acaf_4f21_b0e7_1adb51e11653;

/// Where the connect sequence stands. `Connected` and `Failed` are
/// terminal.
#[derive(Clone, Copy, Debug, PartialEq, Eq, Structural)]
pub enum ConnectState {
    /// Nothing done yet: the adapters must be enumerated.
    Begin,
    /// An adapter is selected: search the already-visible peripherals.
    SearchBeforeScan,
    /// The peripheral was not visible: scan for the configured duration.
    Scanning,
    /// The scan finished: search the visible peripherals once more.
    SearchAfterScan,
    /// The peripheral was found: query whether it is already connected.
    CheckingConnection,
    /// The peripheral is not yet connected: issue the connect.
    Connecting,
    /// The peripheral is connected: discover its services.
    Discovering,
    /// Terminal success: the peripheral's characteristic catalog is
    /// populated.
    Connected,
    /// Terminal failure, carrying which step failed.
    Failed(AttrError),
}

/// What the caller observed after performing the pending action.
#[derive(Clone, Copy, Debug, PartialEq, Eq, Structural)]
pub enum ConnectEvent {
    /// How many adapters the platform reported.
    AdapterCount(usize),
    /// Whether a peripheral with the wanted display name was found.
    Found(bool),
    /// The scan window elapsed.
    ScanFinished,
    /// Whether the found peripheral reported itself already connected.
    IsConnected(bool),
    /// Whether the connect operation succeeded.
    ConnectResult(bool),
    /// Whether service discovery succeeded.
    DiscoverResult(bool),
}

/// The transport operation a state asks the caller to perform next.
#[derive(Clone, Copy, Debug, PartialEq, Eq, Structural)]
pub enum ConnectAction {
    ListAdapters,
    SearchPeripherals,
    Scan,
    QueryConnection,
    IssueConnect,
    DiscoverServices,
    /// Terminal: nothing further to do.
    Stop,
}

/// The action each state asks for. Terminal states ask for nothing.
pub open spec fn spec_connect_action(s: ConnectState) -> ConnectAction {
    match s {
        ConnectState::Begin => ConnectAction::ListAdapters,
        ConnectState::SearchBeforeScan => ConnectAction::SearchPeripherals,
        ConnectState::Scanning => ConnectAction::Scan,
        ConnectState::SearchAfterScan => ConnectAction::SearchPeripherals,
        ConnectState::CheckingConnection => ConnectAction::QueryConnection,
        ConnectState::Connecting => ConnectAction::IssueConnect,
        ConnectState::Discovering => ConnectAction::DiscoverServices,
        ConnectState::Connected => ConnectAction::Stop,
        ConnectState::Failed(_) => ConnectAction::Stop,
    }
}

/// The full transition relation of the connect sequence: no adapter fails
/// `NoAdapter`; a peripheral absent even after the scan fails
/// `DeviceNotFound`; a failed connect fails `ConnectFailed`; failed service
/// discovery fails `DiscoveryFailed`; an already-connected peripheral skips
/// straight to discovery. An event that does not answer the pending action
/// changes nothing.
pub open spec fn spec_connect_step(s: ConnectState, e: ConnectEvent) -> ConnectState {
    match (s, e) {
        (ConnectState::Begin, ConnectEvent::AdapterCount(n)) => if n == 0 {
            ConnectState::Failed(AttrError::NoAdapter)
        } else {
            ConnectState::SearchBeforeScan
        },
        (ConnectState::SearchBeforeScan, ConnectEvent::Found(f)) => if f {
            ConnectState::CheckingConnection
        } else {
            ConnectState::Scanning
        },
        (ConnectState::Scanning, ConnectEvent::ScanFinished) => ConnectState::SearchAfterScan,
        (ConnectState::SearchAfterScan, ConnectEvent::Found(f)) => if f {
            ConnectState::CheckingConnection
        } else {
            ConnectState::Failed(AttrError::DeviceNotFound)
        },
        (ConnectState::CheckingConnection, ConnectEvent::IsConnected(c)) => if c {
            ConnectState::Discovering
        } else {
            ConnectState::Connecting
        },
        (ConnectState::Connecting, ConnectEvent::ConnectResult(ok)) => if ok {
            ConnectState::Discovering
        } else {
            ConnectState::Failed(AttrError::ConnectFailed)
        },
        (ConnectState::Discovering, ConnectEvent::DiscoverResult(ok)) => if ok {
            ConnectState::Connected
        } else {
            ConnectState::Failed(AttrError::DiscoveryFailed)
        },
        (other, _) => other,
    }
}

/// Advance the connect sequence by one observed event.
pub fn connect_step(s: ConnectState, e: ConnectEvent) -> (n: ConnectState)
    ensures
        n == spec_connect_step(s, e),
{
    match (s, e) {
        (ConnectState::Begin, ConnectEvent::AdapterCount(n)) => if n == 0 {
            ConnectState::Failed(AttrError::NoAdapter)
        } else {
            ConnectState::SearchBeforeScan
        },
        (ConnectState::SearchBeforeScan, ConnectEvent::Found(f)) => if f {
            ConnectState::CheckingConnection
        } else {
            ConnectState::Scanning
        },
        (ConnectState::Scanning, ConnectEvent::ScanFinished) => ConnectState::SearchAfterScan,
        (ConnectState::SearchAfterScan, ConnectEvent::Found(f)) => if f {
            ConnectState::CheckingConnection
        } else {
            ConnectState::Failed(AttrError::DeviceNotFound)
        },
        (ConnectState::CheckingConnection, ConnectEvent::IsConnected(c)) => if c {
            ConnectState::Discovering
        } else {
            ConnectState::Connecting
        },
        (ConnectState::Connecting, ConnectEvent::ConnectResult(ok)) => if ok {
            ConnectState::Discovering
        } else {
            ConnectState::Failed(AttrError::ConnectFailed)
        },
        (ConnectState::Discovering, ConnectEvent::DiscoverResult(ok)) => if ok {
            ConnectState::Connected
        } else {
            ConnectState::Failed(AttrError::DiscoveryFailed)
        },
        (other, _) => other,
    }
}

/// The action to perform in a state.
pub fn connect_action(s: &ConnectState) -> (a: ConnectAction)
    ensures
        a == spec_connect_action(*s),
{
    match s {
        ConnectState::Begin => ConnectAction::ListAdapters,
        ConnectState::SearchBeforeScan => ConnectAction::SearchPeripherals,
        ConnectState::Scanning => ConnectAction::Scan,
        ConnectState::SearchAfterScan => ConnectAction::SearchPeripherals,
        ConnectState::CheckingConnection => ConnectAction::QueryConnection,
        ConnectState::Connecting => ConnectAction::IssueConnect,
        ConnectState::Discovering => ConnectAction::DiscoverServices,
        ConnectState::Connected => ConnectAction::Stop,
        ConnectState::Failed(_) => ConnectAction::Stop,
    }
}

/// Whether a peripheral's advertised display name matches the wanted one.
/// A peripheral that advertises no name matches nothing.
pub open spec fn name_matches(entry: Option<String>, target: Seq<char>) -> bool {
    match entry {
        Some(s) => s@ == target,
        None => false,
    }
}

/// Search a list of advertised peripheral names for the wanted display
/// name: the position of the first match, or `None` exactly when no
/// peripheral advertises that name.
pub fn find_by_name(names: &Vec<Option<String>>, target: &String) -> (r: Option<usize>)
    ensures
        r is Some ==> 0 <= r->Some_0 < names@.len() && name_matches(names@[r->Some_0 as int], target@)
            && (forall|j: int| 0 <= j < r->Some_0 ==> !name_matches(names@[j], target@)),
        (r is Some <==> exists|j: int| 0 <= j < names@.len() && name_matches(names@[j], target@)),
{
    let n = names.len();
    let mut i: usize = 0;
    while i < n
        invariant
            n == names@.len(),
            i <= n,
            forall|j: int| 0 <= j < i ==> !name_matches(names@[j], target@),
        decreases n - i,
    {
        match &names[i] {
            Some(s) => {
                if *s == *target {
                    proof {
                        assert(name_matches(names@[i as int], target@));
                    }
                    return Some(i);
                }
            },
            None => {},
        }
        i += 1;
    }
    None
}

/// Search a peripheral's discovered service UUIDs for the system's fixed
/// service UUID: the position of the first match, or `ServiceNotFound`
/// exactly when the service is absent.
pub fn find_service(service_uuids: &Vec<u128>) -> (r: Result<usize, AttrError>)
    ensures
        r is Ok ==> 0 <= r->Ok_0 < service_uuids@.len() && service_uuids@[r->Ok_0 as int]
            == ORNAMENT_SERVICE_UUID && (forall|j: int|
            0 <= j < r->Ok_0 ==> service_uuids@[j] != ORNAMENT_SERVICE_UUID),
        r is Err ==> r->Err_0 is ServiceNotFound,
        (r is Ok <==> exists|j: int|
            0 <= j < service_uuids@.len() && service_uuids@[j] == ORNAMENT_SERVICE_UUID),
{
    let n = service_uuids.len();
    let mut i: usize = 0;
    while i < n
        invariant
            n == service_uuids@.len(),
            i <= n,
            forall|j: int| 0 <= j < i ==> service_uuids@[j] != ORNAMENT_SERVICE_UUID,
        decreases n - i,
    {
        if service_uuids[i] == ORNAMENT_SERVICE_UUID {
            return Ok(i);
        }
        i += 1;
    }
    Err(AttrError::ServiceNotFound)
}

/// What the supervisor decides after one connectivity poll.
#[derive(Clone, Copy, Debug, PartialEq, Eq, Structural)]
pub enum SupervisorVerdict {
    /// The peripheral is still connected: sleep and poll again.
    KeepRunning,
    /// The peripheral is gone: the carried condition is fatal for the
    /// whole process; no reconnection is attempted.
    Fatal(AttrError),
}

/// The supervisor's whole decision: a connected peripheral keeps the loop
/// running, a disconnected one raises the fatal `Disconnected` condition.
pub fn supervisor_verdict(connected: bool) -> (v: SupervisorVerdict)
    ensures
        connected <==> v is KeepRunning,
        !connected ==> v == SupervisorVerdict::Fatal(AttrError::Disconnected),
{
    if connected {
        SupervisorVerdict::KeepRunning
    } else {
        SupervisorVerdict::Fatal(AttrError::Disconnected)
    }
}

} // verus!
