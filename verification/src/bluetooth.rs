use vstd::prelude::*;

verus! {

/// A 48-bit Bluetooth device address, held as a number.
#[derive(Clone, Copy, Debug, PartialEq, Eq, Structural)]
pub struct MacAddress(pub u64);

/// Why a device cannot be used right now.
#[derive(Clone, Copy, Debug, PartialEq, Eq, Structural)]
pub enum DeviceAccessError {
    NotConnected,
    /// The device was not seen; a later request looks for it again.
    NotFound,
    Connecting,
    Disconnecting,
    /// The device is connected but silent; it is being reconnected.
    Unhealthy,
}

/// The four situations of a device holder.
#[derive(Clone, Copy, Debug, PartialEq, Eq, Structural)]
pub enum DeviceState {
    Address,
    Connecting,
    Disconnecting,
    Connected,
}

impl DeviceState {
    /// No operation on the holder is in flight.
    pub open spec fn settled(self) -> bool {
        self == DeviceState::Address || self == DeviceState::Connected
    }
}

/// What can happen to a holder.
#[derive(Clone, Copy, Debug, PartialEq, Eq, Structural)]
pub enum DeviceEvent {
    /// Someone asks to connect or reconnect.
    ConnectRequested,
    /// The connect attempt in flight has ended.
    ConnectSettled { connected: bool },
    /// Someone asks to disconnect.
    DisconnectRequested,
    /// The disconnect in flight has ended, successfully or not.
    DisconnectSettled { succeeded: bool },
}

impl DeviceEvent {
    /// A settling event belongs to the operation in flight; requests may
    /// come at any time.
    pub open spec fn enabled(self, state: DeviceState) -> bool {
        match self {
            DeviceEvent::ConnectSettled { .. } => state == DeviceState::Connecting,
            DeviceEvent::DisconnectSettled { .. } => state == DeviceState::Disconnecting,
            _ => true,
        }
    }

    /// The event begins an operation in this state.
    pub open spec fn begins(self, state: DeviceState) -> bool {
        match self {
            DeviceEvent::ConnectRequested => state == DeviceState::Address,
            DeviceEvent::DisconnectRequested => state == DeviceState::Connected,
            _ => false,
        }
    }

    /// The event ends the operation in flight.
    pub open spec fn ends(self) -> bool {
        self is ConnectSettled || self is DisconnectSettled
    }
}

/// The transition table of a holder. A request that meets an operation in
/// flight changes nothing.
pub open spec fn next_state(state: DeviceState, event: DeviceEvent) -> DeviceState {
    match (state, event) {
        (DeviceState::Address, DeviceEvent::ConnectRequested) => DeviceState::Connecting,
        (DeviceState::Connecting, DeviceEvent::ConnectSettled { connected }) => if connected {
            DeviceState::Connected
        } else {
            DeviceState::Address
        },
        (DeviceState::Connected, DeviceEvent::DisconnectRequested) => DeviceState::Disconnecting,
        (DeviceState::Disconnecting, DeviceEvent::DisconnectSettled { .. }) => DeviceState::Address,
        _ => state,
    }
}

/// The state after a sequence of events.
pub open spec fn run(state: DeviceState, events: Seq<DeviceEvent>) -> DeviceState
    decreases events.len(),
{
    if events.len() == 0 {
        state
    } else {
        next_state(run(state, events.drop_last()), events.last())
    }
}

/// Every settling event of the sequence meets the operation it belongs to.
pub open spec fn well_formed(state: DeviceState, events: Seq<DeviceEvent>) -> bool
    decreases events.len(),
{
    events.len() == 0 || (well_formed(state, events.drop_last()) && events.last().enabled(
        run(state, events.drop_last()),
    ))
}

/// Number of operations the sequence begins.
pub open spec fn begun(state: DeviceState, events: Seq<DeviceEvent>) -> nat
    decreases events.len(),
{
    if events.len() == 0 {
        0
    } else {
        begun(state, events.drop_last()) + if events.last().begins(run(state, events.drop_last())) {
            1nat
        } else {
            0nat
        }
    }
}

/// Number of operations the sequence ends.
pub open spec fn ended(events: Seq<DeviceEvent>) -> nat
    decreases events.len(),
{
    if events.len() == 0 {
        0
    } else {
        ended(events.drop_last()) + if events.last().ends() {
            1nat
        } else {
            0nat
        }
    }
}

/// Whatever the order in which requests and their ends arrive at a holder
/// that starts settled, at most one operation is in flight at any time, and
/// once every operation that began has ended the holder is in `Address` or
/// `Connected`.
pub proof fn lemma_interleaving_settles(state: DeviceState, events: Seq<DeviceEvent>)
    requires
        state.settled(),
        well_formed(state, events),
    ensures
        ended(events) <= begun(state, events) <= ended(events) + 1,
        run(state, events).settled() <==> begun(state, events) == ended(events),
    decreases events.len(),
{
    if events.len() > 0 {
        lemma_interleaving_settles(state, events.drop_last());
    }
}

/// The holder becomes `Connected` only when the connect attempt in flight
/// ends with success, and a failed attempt always ends in `Address`.
pub proof fn lemma_connected_only_by_success(state: DeviceState, event: DeviceEvent)
    ensures
        next_state(state, event) == DeviceState::Connected && state != DeviceState::Connected
            ==> state == DeviceState::Connecting && event == (DeviceEvent::ConnectSettled {
            connected: true,
        }),
        state == DeviceState::Connecting && event == (DeviceEvent::ConnectSettled {
            connected: false,
        }) ==> next_state(state, event) == DeviceState::Address,
        state == DeviceState::Disconnecting && event is DisconnectSettled ==> next_state(
            state,
            event,
        ) == DeviceState::Address,
{
}

/// Answer to a connect request.
#[derive(Clone, Copy, Debug, PartialEq, Eq, Structural)]
pub enum ConnectRequest {
    /// An operation is in flight; the request is done.
    Ignored,
    /// The holder is connected: disconnect, and ask again.
    DisconnectFirst,
    /// The holder is now `Connecting`: look for the device with this address
    /// and connect to it.
    Proceed(MacAddress),
}

/// How a connect attempt ended.
pub enum ConnectOutcome<T> {
    /// The handle of the connected device.
    Connected(T),
    /// No device with the address is known, even after discovery.
    NotFound,
    /// Discovery or every connect attempt failed.
    Failed,
}

/// One Bluetooth peripheral: its address and, while connected, its handle.
pub enum Device<T> {
    Address(MacAddress),
    Connecting(MacAddress),
    Disconnecting(MacAddress),
    Connected(T, MacAddress),
}

impl<T> Device<T> {
    pub open spec fn state(&self) -> DeviceState {
        match self {
            Device::Address(_) => DeviceState::Address,
            Device::Connecting(_) => DeviceState::Connecting,
            Device::Disconnecting(_) => DeviceState::Disconnecting,
            Device::Connected(_, _) => DeviceState::Connected,
        }
    }

    pub open spec fn mac(&self) -> MacAddress {
        match self {
            Device::Address(mac) | Device::Connecting(mac) | Device::Disconnecting(mac) => *mac,
            Device::Connected(_, mac) => *mac,
        }
    }

    /// A holder for a device that is not connected yet.
    pub fn new(mac_address: MacAddress) -> (device: Self)
        ensures
            device == Device::<T>::Address(mac_address),
    {
        Device::Address(mac_address)
    }

    /// The address, whatever the state.
    pub fn mac_address(&self) -> (mac: MacAddress)
        ensures
            mac == self.mac(),
    {
        match self {
            Device::Address(mac) | Device::Connecting(mac) | Device::Disconnecting(mac) => *mac,
            Device::Connected(_, mac) => *mac,
        }
    }

    /// The handle of the connected device.
    pub fn get_connected(&self) -> (result: Result<&T, DeviceAccessError>)
        ensures
            match *self {
                Device::Connected(device, _) => result == Ok::<&T, DeviceAccessError>(&device),
                _ => result == Err::<&T, DeviceAccessError>(DeviceAccessError::NotConnected),
            },
    {
        match self {
            Device::Connected(device, _) => Ok(device),
            _ => Err(DeviceAccessError::NotConnected),
        }
    }

    /// Gives up the holder for the handle of the connected device.
    pub fn take_connected(self) -> (handle: Option<T>)
        ensures
            match self {
                Device::Connected(device, _) => handle == Some(device),
                _ => handle.is_none(),
            },
    {
        match self {
            Device::Connected(device, _) => Some(device),
            _ => None,
        }
    }

    pub open spec fn spec_state_label(&self) -> Seq<char> {
        match self {
            Device::Address(_) | Device::Connected(_, _) => ""@,
            Device::Connecting(_) => " [connecting]"@,
            Device::Disconnecting(_) => " [disconnecting]"@,
        }
    }

    /// Text appended to the device's name in messages.
    pub fn state_label(&self) -> (label: &'static str)
        ensures
            label@ == self.spec_state_label(),
    {
        match self {
            Device::Address(_) | Device::Connected(_, _) => "",
            Device::Connecting(_) => " [connecting]",
            Device::Disconnecting(_) => " [disconnecting]",
        }
    }

    /// Handles a request to connect or reconnect. Only a holder in `Address`
    /// changes: it becomes `Connecting`, which makes every request that
    /// comes before the attempt has settled a no-op.
    pub fn connect_or_reconnect(&mut self) -> (request: ConnectRequest)
        ensures
            final(self).state() == next_state(old(self).state(), DeviceEvent::ConnectRequested),
            final(self).mac() == old(self).mac(),
            old(self).state() != DeviceState::Address ==> *final(self) == *old(self),
            request == match old(self).state() {
                DeviceState::Address => ConnectRequest::Proceed(old(self).mac()),
                DeviceState::Connected => ConnectRequest::DisconnectFirst,
                _ => ConnectRequest::Ignored,
            },
    {
        match self {
            Device::Address(mac) => {
                let mac = *mac;
                *self = Device::Connecting(mac);
                ConnectRequest::Proceed(mac)
            },
            Device::Connected(_, _) => ConnectRequest::DisconnectFirst,
            _ => ConnectRequest::Ignored,
        }
    }

    /// Ends the connect attempt in flight: the holder takes the handle on
    /// success and falls back to `Address` otherwise. A device that was not
    /// found is no error; only a failure is.
    pub fn settle_connect(&mut self, outcome: ConnectOutcome<T>) -> (result: Result<
        (),
        DeviceAccessError,
    >)
        requires
            old(self).state() == DeviceState::Connecting,
        ensures
            final(self).state() == next_state(
                old(self).state(),
                DeviceEvent::ConnectSettled { connected: outcome is Connected },
            ),
            *final(self) == match outcome {
                ConnectOutcome::Connected(device) => Device::Connected(device, old(self).mac()),
                _ => Device::Address(old(self).mac()),
            },
            result == match outcome {
                ConnectOutcome::Failed => Err::<(), DeviceAccessError>(
                    DeviceAccessError::NotConnected,
                ),
                ConnectOutcome::NotFound => Err::<(), DeviceAccessError>(
                    DeviceAccessError::NotFound,
                ),
                ConnectOutcome::Connected(_) => Ok::<(), DeviceAccessError>(()),
            },
    {
        let mac = self.mac_address();
        match outcome {
            ConnectOutcome::Connected(device) => {
                *self = Device::Connected(device, mac);
                Ok(())
            },
            ConnectOutcome::NotFound => {
                *self = Device::Address(mac);
                Err(DeviceAccessError::NotFound)
            },
            ConnectOutcome::Failed => {
                *self = Device::Address(mac);
                Err(DeviceAccessError::NotConnected)
            },
        }
    }

    /// Handles a request to disconnect. A connected holder hands out its
    /// handle and becomes `Disconnecting`; any other holder is left alone.
    pub fn disconnect(&mut self) -> (handle: Option<T>)
        ensures
            final(self).state() == next_state(old(self).state(), DeviceEvent::DisconnectRequested),
            final(self).mac() == old(self).mac(),
            match *old(self) {
                Device::Connected(device, mac) => handle == Some(device) && *final(self)
                    == Device::<T>::Disconnecting(mac),
                _ => handle.is_none() && *final(self) == *old(self),
            },
    {
        let mac = self.mac_address();
        if let Device::Connected(_, _) = self {
            let mut connected = Device::Disconnecting(mac);
            core::mem::swap(self, &mut connected);
            connected.take_connected()
        } else {
            None
        }
    }

    /// Ends the disconnect in flight. The holder returns to `Address`
    /// whether or not the device could be told; the failure is handed back
    /// for the record.
    pub fn settle_disconnect(&mut self, outcome: Result<(), String>) -> (result: Result<(), String>)
        requires
            old(self).state() == DeviceState::Disconnecting,
        ensures
            *final(self) == Device::<T>::Address(old(self).mac()),
            final(self).state() == next_state(
                old(self).state(),
                DeviceEvent::DisconnectSettled { succeeded: outcome is Ok },
            ),
            result == outcome,
    {
        let mac = self.mac_address();
        *self = Device::Address(mac);
        outcome
    }

    /// Reads the holder for a caller that wants to use the device. `healthy`
    /// is looked at only while the holder is connected. The flag of the
    /// answer tells whether a reconnect is started in the background.
    pub fn ensure_connected_and_healthy(&self, healthy: bool) -> (access: Access)
        ensures
            access.result == match self.state() {
                DeviceState::Address => Err::<(), DeviceAccessError>(
                    DeviceAccessError::NotConnected,
                ),
                DeviceState::Connecting => Err::<(), DeviceAccessError>(
                    DeviceAccessError::Connecting,
                ),
                DeviceState::Disconnecting => Err::<(), DeviceAccessError>(
                    DeviceAccessError::Disconnecting,
                ),
                DeviceState::Connected => if healthy {
                    Ok::<(), DeviceAccessError>(())
                } else {
                    Err::<(), DeviceAccessError>(DeviceAccessError::Unhealthy)
                },
            },
            access.reconnect == (self.state() == DeviceState::Address || (self.state()
                == DeviceState::Connected && !healthy)),
    {
        match self {
            Device::Address(_) => Access {
                result: Err(DeviceAccessError::NotConnected),
                reconnect: true,
            },
            Device::Connecting(_) => Access {
                result: Err(DeviceAccessError::Connecting),
                reconnect: false,
            },
            Device::Disconnecting(_) => Access {
                result: Err(DeviceAccessError::Disconnecting),
                reconnect: false,
            },
            Device::Connected(_, _) => if healthy {
                Access { result: Ok(()), reconnect: false }
            } else {
                Access { result: Err(DeviceAccessError::Unhealthy), reconnect: true }
            },
        }
    }
}

/// Answer to a caller that wants to use a device.
#[derive(Clone, Copy, Debug)]
pub struct Access {
    pub result: Result<(), DeviceAccessError>,
    /// A reconnect is to be started in the background.
    pub reconnect: bool,
}

/// A disconnect request on a connected holder ends in `Address`, whatever
/// the outcome of telling the device.
pub proof fn lemma_disconnect_ends_in_address(succeeded: bool)
    ensures
        next_state(
            next_state(DeviceState::Connected, DeviceEvent::DisconnectRequested),
            DeviceEvent::DisconnectSettled { succeeded },
        ) == DeviceState::Address,
{
}

/// Longest silence, in milliseconds, of a device that still counts as
/// operating.
pub const MAX_ALLOWED_DATA_FETCH_DELAY_MS: u64 = 60_000;

/// Whether a device is operating: its last data, or if none came yet its
/// initialization, is younger than the allowed delay.
pub fn is_operating(last_data_age_ms: Option<u64>, initialized_ms_ago: u64) -> (yes: bool)
    ensures
        yes == (match last_data_age_ms {
            Some(age) => age,
            None => initialized_ms_ago,
        } < MAX_ALLOWED_DATA_FETCH_DELAY_MS),
{
    let silence: u64 = match last_data_age_ms {
        Some(age) => age,
        None => initialized_ms_ago,
    };
    silence < MAX_ALLOWED_DATA_FETCH_DELAY_MS
}

/// Whether a connected device is healthy: the daemon reports it connected
/// (`None` if the daemon could not be asked) and the device is operating.
pub fn is_healthy(reported_connected: Option<bool>, operating: bool) -> (yes: bool)
    ensures
        yes == (reported_connected == Some(true) && operating),
{
    match reported_connected {
        Some(connected) => connected && operating,
        None => false,
    }
}

/// What one poll of a retried operation means for the retry loop.
#[derive(Clone, Copy, Debug, PartialEq, Eq, Structural)]
pub enum Poll {
    Done,
    /// Try again after the next delay.
    Transient,
    /// Give up.
    Permanent,
}

/// Judges one poll while waiting for a powered adapter: `powered` holds the
/// power flag of each adapter asked, `None` if the daemon could not be asked.
pub fn wait_until_powered(powered: &Option<Vec<bool>>) -> (poll: Poll)
    ensures
        poll == match *powered {
            None => Poll::Permanent,
            Some(flags) => if flags@.contains(true) {
                Poll::Done
            } else {
                Poll::Transient
            },
        },
{
    match powered {
        None => Poll::Permanent,
        Some(flags) => if any_powered(flags) {
            Poll::Done
        } else {
            Poll::Transient
        },
    }
}

fn any_powered(flags: &Vec<bool>) -> (any: bool)
    ensures
        any == flags@.contains(true),
{
    let mut i: usize = 0;
    while i < flags.len()
        invariant
            i <= flags.len(),
            forall|k: int| 0 <= k < i ==> !flags@[k],
        decreases flags.len() - i,
    {
        if flags[i] {
            return true;
        }
        i += 1;
    }
    false
}

/// Judges one poll while waiting for any adapter to appear: `count` is the
/// number of adapters, `None` if the daemon could not be asked.
pub fn wait_for_adapters(count: Option<usize>) -> (poll: Poll)
    ensures
        poll == match count {
            None => Poll::Permanent,
            Some(n) => if n == 0 {
                Poll::Transient
            } else {
                Poll::Done
            },
        },
{
    match count {
        None => Poll::Permanent,
        Some(n) => if n == 0 {
            Poll::Transient
        } else {
            Poll::Done
        },
    }
}

/// Picks the adapter to use among those the daemon reported, by name. With
/// no name wanted no adapter is picked and all are used; a wanted name that
/// no adapter bears is an error.
pub fn select_adapter(names: &Vec<String>, wanted: Option<&String>) -> (result: Result<
    Option<usize>,
    NoSuchAdapter,
>)
    ensures
        match wanted {
            None => result == Ok::<Option<usize>, NoSuchAdapter>(None),
            Some(name) => match result {
                Ok(Some(i)) => i < names.len() && names[i as int]@ == name@ && forall|k: int|
                    0 <= k < i ==> names[k]@ != name@,
                Ok(None) => false,
                Err(_) => forall|k: int| 0 <= k < names.len() ==> names[k]@ != name@,
            },
        },
{
    match wanted {
        None => Ok(None),
        Some(name) => {
            let found = position_of(names, name);
            match found {
                Some(i) => Ok(Some(i)),
                None => Err(NoSuchAdapter),
            }
        },
    }
}

/// No adapter bears the wanted name.
#[derive(Clone, Copy, Debug, PartialEq, Eq, Structural)]
pub struct NoSuchAdapter;

fn position_of(names: &Vec<String>, name: &String) -> (found: Option<usize>)
    ensures
        match found {
            Some(i) => i < names.len() && names[i as int]@ == name@ && forall|k: int|
                0 <= k < i ==> names[k]@ != name@,
            None => forall|k: int| 0 <= k < names.len() ==> names[k]@ != name@,
        },
{
    let mut i: usize = 0;
    while i < names.len()
        invariant
            i <= names.len(),
            forall|k: int| 0 <= k < i ==> names[k]@ != name@,
        decreases names.len() - i,
    {
        if names[i] == *name {
            return Some(i);
        }
        i += 1;
    }
    None
}

/// Index of the first device with the given address.
pub fn find_device_by_mac(devices: &Vec<PeerInfo>, mac_address: MacAddress) -> (found: Option<
    usize,
>)
    ensures
        match found {
            Some(i) => i < devices.len() && devices[i as int].mac_address == mac_address
                && forall|k: int| 0 <= k < i ==> devices[k].mac_address != mac_address,
            None => forall|k: int| 0 <= k < devices.len() ==> devices[k].mac_address != mac_address,
        },
{
    let mut i: usize = 0;
    while i < devices.len()
        invariant
            i <= devices.len(),
            forall|k: int| 0 <= k < i ==> devices[k].mac_address != mac_address,
        decreases devices.len() - i,
    {
        if devices[i].mac_address.0 == mac_address.0 {
            return Some(i);
        }
        i += 1;
    }
    None
}

/// Whether discovery is needed before a connect attempt: only if the device
/// is not known to the daemon yet.
pub fn discovery_if_required(devices: &Vec<PeerInfo>, mac_address: MacAddress) -> (required: bool)
    ensures
        required == (forall|k: int|
            0 <= k < devices.len() ==> devices[k].mac_address != mac_address),
{
    find_device_by_mac(devices, mac_address).is_none()
}

/// Where a connect attempt stands between the moment the holder became
/// `Connecting` and the moment it is settled.
#[derive(Clone, Copy, Debug, PartialEq, Eq, Structural)]
pub enum ConnectPhase {
    /// The daemon is asked for the devices it knows; `discovered` tells
    /// whether a discovery has been made for this attempt.
    Listing { discovered: bool },
    /// A discovery runs.
    Discovering,
    /// The device at this index of the listing is being connected to, with
    /// retries.
    Connecting(usize),
    /// The attempt is over.
    Done,
}

/// What happened during a connect attempt.
#[derive(Clone, Copy, Debug, PartialEq, Eq, Structural)]
pub enum ConnectEvent {
    /// The daemon listed its devices, `None` if it failed to; `found` is
    /// the index of the wanted device in the listing.
    Listed { found: Option<Option<usize>> },
    /// The discovery ended; `started` tells whether it could be started.
    Discovered { started: bool },
    /// Connecting ended, after all retries.
    Connected { succeeded: bool },
}

/// What is done next during a connect attempt.
#[derive(Clone, Copy, Debug, PartialEq, Eq, Structural)]
pub enum ConnectAction {
    /// Ask the daemon for the devices it knows.
    List,
    /// Discover for the configured time.
    Discover,
    /// Connect to the device at this index, with retries.
    Connect(usize),
    /// Settle the holder: with the handle, as not found, or as failed.
    SettleConnected,
    SettleNotFound,
    SettleFailed,
    /// The event does not belong to the phase; nothing is done.
    Nothing,
}

/// The transition table of a connect attempt. The device is looked up
/// first; a discovery is made only if the daemon does not know it, and only
/// once; a device that is still unknown afterwards is not found.
pub open spec fn spec_connect_step(phase: ConnectPhase, event: ConnectEvent) -> (
    ConnectPhase,
    ConnectAction,
) {
    match (phase, event) {
        (ConnectPhase::Listing { discovered }, ConnectEvent::Listed { found }) => match found {
            None => (ConnectPhase::Done, ConnectAction::SettleFailed),
            Some(Some(index)) => (ConnectPhase::Connecting(index), ConnectAction::Connect(index)),
            Some(None) => if discovered {
                (ConnectPhase::Done, ConnectAction::SettleNotFound)
            } else {
                (ConnectPhase::Discovering, ConnectAction::Discover)
            },
        },
        (ConnectPhase::Discovering, ConnectEvent::Discovered { started }) => if started {
            (ConnectPhase::Listing { discovered: true }, ConnectAction::List)
        } else {
            (ConnectPhase::Done, ConnectAction::SettleFailed)
        },
        (ConnectPhase::Connecting(_), ConnectEvent::Connected { succeeded }) => if succeeded {
            (ConnectPhase::Done, ConnectAction::SettleConnected)
        } else {
            (ConnectPhase::Done, ConnectAction::SettleFailed)
        },
        _ => (phase, ConnectAction::Nothing),
    }
}

impl ConnectPhase {
    /// The phase in which an attempt begins, with the first action: the
    /// daemon is asked for the devices it knows.
    pub fn begin() -> (start: (ConnectPhase, ConnectAction))
        ensures
            start == (ConnectPhase::Listing { discovered: false }, ConnectAction::List),
    {
        (ConnectPhase::Listing { discovered: false }, ConnectAction::List)
    }

    /// Steps left, at most, until the attempt is over.
    pub open spec fn remaining(self) -> nat {
        match self {
            ConnectPhase::Listing { discovered: false } => 4,
            ConnectPhase::Discovering => 3,
            ConnectPhase::Listing { discovered: true } => 2,
            ConnectPhase::Connecting(_) => 1,
            ConnectPhase::Done => 0,
        }
    }

    /// The event belongs to the phase.
    pub open spec fn expects(self, event: ConnectEvent) -> bool {
        match (self, event) {
            (ConnectPhase::Listing { .. }, ConnectEvent::Listed { .. }) => true,
            (ConnectPhase::Discovering, ConnectEvent::Discovered { .. }) => true,
            (ConnectPhase::Connecting(_), ConnectEvent::Connected { .. }) => true,
            _ => false,
        }
    }
}

/// Advances a connect attempt by what happened.
pub fn connect_step(phase: ConnectPhase, event: ConnectEvent) -> (next: (
    ConnectPhase,
    ConnectAction,
))
    ensures
        next == spec_connect_step(phase, event),
{
    match (phase, event) {
        (ConnectPhase::Listing { discovered }, ConnectEvent::Listed { found }) => match found {
            None => (ConnectPhase::Done, ConnectAction::SettleFailed),
            Some(Some(index)) => (ConnectPhase::Connecting(index), ConnectAction::Connect(index)),
            Some(None) => if discovered {
                (ConnectPhase::Done, ConnectAction::SettleNotFound)
            } else {
                (ConnectPhase::Discovering, ConnectAction::Discover)
            },
        },
        (ConnectPhase::Discovering, ConnectEvent::Discovered { started }) => if started {
            (ConnectPhase::Listing { discovered: true }, ConnectAction::List)
        } else {
            (ConnectPhase::Done, ConnectAction::SettleFailed)
        },
        (ConnectPhase::Connecting(_), ConnectEvent::Connected { succeeded }) => if succeeded {
            (ConnectPhase::Done, ConnectAction::SettleConnected)
        } else {
            (ConnectPhase::Done, ConnectAction::SettleFailed)
        },
        _ => (phase, ConnectAction::Nothing),
    }
}

/// Every event that belongs to its phase brings the attempt closer to its
/// end, so an attempt is over after four steps at most; it ends exactly
/// when the holder is told to settle; a discovery is made only while none
/// was made for the attempt and the device is unknown; and the holder takes
/// a handle only after connecting succeeded.
pub proof fn lemma_connect_attempt_ends(phase: ConnectPhase, event: ConnectEvent)
    requires
        phase.expects(event),
    ensures
        spec_connect_step(phase, event).0.remaining() < phase.remaining(),
        spec_connect_step(phase, event).0 == ConnectPhase::Done <==> (spec_connect_step(
            phase,
            event,
        ).1 == ConnectAction::SettleConnected || spec_connect_step(phase, event).1
            == ConnectAction::SettleNotFound || spec_connect_step(phase, event).1
            == ConnectAction::SettleFailed),
        spec_connect_step(phase, event).1 == ConnectAction::Discover <==> (phase
            == (ConnectPhase::Listing { discovered: false }) && event == (ConnectEvent::Listed {
            found: Some(None::<usize>),
        })),
        spec_connect_step(phase, event).1 == ConnectAction::SettleConnected <==> (
        phase is Connecting && event == (ConnectEvent::Connected { succeeded: true })),
{
}

/// What the daemon knows of a peer.
#[derive(Debug)]
pub struct PeerInfo {
    /// The daemon's identifier of the peer.
    pub id: String,
    pub mac_address: MacAddress,
    pub name: Option<String>,
    /// Service identifiers the peer advertises.
    pub services: Vec<u128>,
    /// Class of device, if known.
    pub class: Option<u32>,
    pub connected: bool,
}

/// Identifier of the audio-source service.
pub const A2DP_SOURCE_SERVICE_UUID: u128 = 0x0000110a_0000_1000_8000_00805f9b34fb;

/// Bits of the major device class within a class of device.
pub const MAJOR_DEVICE_CLASS_MASK: u32 = 0b00000000000_11111_000000_00;

pub const MAJOR_DEVICE_CLASS_COMPUTER: u32 = 0b00000000000_00001_000000_00;

pub const MAJOR_DEVICE_CLASS_PHONE: u32 = 0b00000000000_00010_000000_00;

/// Whether a peer can stream audio to this host. Advertised services decide
/// if there are any; else computers and phones are taken to be sources.
pub open spec fn spec_has_a2dp_source(services: Seq<u128>, class: Option<u32>) -> bool {
    if services.len() > 0 {
        services.contains(A2DP_SOURCE_SERVICE_UUID)
    } else {
        match class {
            Some(class) => class & MAJOR_DEVICE_CLASS_MASK == MAJOR_DEVICE_CLASS_COMPUTER || class
                & MAJOR_DEVICE_CLASS_MASK == MAJOR_DEVICE_CLASS_PHONE,
            None => false,
        }
    }
}

/// The identifiers of the connected audio sources among `devices`.
pub open spec fn connected_sources(devices: Seq<PeerInfo>) -> Set<Seq<char>> {
    Set::new(
        |id: Seq<char>|
            exists|k: int|
                0 <= k < devices.len() && #[trigger] devices[k].id@ == id && devices[k].connected
                    && spec_has_a2dp_source(devices[k].services@, devices[k].class),
    )
}

/// Remembers which connected peers are audio sources.
#[derive(Debug)]
pub struct A2DPSourceHandler {
    connected_devices: Vec<String>,
}

impl A2DPSourceHandler {
    /// No identifier is held twice.
    pub closed spec fn wf(&self) -> bool {
        forall|i: int, j: int|
            0 <= i < j < self.connected_devices.len() ==> self.connected_devices[i]@
                != self.connected_devices[j]@
    }

    /// The identifiers of the connected audio sources.
    pub closed spec fn view(&self) -> Set<Seq<char>> {
        Set::new(
            |id: Seq<char>|
                exists|k: int|
                    0 <= k < self.connected_devices.len() && #[trigger] self.connected_devices[k]@
                        == id,
        )
    }

    fn position(&self, id: &String) -> (found: Option<usize>)
        ensures
            match found {
                Some(i) => i < self.connected_devices.len() && self.connected_devices[i as int]@
                    == id@,
                None => !self@.contains(id@),
            },
            found is Some ==> self@.contains(id@),
    {
        let mut i: usize = 0;
        while i < self.connected_devices.len()
            invariant
                i <= self.connected_devices.len(),
                forall|k: int| 0 <= k < i ==> self.connected_devices[k]@ != id@,
            decreases self.connected_devices.len() - i,
        {
            if self.connected_devices[i] == *id {
                return Some(i);
            }
            i += 1;
        }
        None
    }

    /// Whether the peer can stream audio to this host.
    pub fn has_a2dp_source(device: &PeerInfo) -> (yes: bool)
        ensures
            yes == spec_has_a2dp_source(device.services@, device.class),
    {
        if device.services.len() > 0 {
            let mut i: usize = 0;
            while i < device.services.len()
                invariant
                    i <= device.services.len(),
                    forall|k: int| 0 <= k < i ==> device.services@[k] != A2DP_SOURCE_SERVICE_UUID,
                decreases device.services.len() - i,
            {
                if device.services[i] == A2DP_SOURCE_SERVICE_UUID {
                    return true;
                }
                i += 1;
            }
            return false;
        }
        match device.class {
            Some(class) => {
                let major: u32 = class & MAJOR_DEVICE_CLASS_MASK;
                major == MAJOR_DEVICE_CLASS_COMPUTER || major == MAJOR_DEVICE_CLASS_PHONE
            },
            None => false,
        }
    }

    /// Starts from the peers the daemon knows: those that are connected and
    /// are audio sources.
    pub fn new(devices: &Vec<PeerInfo>) -> (handler: Self)
        ensures
            handler.wf(),
            handler@ == connected_sources(devices@),
    {
        let mut handler = A2DPSourceHandler { connected_devices: Vec::new() };
        let mut i: usize = 0;
        while i < devices.len()
            invariant
                i <= devices.len(),
                handler.wf(),
                handler@ == connected_sources(devices@.take(i as int)),
            decreases devices.len() - i,
        {
            let ghost before = handler@;
            if devices[i].connected && Self::has_a2dp_source(&devices[i]) {
                handler.insert(&devices[i].id);
            }
            proof {
                let prefix = devices@.take(i as int);
                let next = devices@.take(i + 1);
                assert forall|id: Seq<char>|
                    connected_sources(next).contains(id) <==> handler@.contains(id) by {
                    if connected_sources(next).contains(id) {
                        let k = choose|k: int|
                            0 <= k < next.len() && #[trigger] next[k].id@ == id
                                && next[k].connected && spec_has_a2dp_source(
                                next[k].services@,
                                next[k].class,
                            );
                        if k < i {
                            assert(prefix[k].id@ == id);
                        }
                    }
                    if before.contains(id) {
                        let k = choose|k: int|
                            0 <= k < prefix.len() && #[trigger] prefix[k].id@ == id
                                && prefix[k].connected && spec_has_a2dp_source(
                                prefix[k].services@,
                                prefix[k].class,
                            );
                        assert(next[k].id@ == id);
                    }
                    if devices[i as int].connected && spec_has_a2dp_source(
                        devices[i as int].services@,
                        devices[i as int].class,
                    ) {
                        assert(next[i as int].id@ == devices[i as int].id@);
                    }
                }
                assert(handler@ =~= connected_sources(next));
            }
            i += 1;
        }
        proof {
            assert(devices@.take(devices.len() as int) == devices@);
        }
        handler
    }

    /// Whether any audio source is connected.
    pub fn has_connected(&self) -> (yes: bool)
        ensures
            yes == (self@ != Set::<Seq<char>>::empty()),
    {
        proof {
            if self.connected_devices.len() > 0 {
                assert(self@.contains(self.connected_devices[0]@));
            } else {
                assert(self@ =~= Set::<Seq<char>>::empty());
            }
        }
        self.connected_devices.len() > 0
    }

    /// The identifiers of the connected audio sources, each once.
    pub fn connected_devices(&self) -> (ids: &Vec<String>)
        requires
            self.wf(),
        ensures
            forall|id: Seq<char>|
                self@.contains(id) <==> exists|k: int| 0 <= k < ids.len() && #[trigger] ids[k]@ == id,
            forall|i: int, j: int| 0 <= i < j < ids.len() ==> ids[i]@ != ids[j]@,
    {
        &self.connected_devices
    }

    fn insert(&mut self, id: &String) -> (added: bool)
        requires
            old(self).wf(),
        ensures
            final(self).wf(),
            final(self)@ == old(self)@.insert(id@),
            added == !old(self)@.contains(id@),
    {
        if self.position(id).is_some() {
            proof {
                assert(self@ =~= self@.insert(id@));
            }
            false
        } else {
            let ghost before = self.connected_devices@;
            self.connected_devices.push(id.clone());
            proof {
                assert(self.connected_devices@ == before.push(self.connected_devices@.last()));
                assert forall|x: Seq<char>|
                    self@.contains(x) <==> old(self)@.insert(id@).contains(x) by {
                    if old(self)@.contains(x) {
                        let k = choose|k: int| 0 <= k < before.len() && #[trigger] before[k]@ == x;
                        assert(self.connected_devices[k]@ == x);
                    }
                    if x == id@ {
                        assert(self.connected_devices[before.len() as int]@ == x);
                    }
                }
                assert(self@ =~= old(self)@.insert(id@));
            }
            true
        }
    }

    fn remove(&mut self, id: &String) -> (removed: bool)
        requires
            old(self).wf(),
        ensures
            final(self).wf(),
            final(self)@ == old(self)@.remove(id@),
            removed == old(self)@.contains(id@),
    {
        match self.position(id) {
            Some(i) => {
                let ghost before = self.connected_devices@;
                self.connected_devices.remove(i);
                proof {
                    assert(self.connected_devices@ == before.remove(i as int));
                    assert forall|x: Seq<char>|
                        self@.contains(x) <==> old(self)@.remove(id@).contains(x) by {
                        if self@.contains(x) {
                            let k = choose|k: int|
                                0 <= k < self.connected_devices.len()
                                    && #[trigger] self.connected_devices[k]@ == x;
                            if k < i {
                                assert(before[k]@ == x);
                            } else {
                                assert(before[k + 1]@ == x);
                            }
                        }
                        if old(self)@.remove(id@).contains(x) {
                            let k = choose|k: int|
                                0 <= k < before.len() && #[trigger] before[k]@ == x;
                            if k < i {
                                assert(self.connected_devices[k]@ == x);
                            } else {
                                assert(self.connected_devices[k - 1]@ == x);
                            }
                        }
                    }
                    assert(self@ =~= old(self)@.remove(id@));
                }
                true
            },
            None => {
                proof {
                    assert(self@ =~= self@.remove(id@));
                }
                false
            },
        }
    }

    /// Records that a peer connected or disconnected. Returns whether the
    /// set of connected audio sources changed.
    pub fn handle_connection_change(&mut self, device: &PeerInfo, connected: bool) -> (updated:
        bool)
        requires
            old(self).wf(),
        ensures
            final(self).wf(),
            final(self)@ == if connected {
                if spec_has_a2dp_source(device.services@, device.class) {
                    old(self)@.insert(device.id@)
                } else {
                    old(self)@
                }
            } else {
                old(self)@.remove(device.id@)
            },
            updated == (final(self)@ != old(self)@),
            updated == if connected {
                spec_has_a2dp_source(device.services@, device.class) && !old(self)@.contains(
                    device.id@,
                )
            } else {
                old(self)@.contains(device.id@)
            },
    {
        if connected {
            if Self::has_a2dp_source(device) {
                let added = self.insert(&device.id);
                proof {
                    if added {
                        assert(self@.contains(device.id@));
                    } else {
                        assert(self@ =~= old(self)@);
                    }
                }
                added
            } else {
                false
            }
        } else {
            let removed = self.remove(&device.id);
            proof {
                if removed {
                    assert(!self@.contains(device.id@));
                } else {
                    assert(self@ =~= old(self)@);
                }
            }
            removed
        }
    }
}

/// Commands for the media control of a connected audio source.
#[derive(Clone, Copy, Debug, PartialEq, Eq, Structural)]
pub enum MediaControlCommand {
    Pause,
}

impl MediaControlCommand {
    pub fn name(self) -> (name: &'static str)
        ensures
            name@ == "Pause"@,
    {
        "Pause"
    }
}

/// What to do with the Wi-Fi link to the hotspot.
#[derive(Clone, Copy, Debug, PartialEq, Eq, Structural)]
pub enum WifiAction {
    Connect,
    Disconnect,
}

/// Reaction to a peer that connected or disconnected.
#[derive(Clone, Copy, Debug, PartialEq, Eq, Structural)]
pub struct EventReaction {
    /// The piano re-evaluates who holds the audio hardware.
    pub update_audio: bool,
    pub wifi: Option<WifiAction>,
}

/// Decides what follows from a peer's connection change. The audio hardware
/// is looked at again if the set of audio sources changed. If hotspot
/// handling is on and the peer is the hotspot, the Wi-Fi link goes down when
/// the peer connects and up when it disconnects.
pub fn handle_event(
    sources_updated: bool,
    hotspot: Option<MacAddress>,
    hotspot_handling_enabled: bool,
    device_mac: MacAddress,
    connected: bool,
) -> (reaction: EventReaction)
    ensures
        reaction.update_audio == sources_updated,
        reaction.wifi == if hotspot_handling_enabled && hotspot == Some(device_mac) {
            if connected {
                Some(WifiAction::Disconnect)
            } else {
                Some(WifiAction::Connect)
            }
        } else {
            None::<WifiAction>
        },
{
    let wifi = match hotspot {
        Some(mac) => if hotspot_handling_enabled && mac.0 == device_mac.0 {
            if connected {
                Some(WifiAction::Disconnect)
            } else {
                Some(WifiAction::Connect)
            }
        } else {
            None
        },
        None => None,
    };
    EventReaction { update_audio: sources_updated, wifi }
}

/// A peer's name with its address, or the address alone.
pub fn device_short_info(name: Option<&str>, mac_address: &str) -> (info: String)
    ensures
        info@ == match name {
            Some(name) => name@ + " ("@ + mac_address@ + ")"@,
            None => mac_address@,
        },
{
    match name {
        Some(name) => {
            let mut info = String::from_str(name);
            info.append(" (");
            info.append(mac_address);
            info.append(")");
            info
        },
        None => String::from_str(mac_address),
    }
}

} // verus!
