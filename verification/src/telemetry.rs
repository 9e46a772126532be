//! The telemetry publisher: one long-lived connection to a broker that is
//! told of every change of state. This module holds its decisions; the task
//! around it performs what is asked and reports what came of it.

use vstd::prelude::*;
use crate::config::{MQTT_PORT, MQTT_RECONNECT_DELAY_SECS, NETWORK_POLL_MILLIS};
use crate::network::{ConnectionState, IpAddress, Ipv4Address, NetworkStatus};
use crate::types::LedColorMessage;

verus! {

/// Why the publisher gave up a connection, or did not get one.
#[derive(Debug, Clone, Copy, PartialEq, Eq, Structural)]
pub enum MqttError {
    DnsResolutionFailed,
    DnsTimeout,
    ConnectionFailed,
    ProtocolError,
    PublishFailed,
}

/// What came of the lookup of the broker's name.
#[derive(Debug, PartialEq, Eq)]
pub enum DnsReply {
    /// The addresses that the name stands for, in the order received.
    Addresses(Vec<IpAddress>),
    /// The lookup failed.
    QueryFailed,
    /// No answer came in time.
    TimedOut,
}

/// The two destinations of a publication.
#[derive(Debug, Clone, Copy, PartialEq, Eq, Structural)]
pub enum MqttTopic {
    Color,
    Mode,
}

/// How hard the broker is to try to deliver a publication.
#[derive(Debug, Clone, Copy, PartialEq, Eq, Structural)]
pub enum Delivery {
    /// Sent once and not confirmed.
    AtMostOnce,
    /// Sent until confirmed.
    AtLeastOnce,
    /// Sent and confirmed in two steps.
    ExactlyOnce,
}

/// Where the publisher stands.
#[derive(Debug, Clone, Copy, PartialEq, Eq)]
pub enum MqttState {
    /// About to look at the network.
    WaitingForNetwork,
    /// The network was not ready; waiting before the next look.
    NetworkDown,
    /// Looking up the broker's name.
    Resolving,
    /// Opening the connection to the broker.
    Connecting(Ipv4Address),
    /// Introducing itself to the broker.
    Authenticating,
    /// Connected; waiting for the next change of state.
    AwaitingState,
    /// Publishing the name of the colour of this state.
    PublishingColor(LedColorMessage),
    /// Publishing the mode of this state.
    PublishingMode(LedColorMessage),
    /// Something failed; waiting before the next attempt.
    Backoff(MqttError),
}

/// What the task reports back.
#[derive(Debug, PartialEq, Eq)]
pub enum MqttEvent {
    /// A look at the network.
    Network(NetworkStatus),
    /// The lookup of the broker's name ended.
    Resolved(DnsReply),
    /// The attempt to connect ended; `true` if the connection stands.
    Connected(bool),
    /// The broker answered the introduction; `true` if it accepted.
    Authenticated(bool),
    /// The subscription delivered a state.
    StateChanged(LedColorMessage),
    /// A publication ended; `true` if it was sent.
    Published(bool),
    /// The wait that was asked for is over.
    DelayElapsed,
}

/// What the task is to do next; the event that it reports afterwards is
/// named with each.
#[derive(Debug, Clone, Copy, PartialEq, Eq)]
pub enum MqttAction {
    /// Look at the network; report `Network`.
    CheckNetwork,
    /// Wait; report `DelayElapsed`.
    Sleep { millis: u64 },
    /// Look up the broker's name; report `Resolved`.
    Resolve,
    /// Connect to the broker; report `Connected`.
    Connect { address: Ipv4Address, port: u16 },
    /// Introduce the device to the broker; report `Authenticated`.
    Authenticate,
    /// Wait for the next state from the subscription; report `StateChanged`.
    AwaitState,
    /// Publish `payload`; report `Published` once it was handed to the
    /// connection.
    Publish { topic: MqttTopic, payload: &'static str, delivery: Delivery, retain: bool },
    /// Give up the connection, if one stands, and wait; report
    /// `DelayElapsed`.
    Reconnect { error: MqttError, delay_secs: u64 },
}

/// An action with its text as characters.
pub enum MqttActionView {
    CheckNetwork,
    Sleep { millis: u64 },
    Resolve,
    Connect { address: Ipv4Address, port: u16 },
    Authenticate,
    AwaitState,
    Publish { topic: MqttTopic, payload: Seq<char>, delivery: Delivery, retain: bool },
    Reconnect { error: MqttError, delay_secs: u64 },
}

impl View for MqttAction {
    type V = MqttActionView;

    open spec fn view(&self) -> MqttActionView {
        match *self {
            MqttAction::CheckNetwork => MqttActionView::CheckNetwork,
            MqttAction::Sleep { millis } => MqttActionView::Sleep { millis },
            MqttAction::Resolve => MqttActionView::Resolve,
            MqttAction::Connect { address, port } => MqttActionView::Connect { address, port },
            MqttAction::Authenticate => MqttActionView::Authenticate,
            MqttAction::AwaitState => MqttActionView::AwaitState,
            MqttAction::Publish { topic, payload, delivery, retain } => MqttActionView::Publish {
                topic,
                payload: payload@,
                delivery,
                retain,
            },
            MqttAction::Reconnect { error, delay_secs } => MqttActionView::Reconnect {
                error,
                delay_secs,
            },
        }
    }
}

/// Whether `address` is the first IPv4 address among `addresses`.
pub open spec fn is_first_ipv4(addresses: Seq<IpAddress>, address: Ipv4Address) -> bool {
    exists|i: int|
        0 <= i < addresses.len() && #[trigger] addresses[i] == IpAddress::V4(address) && forall|
            j: int,
        |
            0 <= j < i ==> (#[trigger] addresses[j]) is V6
}

/// The address to connect to after a lookup, or why there is none: the
/// first IPv4 address received; a failure where none was received or the
/// lookup failed; a timeout where no answer came.
pub open spec fn resolved(reply: DnsReply) -> Result<Ipv4Address, MqttError> {
    match reply {
        DnsReply::Addresses(addresses) => if exists|a: Ipv4Address|
            is_first_ipv4(addresses@, a) {
            Ok(choose|a: Ipv4Address| is_first_ipv4(addresses@, a))
        } else {
            Err(MqttError::DnsResolutionFailed)
        },
        DnsReply::QueryFailed => Err(MqttError::DnsResolutionFailed),
        DnsReply::TimedOut => Err(MqttError::DnsTimeout),
    }
}

/// The text that is published for a mode.
pub open spec fn mode_text(is_auto: bool) -> Seq<char> {
    if is_auto {
        "Auto"@
    } else {
        "Manuell"@
    }
}

/// The text that is published for a mode: "Auto" or "Manuell".
pub fn mode_label(is_auto: bool) -> (label: &'static str)
    ensures
        label@ == mode_text(is_auto),
{
    if is_auto {
        "Auto"
    } else {
        "Manuell"
    }
}

/// Picks the address to connect to from what a lookup gave: the first IPv4
/// address. A lookup that failed, or gave none, and one that timed out are
/// told apart in the error.
#[verifier::loop_isolation(false)]
pub fn resolve_hostname(reply: &DnsReply) -> (res: Result<Ipv4Address, MqttError>)
    ensures
        res == resolved(*reply),
        match *reply {
            DnsReply::Addresses(addresses) => match res {
                Ok(address) => is_first_ipv4(addresses@, address),
                Err(error) => error == MqttError::DnsResolutionFailed && forall|i: int|
                    0 <= i < addresses@.len() ==> (#[trigger] addresses@[i]) is V6,
            },
            DnsReply::QueryFailed => res == Err::<Ipv4Address, MqttError>(
                MqttError::DnsResolutionFailed,
            ),
            DnsReply::TimedOut => res == Err::<Ipv4Address, MqttError>(MqttError::DnsTimeout),
        },
{
    match reply {
        DnsReply::Addresses(addresses) => {
            let n: usize = addresses.len();
            let mut i: usize = 0;
            while i < n
                invariant
                    i <= n,
                    n == addresses@.len(),
                    forall|j: int| 0 <= j < i ==> (#[trigger] addresses@[j]) is V6,
                decreases n - i,
            {
                if let IpAddress::V4(address) = addresses[i] {
                    proof {
                        lemma_first_ipv4_is_unique(addresses@, address, i as int);
                    }
                    return Ok(address);
                }
                i = i + 1;
            }
            proof {
                assert forall|a: Ipv4Address| !is_first_ipv4(addresses@, a) by {
                    if is_first_ipv4(addresses@, a) {
                        let k = choose|k: int|
                            0 <= k < addresses@.len() && #[trigger] addresses@[k] == IpAddress::V4(
                                a,
                            );
                        assert(addresses@[k] is V6);
                    }
                }
            }
            Err(MqttError::DnsResolutionFailed)
        },
        DnsReply::QueryFailed => Err(MqttError::DnsResolutionFailed),
        DnsReply::TimedOut => Err(MqttError::DnsTimeout),
    }
}

proof fn lemma_first_ipv4_is_unique(addresses: Seq<IpAddress>, address: Ipv4Address, at: int)
    requires
        0 <= at < addresses.len(),
        addresses[at] == IpAddress::V4(address),
        forall|j: int| 0 <= j < at ==> (#[trigger] addresses[j]) is V6,
    ensures
        is_first_ipv4(addresses, address),
        forall|other: Ipv4Address| is_first_ipv4(addresses, other) ==> other == address,
{
    assert forall|other: Ipv4Address| is_first_ipv4(addresses, other) implies other == address by {
        let k = choose|k: int|
            0 <= k < addresses.len() && #[trigger] addresses[k] == IpAddress::V4(other) && forall|
                j: int,
            |
                0 <= j < k ==> (#[trigger] addresses[j]) is V6;
        if k < at {
            assert(addresses[k] is V6);
        } else if at < k {
            assert(addresses[at] is V6);
        }
    }
}

impl MqttState {
    /// The state after an event. An event that the state does not wait for
    /// changes nothing.
    pub open spec fn after(self, event: MqttEvent) -> MqttState {
        match (self, event) {
            (MqttState::WaitingForNetwork, MqttEvent::Network(status)) => if status.ready() {
                MqttState::Resolving
            } else {
                MqttState::NetworkDown
            },
            (MqttState::NetworkDown, MqttEvent::DelayElapsed) => MqttState::WaitingForNetwork,
            (MqttState::Resolving, MqttEvent::Resolved(reply)) => match resolved(reply) {
                Ok(address) => MqttState::Connecting(address),
                Err(error) => MqttState::Backoff(error),
            },
            (MqttState::Connecting(_), MqttEvent::Connected(ok)) => if ok {
                MqttState::Authenticating
            } else {
                MqttState::Backoff(MqttError::ConnectionFailed)
            },
            (MqttState::Authenticating, MqttEvent::Authenticated(ok)) => if ok {
                MqttState::AwaitingState
            } else {
                MqttState::Backoff(MqttError::ProtocolError)
            },
            (MqttState::AwaitingState, MqttEvent::StateChanged(msg)) => MqttState::PublishingColor(
                msg,
            ),
            (MqttState::PublishingColor(msg), MqttEvent::Published(ok)) => if ok {
                MqttState::PublishingMode(msg)
            } else {
                MqttState::Backoff(MqttError::PublishFailed)
            },
            (MqttState::PublishingMode(_), MqttEvent::Published(ok)) => if ok {
                MqttState::AwaitingState
            } else {
                MqttState::Backoff(MqttError::PublishFailed)
            },
            (MqttState::Backoff(_), MqttEvent::DelayElapsed) => MqttState::WaitingForNetwork,
            _ => self,
        }
    }

    /// Whether the state waits for this kind of event.
    pub open spec fn awaits(self, event: MqttEvent) -> bool {
        match (self, event) {
            (MqttState::WaitingForNetwork, MqttEvent::Network(_)) => true,
            (MqttState::NetworkDown, MqttEvent::DelayElapsed) => true,
            (MqttState::Resolving, MqttEvent::Resolved(_)) => true,
            (MqttState::Connecting(_), MqttEvent::Connected(_)) => true,
            (MqttState::Authenticating, MqttEvent::Authenticated(_)) => true,
            (MqttState::AwaitingState, MqttEvent::StateChanged(_)) => true,
            (MqttState::PublishingColor(_), MqttEvent::Published(_)) => true,
            (MqttState::PublishingMode(_), MqttEvent::Published(_)) => true,
            (MqttState::Backoff(_), MqttEvent::DelayElapsed) => true,
            _ => false,
        }
    }

    /// What is to be done in a state. A state that arrived is published in
    /// two parts: the name of its colour, then the word for its mode; each is
    /// sent once, without confirmation, and not kept by the broker.
    pub open spec fn awaited(self) -> MqttActionView {
        match self {
            MqttState::WaitingForNetwork => MqttActionView::CheckNetwork,
            MqttState::NetworkDown => MqttActionView::Sleep { millis: NETWORK_POLL_MILLIS },
            MqttState::Resolving => MqttActionView::Resolve,
            MqttState::Connecting(address) => MqttActionView::Connect { address, port: MQTT_PORT },
            MqttState::Authenticating => MqttActionView::Authenticate,
            MqttState::AwaitingState => MqttActionView::AwaitState,
            MqttState::PublishingColor(msg) => MqttActionView::Publish {
                topic: MqttTopic::Color,
                payload: msg.name@,
                delivery: Delivery::AtMostOnce,
                retain: false,
            },
            MqttState::PublishingMode(msg) => MqttActionView::Publish {
                topic: MqttTopic::Mode,
                payload: mode_text(msg.is_auto_mode),
                delivery: Delivery::AtMostOnce,
                retain: false,
            },
            MqttState::Backoff(error) => MqttActionView::Reconnect {
                error,
                delay_secs: MQTT_RECONNECT_DELAY_SECS,
            },
        }
    }

    /// Where the connection to the broker stands in this state.
    pub open spec fn connection(self) -> ConnectionState {
        match self {
            MqttState::WaitingForNetwork | MqttState::NetworkDown => ConnectionState::Disconnected,
            MqttState::Resolving | MqttState::Connecting(_) | MqttState::Authenticating =>
                ConnectionState::Connecting,
            MqttState::AwaitingState | MqttState::PublishingColor(_) | MqttState::PublishingMode(
                _,
            ) => ConnectionState::Connected,
            MqttState::Backoff(_) => ConnectionState::Error,
        }
    }

    /// The state in which the publisher starts.
    pub fn new() -> (state: MqttState)
        ensures
            state == MqttState::WaitingForNetwork,
    {
        MqttState::WaitingForNetwork
    }

    /// Takes an event and moves on.
    pub fn on_event(self, event: &MqttEvent) -> (next: MqttState)
        ensures
            next == self.after(*event),
    {
        match (self, event) {
            (MqttState::WaitingForNetwork, MqttEvent::Network(status)) => {
                if status.is_ready() {
                    MqttState::Resolving
                } else {
                    MqttState::NetworkDown
                }
            },
            (MqttState::NetworkDown, MqttEvent::DelayElapsed) => MqttState::WaitingForNetwork,
            (MqttState::Resolving, MqttEvent::Resolved(reply)) => match resolve_hostname(reply) {
                Ok(address) => MqttState::Connecting(address),
                Err(error) => MqttState::Backoff(error),
            },
            (MqttState::Connecting(_), MqttEvent::Connected(ok)) => {
                if *ok {
                    MqttState::Authenticating
                } else {
                    MqttState::Backoff(MqttError::ConnectionFailed)
                }
            },
            (MqttState::Authenticating, MqttEvent::Authenticated(ok)) => {
                if *ok {
                    MqttState::AwaitingState
                } else {
                    MqttState::Backoff(MqttError::ProtocolError)
                }
            },
            (MqttState::AwaitingState, MqttEvent::StateChanged(msg)) => MqttState::PublishingColor(
                *msg,
            ),
            (MqttState::PublishingColor(msg), MqttEvent::Published(ok)) => {
                if *ok {
                    MqttState::PublishingMode(msg)
                } else {
                    MqttState::Backoff(MqttError::PublishFailed)
                }
            },
            (MqttState::PublishingMode(_), MqttEvent::Published(ok)) => {
                if *ok {
                    MqttState::AwaitingState
                } else {
                    MqttState::Backoff(MqttError::PublishFailed)
                }
            },
            (MqttState::Backoff(_), MqttEvent::DelayElapsed) => MqttState::WaitingForNetwork,
            (state, _) => state,
        }
    }

    /// What the task is to do in this state.
    pub fn action(&self) -> (action: MqttAction)
        ensures
            action@ == self.awaited(),
    {
        match self {
            MqttState::WaitingForNetwork => MqttAction::CheckNetwork,
            MqttState::NetworkDown => MqttAction::Sleep { millis: NETWORK_POLL_MILLIS },
            MqttState::Resolving => MqttAction::Resolve,
            MqttState::Connecting(address) => MqttAction::Connect {
                address: *address,
                port: MQTT_PORT,
            },
            MqttState::Authenticating => MqttAction::Authenticate,
            MqttState::AwaitingState => MqttAction::AwaitState,
            MqttState::PublishingColor(msg) => MqttAction::Publish {
                topic: MqttTopic::Color,
                payload: msg.name,
                delivery: Delivery::AtMostOnce,
                retain: false,
            },
            MqttState::PublishingMode(msg) => MqttAction::Publish {
                topic: MqttTopic::Mode,
                payload: mode_label(msg.is_auto_mode),
                delivery: Delivery::AtMostOnce,
                retain: false,
            },
            MqttState::Backoff(error) => MqttAction::Reconnect {
                error: *error,
                delay_secs: MQTT_RECONNECT_DELAY_SECS,
            },
        }
    }

    /// Where the connection to the broker stands.
    pub fn connection_state(&self) -> (state: ConnectionState)
        ensures
            state == self.connection(),
    {
        match self {
            MqttState::WaitingForNetwork | MqttState::NetworkDown => ConnectionState::Disconnected,
            MqttState::Resolving | MqttState::Connecting(_) | MqttState::Authenticating =>
                ConnectionState::Connecting,
            MqttState::AwaitingState | MqttState::PublishingColor(_) | MqttState::PublishingMode(
                _,
            ) => ConnectionState::Connected,
            MqttState::Backoff(_) => ConnectionState::Error,
        }
    }
}

impl MqttError {
    /// A few words for the log.
    pub fn describe(&self) -> (words: &'static str)
        ensures
            words@ == match *self {
                MqttError::DnsResolutionFailed => "DNS failed"@,
                MqttError::DnsTimeout => "DNS timeout"@,
                MqttError::ConnectionFailed => "Connection failed"@,
                MqttError::ProtocolError => "Protocol error"@,
                MqttError::PublishFailed => "Publish failed"@,
            },
    {
        match self {
            MqttError::DnsResolutionFailed => "DNS failed",
            MqttError::DnsTimeout => "DNS timeout",
            MqttError::ConnectionFailed => "Connection failed",
            MqttError::ProtocolError => "Protocol error",
            MqttError::PublishFailed => "Publish failed",
        }
    }
}

/// One turn of the publisher: the state after the event, and what to do in
/// it.
pub fn mqtt_step(state: MqttState, event: &MqttEvent) -> (turn: (MqttState, MqttAction))
    ensures
        turn.0 == state.after(*event),
        turn.1@ == turn.0.awaited(),
{
    let next = state.on_event(event);
    let action = next.action();
    (next, action)
}

/// No failure is final. Whatever fails, the publisher ends in `Backoff`
/// with the error that names the step, and from there the end of the wait
/// brings it back to the start.
pub proof fn lemma_mqtt_failures_are_retried(state: MqttState, error: MqttError)
    ensures
        MqttState::Resolving.after(MqttEvent::Resolved(DnsReply::QueryFailed)) == MqttState::Backoff(
            MqttError::DnsResolutionFailed,
        ),
        MqttState::Resolving.after(MqttEvent::Resolved(DnsReply::TimedOut)) == MqttState::Backoff(
            MqttError::DnsTimeout,
        ),
        state is Connecting ==> state.after(MqttEvent::Connected(false)) == MqttState::Backoff(
            MqttError::ConnectionFailed,
        ),
        state is Authenticating ==> state.after(MqttEvent::Authenticated(false))
            == MqttState::Backoff(MqttError::ProtocolError),
        state is PublishingColor || state is PublishingMode ==> state.after(
            MqttEvent::Published(false),
        ) == MqttState::Backoff(MqttError::PublishFailed),
        MqttState::Backoff(error).after(MqttEvent::DelayElapsed) == MqttState::WaitingForNetwork,
        MqttState::Backoff(error).connection() == ConnectionState::Error,
        MqttState::WaitingForNetwork.connection() == ConnectionState::Disconnected,
{
}

/// In every state there is an event that the state waits for, and only
/// such an event changes it: the publisher is never stuck and never moved
/// by what it did not ask for.
pub proof fn lemma_mqtt_never_stuck(state: MqttState, event: MqttEvent)
    ensures
        exists|wanted: MqttEvent| #[trigger] state.awaits(wanted),
        !state.awaits(event) ==> state.after(event) == state,
{
    match state {
        MqttState::WaitingForNetwork => {
            assert(state.awaits(
                MqttEvent::Network(NetworkStatus { link_up: false, address: None }),
            ));
        },
        MqttState::NetworkDown => {
            assert(state.awaits(MqttEvent::DelayElapsed));
        },
        MqttState::Resolving => {
            assert(state.awaits(MqttEvent::Resolved(DnsReply::TimedOut)));
        },
        MqttState::Connecting(_) => {
            assert(state.awaits(MqttEvent::Connected(true)));
        },
        MqttState::Authenticating => {
            assert(state.awaits(MqttEvent::Authenticated(true)));
        },
        MqttState::AwaitingState => {
            let msg: LedColorMessage = arbitrary();
            assert(state.awaits(MqttEvent::StateChanged(msg)));
        },
        MqttState::PublishingColor(_) => {
            assert(state.awaits(MqttEvent::Published(true)));
        },
        MqttState::PublishingMode(_) => {
            assert(state.awaits(MqttEvent::Published(true)));
        },
        MqttState::Backoff(_) => {
            assert(state.awaits(MqttEvent::DelayElapsed));
        },
    }
}

/// Every state that arrives while connected is published in two parts and
/// in this order: first the name of its colour, then its mode. If both are
/// sent the publisher waits for the next state; if the first fails the
/// second is not tried.
pub proof fn lemma_two_publications_per_state(msg: LedColorMessage)
    ensures
        MqttState::AwaitingState.after(MqttEvent::StateChanged(msg)) == MqttState::PublishingColor(
            msg,
        ),
        MqttState::PublishingColor(msg).after(MqttEvent::Published(true))
            == MqttState::PublishingMode(msg),
        MqttState::PublishingMode(msg).after(MqttEvent::Published(true))
            == MqttState::AwaitingState,
        MqttState::PublishingColor(msg).after(MqttEvent::Published(false)) == MqttState::Backoff(
            MqttError::PublishFailed,
        ),
        MqttState::PublishingColor(msg).awaited() == (MqttActionView::Publish {
            topic: MqttTopic::Color,
            payload: msg.name@,
            delivery: Delivery::AtMostOnce,
            retain: false,
        }),
        MqttState::PublishingMode(msg).awaited() == (MqttActionView::Publish {
            topic: MqttTopic::Mode,
            payload: mode_text(msg.is_auto_mode),
            delivery: Delivery::AtMostOnce,
            retain: false,
        }),
{
}

/// The connection is made in order: from the start, a network that is
/// ready, a name that resolves, a connection that stands and a broker that
/// accepts lead to the state that waits for changes, and nothing else does.
pub proof fn lemma_mqtt_connects_in_order(
    status: NetworkStatus,
    reply: DnsReply,
    state: MqttState,
    event: MqttEvent,
)
    requires
        status.ready(),
        resolved(reply) is Ok,
    ensures
        MqttState::WaitingForNetwork.after(MqttEvent::Network(status)).after(
            MqttEvent::Resolved(reply),
        ).after(MqttEvent::Connected(true)).after(MqttEvent::Authenticated(true))
            == MqttState::AwaitingState,
        state.connection() != ConnectionState::Connected && state.after(event).connection()
            == ConnectionState::Connected ==> state is Authenticating && event
            == MqttEvent::Authenticated(true),
{
}

} // verus!
