//! The discovery responder: it makes the device known under its own name on
//! the local network. This module holds its decisions and the source of the
//! identifiers that its queries carry; the task around it owns the socket.

use vstd::prelude::*;
use crate::config::{MDNS_PORT, MDNS_RECONNECT_DELAY_SECS, MDNS_TTL_SECS, NETWORK_POLL_MILLIS};
use crate::network::{ConnectionState, Ipv4Address, NetworkStatus};

verus! {

/// Why the responder stopped.
#[derive(Debug, Clone, Copy, PartialEq, Eq, Structural)]
pub enum MdnsError {
    /// The socket could not be bound to the discovery port.
    SocketBindFailed,
    /// The multicast group could not be joined.
    MulticastJoinFailed,
    /// The responder ended with an error.
    ResponderFailed,
}

/// What the responder answers with: the device's name, where it is, and
/// for how long the answer may be kept.
#[derive(Debug, Clone, Copy, PartialEq, Eq)]
pub struct HostRecord {
    /// The name, without the `.local` behind it.
    pub hostname: &'static str,
    pub address: Ipv4Address,
    pub ttl_secs: u32,
}

/// A host record with its name as characters.
pub struct HostRecordView {
    pub hostname: Seq<char>,
    pub address: Ipv4Address,
    pub ttl_secs: u32,
}

impl View for HostRecord {
    type V = HostRecordView;

    open spec fn view(&self) -> HostRecordView {
        HostRecordView { hostname: self.hostname@, address: self.address, ttl_secs: self.ttl_secs }
    }
}

/// Where the responder stands.
#[derive(Debug, Clone, Copy, PartialEq, Eq, Structural)]
pub enum MdnsState {
    /// About to look at the network.
    WaitingForNetwork,
    /// The network was not ready; waiting before the next look.
    NetworkDown,
    /// Binding the socket; the address is the device's own.
    Binding(Ipv4Address),
    /// Joining the multicast group.
    Joining(Ipv4Address),
    /// Answering queries.
    Serving(Ipv4Address),
    /// The responder stopped, with an error or without; waiting before the
    /// next attempt.
    Backoff(Option<MdnsError>),
}

/// What the task reports back.
#[derive(Debug, Clone, Copy, PartialEq, Eq, Structural)]
pub enum MdnsEvent {
    /// A look at the network.
    Network(NetworkStatus),
    /// The attempt to bind ended; `true` if the socket is bound.
    Bound(bool),
    /// The attempt to join ended; `true` if the group was joined.
    Joined(bool),
    /// The responder returned; `true` if it did so without an error.
    Stopped(bool),
    /// The wait that was asked for is over.
    DelayElapsed,
}

/// What the task is to do next; the event that it reports afterwards is
/// named with each.
#[derive(Debug, Clone, Copy, PartialEq, Eq)]
pub enum MdnsAction {
    /// Look at the network; report `Network`.
    CheckNetwork,
    /// Wait; report `DelayElapsed`.
    Sleep { millis: u64 },
    /// Bind a socket to this port on every interface; report `Bound`.
    Bind { port: u16 },
    /// Join this multicast group; report `Joined`.
    JoinMulticast { group: Ipv4Address },
    /// Answer queries for this record until something fails; report
    /// `Stopped`.
    Serve(HostRecord),
    /// Give up the socket, if one is bound, and wait; report `DelayElapsed`.
    Reconnect { error: Option<MdnsError>, delay_secs: u64 },
}

/// An action with its text as characters.
pub enum MdnsActionView {
    CheckNetwork,
    Sleep { millis: u64 },
    Bind { port: u16 },
    JoinMulticast { group: Ipv4Address },
    Serve(HostRecordView),
    Reconnect { error: Option<MdnsError>, delay_secs: u64 },
}

impl View for MdnsAction {
    type V = MdnsActionView;

    open spec fn view(&self) -> MdnsActionView {
        match *self {
            MdnsAction::CheckNetwork => MdnsActionView::CheckNetwork,
            MdnsAction::Sleep { millis } => MdnsActionView::Sleep { millis },
            MdnsAction::Bind { port } => MdnsActionView::Bind { port },
            MdnsAction::JoinMulticast { group } => MdnsActionView::JoinMulticast { group },
            MdnsAction::Serve(record) => MdnsActionView::Serve(record@),
            MdnsAction::Reconnect { error, delay_secs } => MdnsActionView::Reconnect {
                error,
                delay_secs,
            },
        }
    }
}

/// The multicast group of name resolution, 224.0.0.251.
pub open spec fn multicast_group() -> Ipv4Address {
    Ipv4Address { a: 224, b: 0, c: 0, d: 251 }
}

/// The record that the device answers with once it has `address`: the name
/// `led`, that address, and the configured lifetime.
pub open spec fn own_record(address: Ipv4Address) -> HostRecordView {
    HostRecordView { hostname: "led"@, address, ttl_secs: MDNS_TTL_SECS }
}

impl MdnsState {
    /// The state after an event. An event that the state does not wait for
    /// changes nothing.
    pub open spec fn after(self, event: MdnsEvent) -> MdnsState {
        match (self, event) {
            (MdnsState::WaitingForNetwork, MdnsEvent::Network(status)) => if status.ready() {
                MdnsState::Binding(status.address->0)
            } else {
                MdnsState::NetworkDown
            },
            (MdnsState::NetworkDown, MdnsEvent::DelayElapsed) => MdnsState::WaitingForNetwork,
            (MdnsState::Binding(address), MdnsEvent::Bound(ok)) => if ok {
                MdnsState::Joining(address)
            } else {
                MdnsState::Backoff(Some(MdnsError::SocketBindFailed))
            },
            (MdnsState::Joining(address), MdnsEvent::Joined(ok)) => if ok {
                MdnsState::Serving(address)
            } else {
                MdnsState::Backoff(Some(MdnsError::MulticastJoinFailed))
            },
            (MdnsState::Serving(_), MdnsEvent::Stopped(ok)) => if ok {
                MdnsState::Backoff(None)
            } else {
                MdnsState::Backoff(Some(MdnsError::ResponderFailed))
            },
            (MdnsState::Backoff(_), MdnsEvent::DelayElapsed) => MdnsState::WaitingForNetwork,
            _ => self,
        }
    }

    /// Whether the state waits for this kind of event.
    pub open spec fn awaits(self, event: MdnsEvent) -> bool {
        match (self, event) {
            (MdnsState::WaitingForNetwork, MdnsEvent::Network(_)) => true,
            (MdnsState::NetworkDown, MdnsEvent::DelayElapsed) => true,
            (MdnsState::Binding(_), MdnsEvent::Bound(_)) => true,
            (MdnsState::Joining(_), MdnsEvent::Joined(_)) => true,
            (MdnsState::Serving(_), MdnsEvent::Stopped(_)) => true,
            (MdnsState::Backoff(_), MdnsEvent::DelayElapsed) => true,
            _ => false,
        }
    }

    /// What is to be done in a state.
    pub open spec fn awaited(self) -> MdnsActionView {
        match self {
            MdnsState::WaitingForNetwork => MdnsActionView::CheckNetwork,
            MdnsState::NetworkDown => MdnsActionView::Sleep { millis: NETWORK_POLL_MILLIS },
            MdnsState::Binding(_) => MdnsActionView::Bind { port: MDNS_PORT },
            MdnsState::Joining(_) => MdnsActionView::JoinMulticast { group: multicast_group() },
            MdnsState::Serving(address) => MdnsActionView::Serve(own_record(address)),
            MdnsState::Backoff(error) => MdnsActionView::Reconnect {
                error,
                delay_secs: MDNS_RECONNECT_DELAY_SECS,
            },
        }
    }

    /// Where the responder's hold on the network stands in this state.
    pub open spec fn connection(self) -> ConnectionState {
        match self {
            MdnsState::WaitingForNetwork | MdnsState::NetworkDown => ConnectionState::Disconnected,
            MdnsState::Binding(_) | MdnsState::Joining(_) => ConnectionState::Connecting,
            MdnsState::Serving(_) => ConnectionState::Connected,
            MdnsState::Backoff(_) => ConnectionState::Error,
        }
    }

    /// The state in which the responder starts.
    pub fn new() -> (state: MdnsState)
        ensures
            state == MdnsState::WaitingForNetwork,
    {
        MdnsState::WaitingForNetwork
    }

    /// Takes an event and moves on.
    pub fn on_event(self, event: MdnsEvent) -> (next: MdnsState)
        ensures
            next == self.after(event),
    {
        match (self, event) {
            (MdnsState::WaitingForNetwork, MdnsEvent::Network(status)) => {
                match (status.link_up, status.address) {
                    (true, Some(address)) => MdnsState::Binding(address),
                    _ => MdnsState::NetworkDown,
                }
            },
            (MdnsState::NetworkDown, MdnsEvent::DelayElapsed) => MdnsState::WaitingForNetwork,
            (MdnsState::Binding(address), MdnsEvent::Bound(ok)) => {
                if ok {
                    MdnsState::Joining(address)
                } else {
                    MdnsState::Backoff(Some(MdnsError::SocketBindFailed))
                }
            },
            (MdnsState::Joining(address), MdnsEvent::Joined(ok)) => {
                if ok {
                    MdnsState::Serving(address)
                } else {
                    MdnsState::Backoff(Some(MdnsError::MulticastJoinFailed))
                }
            },
            (MdnsState::Serving(_), MdnsEvent::Stopped(ok)) => {
                if ok {
                    MdnsState::Backoff(None)
                } else {
                    MdnsState::Backoff(Some(MdnsError::ResponderFailed))
                }
            },
            (MdnsState::Backoff(_), MdnsEvent::DelayElapsed) => MdnsState::WaitingForNetwork,
            (state, _) => state,
        }
    }

    /// What the task is to do in this state.
    pub fn action(&self) -> (action: MdnsAction)
        ensures
            action@ == self.awaited(),
    {
        match self {
            MdnsState::WaitingForNetwork => MdnsAction::CheckNetwork,
            MdnsState::NetworkDown => MdnsAction::Sleep { millis: NETWORK_POLL_MILLIS },
            MdnsState::Binding(_) => MdnsAction::Bind { port: MDNS_PORT },
            MdnsState::Joining(_) => MdnsAction::JoinMulticast {
                group: Ipv4Address { a: 224, b: 0, c: 0, d: 251 },
            },
            MdnsState::Serving(address) => MdnsAction::Serve(
                HostRecord { hostname: "led", address: *address, ttl_secs: MDNS_TTL_SECS },
            ),
            MdnsState::Backoff(error) => MdnsAction::Reconnect {
                error: *error,
                delay_secs: MDNS_RECONNECT_DELAY_SECS,
            },
        }
    }

    /// Where the responder's hold on the network stands.
    pub fn connection_state(&self) -> (state: ConnectionState)
        ensures
            state == self.connection(),
    {
        match self {
            MdnsState::WaitingForNetwork | MdnsState::NetworkDown => ConnectionState::Disconnected,
            MdnsState::Binding(_) | MdnsState::Joining(_) => ConnectionState::Connecting,
            MdnsState::Serving(_) => ConnectionState::Connected,
            MdnsState::Backoff(_) => ConnectionState::Error,
        }
    }
}

impl MdnsError {
    /// A few words for the log.
    pub fn describe(&self) -> (words: &'static str)
        ensures
            words@ == match *self {
                MdnsError::SocketBindFailed => "Socket bind failed"@,
                MdnsError::MulticastJoinFailed => "Multicast join failed"@,
                MdnsError::ResponderFailed => "Responder failed"@,
            },
    {
        match self {
            MdnsError::SocketBindFailed => "Socket bind failed",
            MdnsError::MulticastJoinFailed => "Multicast join failed",
            MdnsError::ResponderFailed => "Responder failed",
        }
    }
}

/// One turn of the responder: the state after the event, and what to do in
/// it.
pub fn mdns_step(state: MdnsState, event: MdnsEvent) -> (turn: (MdnsState, MdnsAction))
    ensures
        turn.0 == state.after(event),
        turn.1@ == turn.0.awaited(),
{
    let next = state.on_event(event);
    let action = next.action();
    (next, action)
}

/// No failure is final, not even one to bind the socket: each ends in
/// `Backoff` with the error that names the step, a responder that returns
/// without an error ends there too, and the end of the wait brings the
/// responder back to the start. The device answers with the address that
/// the network had when it was found ready.
pub proof fn lemma_mdns_failures_are_retried(address: Ipv4Address, error: Option<MdnsError>)
    ensures
        MdnsState::Binding(address).after(MdnsEvent::Bound(false)) == MdnsState::Backoff(
            Some(MdnsError::SocketBindFailed),
        ),
        MdnsState::Joining(address).after(MdnsEvent::Joined(false)) == MdnsState::Backoff(
            Some(MdnsError::MulticastJoinFailed),
        ),
        MdnsState::Serving(address).after(MdnsEvent::Stopped(false)) == MdnsState::Backoff(
            Some(MdnsError::ResponderFailed),
        ),
        MdnsState::Serving(address).after(MdnsEvent::Stopped(true)) == MdnsState::Backoff(None),
        MdnsState::Backoff(error).after(MdnsEvent::DelayElapsed) == MdnsState::WaitingForNetwork,
        MdnsState::WaitingForNetwork.after(
            MdnsEvent::Network(NetworkStatus { link_up: true, address: Some(address) }),
        ).after(MdnsEvent::Bound(true)).after(MdnsEvent::Joined(true)) == MdnsState::Serving(
            address,
        ),
        MdnsState::Serving(address).awaited() == MdnsActionView::Serve(own_record(address)),
{
}

/// In every state there is an event that the state waits for, and only
/// such an event changes it.
pub proof fn lemma_mdns_never_stuck(state: MdnsState, event: MdnsEvent)
    ensures
        exists|wanted: MdnsEvent| #[trigger] state.awaits(wanted),
        !state.awaits(event) ==> state.after(event) == state,
{
    match state {
        MdnsState::WaitingForNetwork => {
            assert(state.awaits(
                MdnsEvent::Network(NetworkStatus { link_up: false, address: None }),
            ));
        },
        MdnsState::NetworkDown => {
            assert(state.awaits(MdnsEvent::DelayElapsed));
        },
        MdnsState::Binding(_) => {
            assert(state.awaits(MdnsEvent::Bound(true)));
        },
        MdnsState::Joining(_) => {
            assert(state.awaits(MdnsEvent::Joined(true)));
        },
        MdnsState::Serving(_) => {
            assert(state.awaits(MdnsEvent::Stopped(true)));
        },
        MdnsState::Backoff(_) => {
            assert(state.awaits(MdnsEvent::DelayElapsed));
        },
    }
}

/// The 32-bit word that fills the chunk `chunk` of a buffer: the counter
/// plus the number of the chunk, wrapping round.
pub open spec fn chunk_word(counter: u32, chunk: int) -> u32 {
    ((counter + chunk) % 0x1_0000_0000) as u32
}

/// The byte `k` of a word, counted from the least significant.
pub open spec fn le_byte(word: u32, k: int) -> u8 {
    if k == 0 {
        (word % 256) as u8
    } else if k == 1 {
        (word / 256 % 256) as u8
    } else if k == 2 {
        (word / 65536 % 256) as u8
    } else {
        (word / 16777216 % 256) as u8
    }
}

/// The byte at `index` of a buffer filled from `counter`: chunks of four
/// bytes hold successive words, least significant byte first.
pub open spec fn rng_byte(counter: u32, index: int) -> u8 {
    le_byte(chunk_word(counter, index / 4), index % 4)
}

/// Fills `buf` with identifiers for queries: successive words counted up
/// from `counter`, four bytes each, the least significant first; a last
/// chunk of fewer than four bytes gets the first bytes of its word. The
/// counter itself moves on by one, wrapping round, so that no two calls
/// start alike. The numbers are not random and need not be.
pub fn mdns_rng(counter: &mut u32, buf: &mut [u8])
    ensures
        *final(counter) == chunk_word(*old(counter), 1),
        final(buf)@.len() == old(buf)@.len(),
        forall|i: int|
            0 <= i < final(buf)@.len() ==> (#[trigger] final(buf)@[i]) == rng_byte(
                *old(counter),
                i,
            ),
{
    let start: u32 = *counter;
    *counter = start.wrapping_add(1);
    let n: usize = buf.len();
    let mut word: u32 = start;
    let mut i: usize = 0;
    while i < n
        invariant
            i <= n,
            n == buf@.len(),
            word == chunk_word(start, i as int / 4),
            forall|k: int| 0 <= k < i ==> (#[trigger] buf@[k]) == rng_byte(start, k),
        decreases n - i,
    {
        let k: usize = i % 4;
        let byte: u8 = if k == 0 {
            (word % 256) as u8
        } else if k == 1 {
            (word / 256 % 256) as u8
        } else if k == 2 {
            (word / 65536 % 256) as u8
        } else {
            (word / 16777216 % 256) as u8
        };
        buf[i] = byte;
        if k == 3 {
            word = word.wrapping_add(1);
        }
        i = i + 1;
    }
}

} // verus!
