//! The radio task: it brings the link to the access point up and brings it
//! up again whenever it is lost. This module holds its decisions; the task
//! around it talks to the radio.

use vstd::prelude::*;
use crate::config::{WIFI_REJOIN_DELAY_SECS, WIFI_RETRY_DELAY_SECS};
use crate::network::ConnectionState;

verus! {

/// Where the radio task stands.
#[derive(Debug, Clone, Copy, PartialEq, Eq, Structural)]
pub enum WifiState {
    /// Asking the radio whether it was started.
    CheckingRadio,
    /// Handing the network's name and password to the radio.
    Configuring,
    /// Starting the radio.
    Starting,
    /// Listing the access points in reach.
    Scanning,
    /// Joining the access point.
    Connecting,
    /// Joined; waiting for the link to be lost.
    Connected,
    /// A step failed; waiting before the next round.
    RetryDelay,
    /// The link was lost; waiting before the next round.
    RejoinDelay,
}

/// What the task reports back.
#[derive(Debug, Clone, Copy, PartialEq, Eq, Structural)]
pub enum WifiEvent {
    /// The radio said whether it was started; `None` if it could not say.
    RadioStarted(Option<bool>),
    /// The settings were handed over; `true` if the radio took them.
    Configured(bool),
    /// The start ended; `true` if the radio runs.
    Started(bool),
    /// The scan ended; `true` if it gave a list.
    Scanned(bool),
    /// The attempt to join ended; `true` if the link stands.
    Joined(bool),
    /// The link was lost.
    Disconnected,
    /// The wait that was asked for is over.
    DelayElapsed,
}

/// What the task is to do next; the event that it reports afterwards is
/// named with each.
#[derive(Debug, Clone, Copy, PartialEq, Eq, Structural)]
pub enum WifiAction {
    /// Ask the radio whether it was started; report `RadioStarted`.
    QueryRadio,
    /// Hand over the network's name and password; report `Configured`.
    Configure,
    /// Start the radio; report `Started`.
    Start,
    /// List the access points in reach; report `Scanned`.
    Scan,
    /// Join the access point; report `Joined`.
    Join,
    /// Wait until the link is lost; report `Disconnected`.
    AwaitDisconnect,
    /// Wait; report `DelayElapsed`.
    Sleep { secs: u64 },
}

impl WifiState {
    /// The state after an event. An event that the state does not wait for
    /// changes nothing. The radio is configured and started only where it
    /// said that it was not started; a scan that fails is passed over.
    pub open spec fn after(self, event: WifiEvent) -> WifiState {
        match (self, event) {
            (WifiState::CheckingRadio, WifiEvent::RadioStarted(started)) => if started == Some(
                false,
            ) {
                WifiState::Configuring
            } else {
                WifiState::Scanning
            },
            (WifiState::Configuring, WifiEvent::Configured(ok)) => if ok {
                WifiState::Starting
            } else {
                WifiState::RetryDelay
            },
            (WifiState::Starting, WifiEvent::Started(ok)) => if ok {
                WifiState::Scanning
            } else {
                WifiState::RetryDelay
            },
            (WifiState::Scanning, WifiEvent::Scanned(_)) => WifiState::Connecting,
            (WifiState::Connecting, WifiEvent::Joined(ok)) => if ok {
                WifiState::Connected
            } else {
                WifiState::RetryDelay
            },
            (WifiState::Connected, WifiEvent::Disconnected) => WifiState::RejoinDelay,
            (WifiState::RetryDelay, WifiEvent::DelayElapsed) => WifiState::CheckingRadio,
            (WifiState::RejoinDelay, WifiEvent::DelayElapsed) => WifiState::CheckingRadio,
            _ => self,
        }
    }

    /// Whether the state waits for this kind of event.
    pub open spec fn awaits(self, event: WifiEvent) -> bool {
        match (self, event) {
            (WifiState::CheckingRadio, WifiEvent::RadioStarted(_)) => true,
            (WifiState::Configuring, WifiEvent::Configured(_)) => true,
            (WifiState::Starting, WifiEvent::Started(_)) => true,
            (WifiState::Scanning, WifiEvent::Scanned(_)) => true,
            (WifiState::Connecting, WifiEvent::Joined(_)) => true,
            (WifiState::Connected, WifiEvent::Disconnected) => true,
            (WifiState::RetryDelay, WifiEvent::DelayElapsed) => true,
            (WifiState::RejoinDelay, WifiEvent::DelayElapsed) => true,
            _ => false,
        }
    }

    /// What is to be done in a state.
    pub open spec fn awaited(self) -> WifiAction {
        match self {
            WifiState::CheckingRadio => WifiAction::QueryRadio,
            WifiState::Configuring => WifiAction::Configure,
            WifiState::Starting => WifiAction::Start,
            WifiState::Scanning => WifiAction::Scan,
            WifiState::Connecting => WifiAction::Join,
            WifiState::Connected => WifiAction::AwaitDisconnect,
            WifiState::RetryDelay => WifiAction::Sleep { secs: WIFI_RETRY_DELAY_SECS },
            WifiState::RejoinDelay => WifiAction::Sleep { secs: WIFI_REJOIN_DELAY_SECS },
        }
    }

    /// Where the link stands in this state.
    pub open spec fn connection(self) -> ConnectionState {
        match self {
            WifiState::CheckingRadio | WifiState::RejoinDelay => ConnectionState::Disconnected,
            WifiState::Configuring | WifiState::Starting | WifiState::Scanning
            | WifiState::Connecting => ConnectionState::Connecting,
            WifiState::Connected => ConnectionState::Connected,
            WifiState::RetryDelay => ConnectionState::Error,
        }
    }

    /// The state in which the radio task starts.
    pub fn new() -> (state: WifiState)
        ensures
            state == WifiState::CheckingRadio,
    {
        WifiState::CheckingRadio
    }

    /// Takes an event and moves on.
    pub fn on_event(self, event: WifiEvent) -> (next: WifiState)
        ensures
            next == self.after(event),
    {
        match (self, event) {
            (WifiState::CheckingRadio, WifiEvent::RadioStarted(started)) => match started {
                Some(false) => WifiState::Configuring,
                _ => WifiState::Scanning,
            },
            (WifiState::Configuring, WifiEvent::Configured(ok)) => {
                if ok {
                    WifiState::Starting
                } else {
                    WifiState::RetryDelay
                }
            },
            (WifiState::Starting, WifiEvent::Started(ok)) => {
                if ok {
                    WifiState::Scanning
                } else {
                    WifiState::RetryDelay
                }
            },
            (WifiState::Scanning, WifiEvent::Scanned(_)) => WifiState::Connecting,
            (WifiState::Connecting, WifiEvent::Joined(ok)) => {
                if ok {
                    WifiState::Connected
                } else {
                    WifiState::RetryDelay
                }
            },
            (WifiState::Connected, WifiEvent::Disconnected) => WifiState::RejoinDelay,
            (WifiState::RetryDelay, WifiEvent::DelayElapsed) => WifiState::CheckingRadio,
            (WifiState::RejoinDelay, WifiEvent::DelayElapsed) => WifiState::CheckingRadio,
            (state, _) => state,
        }
    }

    /// What the task is to do in this state.
    pub fn action(&self) -> (action: WifiAction)
        ensures
            action == self.awaited(),
    {
        match self {
            WifiState::CheckingRadio => WifiAction::QueryRadio,
            WifiState::Configuring => WifiAction::Configure,
            WifiState::Starting => WifiAction::Start,
            WifiState::Scanning => WifiAction::Scan,
            WifiState::Connecting => WifiAction::Join,
            WifiState::Connected => WifiAction::AwaitDisconnect,
            WifiState::RetryDelay => WifiAction::Sleep { secs: WIFI_RETRY_DELAY_SECS },
            WifiState::RejoinDelay => WifiAction::Sleep { secs: WIFI_REJOIN_DELAY_SECS },
        }
    }

    /// Where the link stands.
    pub fn connection_state(&self) -> (state: ConnectionState)
        ensures
            state == self.connection(),
    {
        match self {
            WifiState::CheckingRadio | WifiState::RejoinDelay => ConnectionState::Disconnected,
            WifiState::Configuring | WifiState::Starting | WifiState::Scanning
            | WifiState::Connecting => ConnectionState::Connecting,
            WifiState::Connected => ConnectionState::Connected,
            WifiState::RetryDelay => ConnectionState::Error,
        }
    }
}

/// One turn of the radio task: the state after the event, and what to do
/// in it.
pub fn wifi_step(state: WifiState, event: WifiEvent) -> (turn: (WifiState, WifiAction))
    ensures
        turn.0 == state.after(event),
        turn.1 == turn.0.awaited(),
{
    let next = state.on_event(event);
    let action = next.action();
    (next, action)
}

/// Every step that fails leads to a wait and from there to a new round; a
/// link that is lost does the same after a shorter wait. No state is the
/// last one.
pub proof fn lemma_wifi_failures_are_retried(state: WifiState, event: WifiEvent)
    ensures
        WifiState::Configuring.after(WifiEvent::Configured(false)) == WifiState::RetryDelay,
        WifiState::Starting.after(WifiEvent::Started(false)) == WifiState::RetryDelay,
        WifiState::Connecting.after(WifiEvent::Joined(false)) == WifiState::RetryDelay,
        WifiState::Connected.after(WifiEvent::Disconnected) == WifiState::RejoinDelay,
        WifiState::RetryDelay.after(WifiEvent::DelayElapsed) == WifiState::CheckingRadio,
        WifiState::RejoinDelay.after(WifiEvent::DelayElapsed) == WifiState::CheckingRadio,
        WifiState::RetryDelay.awaited() == (WifiAction::Sleep { secs: WIFI_RETRY_DELAY_SECS }),
        WifiState::RejoinDelay.awaited() == (WifiAction::Sleep { secs: WIFI_REJOIN_DELAY_SECS }),
        exists|wanted: WifiEvent| #[trigger] state.awaits(wanted),
        !state.awaits(event) ==> state.after(event) == state,
{
    match state {
        WifiState::CheckingRadio => {
            assert(state.awaits(WifiEvent::RadioStarted(None)));
        },
        WifiState::Configuring => {
            assert(state.awaits(WifiEvent::Configured(true)));
        },
        WifiState::Starting => {
            assert(state.awaits(WifiEvent::Started(true)));
        },
        WifiState::Scanning => {
            assert(state.awaits(WifiEvent::Scanned(true)));
        },
        WifiState::Connecting => {
            assert(state.awaits(WifiEvent::Joined(true)));
        },
        WifiState::Connected => {
            assert(state.awaits(WifiEvent::Disconnected));
        },
        WifiState::RetryDelay => {
            assert(state.awaits(WifiEvent::DelayElapsed));
        },
        WifiState::RejoinDelay => {
            assert(state.awaits(WifiEvent::DelayElapsed));
        },
    }
}

} // verus!
