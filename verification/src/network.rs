//! What every adapter needs of the network: whether it can be used yet, and
//! the four states that a connection to a peer goes through.

use vstd::prelude::*;

verus! {

/// An IPv4 address, its four bytes in the order in which they are written.
#[derive(Debug, Clone, Copy, PartialEq, Eq, Structural)]
pub struct Ipv4Address {
    pub a: u8,
    pub b: u8,
    pub c: u8,
    pub d: u8,
}

/// An address as a name lookup returns it.
#[derive(Debug, Clone, Copy, PartialEq, Eq, Structural)]
pub enum IpAddress {
    V4(Ipv4Address),
    /// An IPv6 address; its bytes are of no use to this device.
    V6,
}

/// What one look at the network found.
#[derive(Debug, Clone, Copy, PartialEq, Eq, Structural)]
pub struct NetworkStatus {
    /// The link to the access point stands.
    pub link_up: bool,
    /// The address that was assigned, if one was.
    pub address: Option<Ipv4Address>,
}

/// Where a connection to a peer stands.
#[derive(Debug, Clone, Copy, PartialEq, Eq, Structural)]
pub enum ConnectionState {
    Disconnected,
    Connecting,
    Connected,
    Error,
}

impl NetworkStatus {
    /// The network can be used: the link stands and an address is assigned.
    pub open spec fn ready(self) -> bool {
        self.link_up && self.address is Some
    }

    /// Whether the network can be used: the link stands and an address is
    /// assigned.
    pub fn is_ready(&self) -> (ready: bool)
        ensures
            ready == self.ready(),
    {
        self.link_up && self.address.is_some()
    }
}

/// The steps of the task that reports the address once: it waits for the
/// link, then for the address.
#[derive(Debug, Clone, Copy, PartialEq, Eq, Structural)]
pub enum DhcpPhase {
    WaitingForLink,
    WaitingForAddress,
    /// The address is known and was reported; the task is over.
    Done(Ipv4Address),
}

impl DhcpPhase {
    /// The phase after one look at the network. The link is waited for
    /// first; once it was seen, only the address counts.
    pub open spec fn after(self, status: NetworkStatus) -> DhcpPhase {
        match self {
            DhcpPhase::WaitingForLink => if !status.link_up {
                DhcpPhase::WaitingForLink
            } else {
                match status.address {
                    Some(address) => DhcpPhase::Done(address),
                    None => DhcpPhase::WaitingForAddress,
                }
            },
            DhcpPhase::WaitingForAddress => match status.address {
                Some(address) => DhcpPhase::Done(address),
                None => DhcpPhase::WaitingForAddress,
            },
            DhcpPhase::Done(address) => DhcpPhase::Done(address),
        }
    }

    /// Takes one look at the network. While the result is not `Done`, the
    /// task sleeps for the poll interval and looks again.
    pub fn on_status(self, status: NetworkStatus) -> (next: DhcpPhase)
        ensures
            next == self.after(status),
    {
        match self {
            DhcpPhase::WaitingForLink => {
                if !status.link_up {
                    DhcpPhase::WaitingForLink
                } else {
                    match status.address {
                        Some(address) => DhcpPhase::Done(address),
                        None => DhcpPhase::WaitingForAddress,
                    }
                }
            },
            DhcpPhase::WaitingForAddress => match status.address {
                Some(address) => DhcpPhase::Done(address),
                None => DhcpPhase::WaitingForAddress,
            },
            DhcpPhase::Done(address) => DhcpPhase::Done(address),
        }
    }
}

/// The task that reports the address ends on the first look that finds the
/// network ready, and with the address that the look found.
pub proof fn lemma_dhcp_done_when_ready(phase: DhcpPhase, status: NetworkStatus)
    requires
        !(phase is Done),
        status.ready(),
    ensures
        phase.after(status) == DhcpPhase::Done(status.address->0),
{
}

} // verus!
