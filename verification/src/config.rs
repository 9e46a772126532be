//! Fixed settings of the device.

use vstd::prelude::*;

verus! {

/// Level of the one lit channel of a canonical colour, out of 255.
pub const LED_BRIGHTNESS: u8 = 10;

/// Seconds between two ticks of the state owner.
pub const BLINK_INTERVAL_SECS: u64 = 1;

/// Messages that one subscription holds before the oldest is overwritten.
pub const COLOR_QUEUE_CAPACITY: usize = 2;

/// Subscriptions that the colour broadcast admits at one time.
pub const MAX_COLOR_SUBSCRIBERS: usize = 10;

/// Workers of the interactive front end, one client each.
pub const HTTP_WORKERS: usize = 4;

/// Seconds a refused client is told to wait before it asks again.
pub const HTTP_RETRY_AFTER_SECS: u64 = 5;

/// Milliseconds between two looks at the network while waiting for it.
pub const NETWORK_POLL_MILLIS: u64 = 500;

/// Port of the telemetry broker.
pub const MQTT_PORT: u16 = 1883;

/// Seconds the telemetry publisher waits after a failure.
pub const MQTT_RECONNECT_DELAY_SECS: u64 = 5;

/// Seconds granted to one name lookup.
pub const DNS_TIMEOUT_SECS: u64 = 10;

/// Seconds the discovery responder waits after a failure.
pub const MDNS_RECONNECT_DELAY_SECS: u64 = 5;

/// Seconds other hosts may cache a discovery answer.
pub const MDNS_TTL_SECS: u32 = 120;

/// Port of multicast name resolution.
pub const MDNS_PORT: u16 = 5353;

/// Seconds the radio task waits after a failed start or connect.
pub const WIFI_RETRY_DELAY_SECS: u64 = 5;

/// Seconds the radio task waits after the access point dropped it.
pub const WIFI_REJOIN_DELAY_SECS: u64 = 2;

} // verus!
