//! The bus capability a sensor session is driven through.
//!
//! A session owns exactly one transport.  The transport performs the raw
//! bus work — writing frames, reading responses, sleeping out the device's
//! settle delay and providing a monotonic clock for the staleness policy —
//! while every decision about the bytes themselves stays in the session and
//! the codec.  Nothing is assumed about a transport's behaviour: the
//! session is verified against every reply a transport could give.

use vstd::prelude::*;
use crate::error::TransportError;

verus! {

/// Address-scoped, blocking access to the two-wire bus plus the
/// environment effects the session needs (settle delay, wall clock).
pub trait Transport {
    /// Scopes all following reads and writes to the device at `address`.
    fn set_slave_address(&mut self, address: u16) -> Result<(), TransportError>;

    /// Writes one outbound frame to the selected device.
    fn write(&mut self, data: &[u8]) -> Result<(), TransportError>;

    /// Reads up to `count` response bytes from the selected device and
    /// returns exactly the bytes received, however many that was.
    fn read(&mut self, count: usize) -> Result<Vec<u8>, TransportError>;

    /// The bus clock speed in hertz.
    fn bus_speed(&mut self) -> Result<u32, TransportError>;

    /// Blocks the calling thread for `ms` milliseconds, giving the device
    /// its command-to-response turnaround time.
    fn sleep_ms(&mut self, ms: u64);

    /// Seconds elapsed on a monotonic clock; consecutive calls never
    /// decrease on a well-behaved transport, though nothing here relies
    /// on that.
    fn now_secs(&mut self) -> u64;
}

} // verus!
