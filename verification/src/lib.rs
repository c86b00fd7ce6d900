//! Driver core for the SCD30 CO2, temperature and humidity sensor.
//!
//! The sensor speaks a word-oriented command protocol over a two-wire bus:
//! 16-bit command codes and arguments are serialized big-endian, payloads are
//! protected by a CRC-8 checksum, and measurement replies decode into
//! IEEE-754 bit patterns.  The [`codec`] module holds the pure byte-level
//! framing and checksum logic; [`transport`] defines the bus capability a
//! session is driven through; [`sensor`] holds the stateful session with its
//! staleness-gated measurement cache.

pub mod codec;
pub mod error;
pub mod sensor;
pub mod transport;
