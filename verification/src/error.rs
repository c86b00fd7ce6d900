//! Error kinds shared by the frame codec and the sensor session.

use vstd::prelude::*;

verus! {

/// The underlying bus transport failed.  The driver does not interpret
/// bus-specific error details; a transport failure is surfaced as-is and is
/// never retried.
#[derive(Clone, Copy, PartialEq, Eq, Structural, Debug)]
pub struct TransportError;

/// Every operation of the driver either fully succeeds or fails fast with
/// one of these kinds.
#[derive(Debug)]
pub enum Error {
    /// The bus transport itself failed.
    Transport(TransportError),
    /// A read returned fewer or more bytes than the frame type requires.
    NoData(String),
    /// A checksum mismatch on a response word or measurement half: the data
    /// was garbled on the wire, as opposed to the bus being unreachable.
    CrcError(String),
    /// Reserved for unsupported operations.
    NotImplemented,
}

} // verus!
