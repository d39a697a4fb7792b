//! DMA error status.

use vstd::prelude::*;

verus! {

/// Error status bit: the recorded status is valid.
pub const ES_VLD: u32 = 0x8000_0000;
/// Error status bit: a transfer was cancelled.
pub const ES_ECX: u32 = 0x0001_0000;
/// Error status bit: group priority error.
pub const ES_GPE: u32 = 0x0000_8000;
/// Error status bit: channel priority error.
pub const ES_CPE: u32 = 0x0000_4000;
/// Error status bit: source address error.
pub const ES_SAE: u32 = 0x0000_0080;
/// Error status bit: source offset error.
pub const ES_SOE: u32 = 0x0000_0040;
/// Error status bit: destination address error.
pub const ES_DAE: u32 = 0x0000_0020;
/// Error status bit: destination offset error.
pub const ES_DOE: u32 = 0x0000_0010;
/// Error status bit: minor-loop byte count or iteration count error.
pub const ES_NCE: u32 = 0x0000_0008;
/// Error status bit: scatter/gather configuration error.
pub const ES_SGE: u32 = 0x0000_0004;
/// Error status bit: source bus error.
pub const ES_SBE: u32 = 0x0000_0002;
/// Error status bit: destination bus error.
pub const ES_DBE: u32 = 0x0000_0001;

/// A wrapper around a DMA error status value.
///
/// The wrapper holds a copy of the controller's error status register at the
/// point of an error. It is purely diagnostic: the accessors decode the
/// individual condition flags for display or logging.
#[derive(Clone, Copy, PartialEq, Eq, Structural, Debug)]
pub struct Error {
    /// The raw error status.
    pub es: u32,
}

impl Error {
    /// Wraps a raw error status register value.
    pub fn new(es: u32) -> (r: Self)
        ensures
            r.es == es,
    {
        Error { es }
    }

    /// Returns the raw error status value.
    pub fn raw(self) -> (r: u32)
        ensures
            r == self.es,
    {
        self.es
    }

    /// The recorded status describes an error that was actually captured.
    pub fn is_valid(self) -> (r: bool)
        ensures
            r == ((self.es >> 31) & 1 == 1),
    {
        (self.es >> 31) & 1 == 1
    }

    /// A transfer was cancelled.
    pub fn transfer_cancelled(self) -> (r: bool)
        ensures
            r == ((self.es >> 16) & 1 == 1),
    {
        (self.es >> 16) & 1 == 1
    }

    /// Group priority configuration error.
    pub fn group_priority_error(self) -> (r: bool)
        ensures
            r == ((self.es >> 15) & 1 == 1),
    {
        (self.es >> 15) & 1 == 1
    }

    /// Channel priority configuration error.
    pub fn channel_priority_error(self) -> (r: bool)
        ensures
            r == ((self.es >> 14) & 1 == 1),
    {
        (self.es >> 14) & 1 == 1
    }

    /// Index of the channel that recorded the most recent error.
    pub fn error_channel(self) -> (r: u32)
        ensures
            r == (self.es >> 8) & 0x1F,
    {
        (self.es >> 8) & 0x1F
    }

    /// The source address was not aligned to the source element width.
    pub fn source_address_error(self) -> (r: bool)
        ensures
            r == ((self.es >> 7) & 1 == 1),
    {
        (self.es >> 7) & 1 == 1
    }

    /// The source offset was not a multiple of the source element width.
    pub fn source_offset_error(self) -> (r: bool)
        ensures
            r == ((self.es >> 6) & 1 == 1),
    {
        (self.es >> 6) & 1 == 1
    }

    /// The destination address was not aligned to the destination element width.
    pub fn destination_address_error(self) -> (r: bool)
        ensures
            r == ((self.es >> 5) & 1 == 1),
    {
        (self.es >> 5) & 1 == 1
    }

    /// The destination offset was not a multiple of the destination element width.
    pub fn destination_offset_error(self) -> (r: bool)
        ensures
            r == ((self.es >> 4) & 1 == 1),
    {
        (self.es >> 4) & 1 == 1
    }

    /// The minor-loop byte count or the iteration count was unusable.
    pub fn nbytes_citer_error(self) -> (r: bool)
        ensures
            r == ((self.es >> 3) & 1 == 1),
    {
        (self.es >> 3) & 1 == 1
    }

    /// Scatter/gather configuration error.
    pub fn scatter_gather_error(self) -> (r: bool)
        ensures
            r == ((self.es >> 2) & 1 == 1),
    {
        (self.es >> 2) & 1 == 1
    }

    /// The controller could not read from the source.
    pub fn source_bus_error(self) -> (r: bool)
        ensures
            r == ((self.es >> 1) & 1 == 1),
    {
        (self.es >> 1) & 1 == 1
    }

    /// The controller could not write to the destination.
    pub fn destination_bus_error(self) -> (r: bool)
        ensures
            r == (self.es & 1 == 1),
    {
        self.es & 1 == 1
    }
}

} // verus!
