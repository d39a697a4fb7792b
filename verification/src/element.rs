//! Transferable data-unit widths and buffer descriptions.

use vstd::prelude::*;

verus! {

/// Width of one transferable data unit, together with its hardware size
/// encoding. The controller moves data in units of 1, 2 or 4 bytes.
#[derive(Clone, Copy, PartialEq, Eq, Structural, Debug)]
pub enum ElementSize {
    /// One byte per element.
    One,
    /// Two bytes per element.
    Two,
    /// Four bytes per element.
    Four,
}

impl ElementSize {
    /// Number of bytes in one element of this width.
    pub open spec fn bytes_spec(self) -> nat {
        match self {
            ElementSize::One => 1,
            ElementSize::Two => 2,
            ElementSize::Four => 4,
        }
    }

    /// Number of bytes in one element of this width.
    pub fn bytes(self) -> (r: u32)
        ensures
            r == self.bytes_spec(),
    {
        match self {
            ElementSize::One => 1,
            ElementSize::Two => 2,
            ElementSize::Four => 4,
        }
    }

    /// The encoding of this width in a transfer descriptor's attribute field.
    pub open spec fn data_transfer_id_spec(self) -> u8 {
        match self {
            ElementSize::One => 0,
            ElementSize::Two => 1,
            ElementSize::Four => 2,
        }
    }

    /// The encoding of this width in a transfer descriptor's attribute field.
    pub fn data_transfer_id(self) -> (r: u8)
        ensures
            r == self.data_transfer_id_spec(),
    {
        match self {
            ElementSize::One => 0,
            ElementSize::Two => 1,
            ElementSize::Four => 2,
        }
    }
}

/// A linear region of model memory: `len` elements of width `size` starting
/// at byte address `address`.
#[derive(Clone, Copy, PartialEq, Eq, Structural, Debug)]
pub struct Buffer {
    /// Byte address of the first element.
    pub address: u32,
    /// Number of elements in the region.
    pub len: u32,
    /// Width of each element.
    pub size: ElementSize,
}

impl Buffer {
    /// Total number of bytes the region covers.
    pub open spec fn size_bytes_spec(self) -> nat {
        (self.len * self.size.bytes_spec()) as nat
    }
}

} // verus!
