//! Linux usbmon capture records (URBs) of CMSIS-DAP traffic.

use vstd::prelude::*;
use vstd::std_specs::convert::FromSpecImpl;
use crate::bits::{le_value16, le16_value};

verus! {

/// Implemented on types that describe a USB request block.
pub trait AsUrb {
    fn is_complete(&self) -> bool;

    fn urb_type(&self) -> u8;

    fn ep(&self) -> u8;

    fn tt(&self) -> UrbTransferType;

    fn rt(&self) -> u8;

    fn req(&self) -> u8;

    fn idx(&self) -> u16;

    fn val(&self) -> u16;

    fn len(&self) -> u16;

    fn dir(&self) -> Dir;
}

/// Direction of a transfer, seen from the host.
#[derive(Clone, Copy, Debug, PartialEq, Eq, Structural)]
pub enum Dir {
    Rx,
    Tx,
}

/// The 64-byte header of a Linux usbmon record.
#[derive(Clone, Copy, Debug)]
pub struct LinuxUrbData {
    pub data: [u8; 0x40],
}

impl LinuxUrbData {
    /// The record header held in `slice`, which must be exactly 64 bytes.
    pub fn from_slice(slice: &[u8]) -> (r: Self)
        requires
            slice@.len() == 0x40,
        ensures
            r.data@ == slice@,
    {
        let mut data = [0u8; 0x40];
        let mut i: usize = 0;
        while i < 0x40
            invariant
                slice@.len() == 0x40,
                i <= 0x40,
                data@.len() == 0x40,
                forall|j: int| 0 <= j < i ==> data@[j] == slice@[j],
            decreases 0x40 - i,
        {
            data[i] = slice[i];
            i = i + 1;
        }
        assert(data@ =~= slice@);
        Self { data }
    }
}

impl AsUrb for LinuxUrbData {
    /// A completion record ('C').
    fn is_complete(&self) -> (r: bool)
        ensures
            r == (self.data@[0x08] == 0x43),
    {
        self.urb_type() == 0x43
    }

    fn urb_type(&self) -> (r: u8)
        ensures
            r == self.data@[0x08],
    {
        self.data[0x08]
    }

    fn tt(&self) -> (r: UrbTransferType)
        ensures
            r == spec_urb_transfer_type(self.data@[0x09]),
    {
        UrbTransferType::from_byte(self.data[0x09])
    }

    fn ep(&self) -> (r: u8)
        ensures
            r == self.data@[0x0a],
    {
        self.data[0x0a]
    }

    /// IN endpoints (bit 7 set) receive; the others transmit.
    fn dir(&self) -> (r: Dir)
        ensures
            r == (if self.data@[0x0a] & 0x80 != 0 {
                Dir::Rx
            } else {
                Dir::Tx
            }),
    {
        if self.ep() & 0x80 != 0 {
            Dir::Rx
        } else {
            Dir::Tx
        }
    }

    fn rt(&self) -> (r: u8)
        ensures
            r == self.data@[0x28],
    {
        self.data[0x28]
    }

    fn req(&self) -> (r: u8)
        ensures
            r == self.data@[0x29],
    {
        self.data[0x29]
    }

    fn val(&self) -> (r: u16)
        ensures
            r == le_value16(self.data@[0x2a], self.data@[0x2b]),
    {
        le16_value(self.data[0x2a], self.data[0x2b])
    }

    fn idx(&self) -> (r: u16)
        ensures
            r == le_value16(self.data@[0x2c], self.data@[0x2d]),
    {
        le16_value(self.data[0x2c], self.data[0x2d])
    }

    fn len(&self) -> (r: u16)
        ensures
            r == le_value16(self.data@[0x2e], self.data@[0x2f]),
    {
        le16_value(self.data[0x2e], self.data[0x2f])
    }
}

/// USB transfer type of a record.
#[derive(Clone, Copy, Debug, PartialEq, Eq, Structural)]
pub enum UrbTransferType {
    Intr,
    Ctrl,
    Bulk,
    Unk(u8),
}

pub open spec fn spec_urb_transfer_type(x: u8) -> UrbTransferType {
    if x == 0x01 {
        UrbTransferType::Intr
    } else if x == 0x02 {
        UrbTransferType::Ctrl
    } else if x == 0x03 {
        UrbTransferType::Bulk
    } else {
        UrbTransferType::Unk(x)
    }
}

impl UrbTransferType {
    pub fn from_byte(x: u8) -> (r: Self)
        ensures
            r == spec_urb_transfer_type(x),
    {
        match x {
            0x01 => UrbTransferType::Intr,
            0x02 => UrbTransferType::Ctrl,
            0x03 => UrbTransferType::Bulk,
            _ => UrbTransferType::Unk(x),
        }
    }
}

impl From<u8> for UrbTransferType {
    fn from(x: u8) -> (r: Self) {
        Self::from_byte(x)
    }
}

impl FromSpecImpl<u8> for UrbTransferType {
    open spec fn obeys_from_spec() -> bool {
        true
    }

    open spec fn from_spec(x: u8) -> Self {
        spec_urb_transfer_type(x)
    }
}

} // verus!
