//! The cartridge: a passive storage variant implementing the memory
//! capability for the low address window, plus a parallel external-RAM
//! capability queried by the MMU for the external-RAM window. Only the
//! fixed-ROM variant is functional; the bank-switched variants reserve the
//! extension surface and are never dispatched by verified code.

use vstd::prelude::*;
use crate::util::Fault;
use crate::util::Memory;

verus! {

/// The largest ROM image the fixed-ROM variant stores; smaller images are
/// zero-padded up to this size.
pub const ROM_ONLY_SIZE: usize = 0xFFFF;

/// The byte returned when the external-RAM window is read but the cartridge
/// has no RAM backing.
pub const NO_RAM_READ_VALUE: u8 = 0xFF;

#[derive(Debug, Clone)]
pub enum Cartridge {
    RomOnly(Vec<u8>),
    MBC1 {},
    MBC2 {},
    MBC3 {},
    MBC5 {},
    Rumble {},
    HuC1 {},
}

impl View for Cartridge {
    type V = Seq<u8>;

    open spec fn view(&self) -> Seq<u8> {
        match self {
            Cartridge::RomOnly(rom) => rom@,
            _ => Seq::empty(),
        }
    }
}

impl Cartridge {
    /// Build a fixed-ROM cartridge from an image of at most `ROM_ONLY_SIZE`
    /// bytes, zero-padded up to that size; a larger image is invalid.
    pub fn maybe_from_bytes(bytes: &[u8]) -> (r: Option<Cartridge>)
        ensures
            match r {
                Some(cartridge) => {
                    &&& bytes@.len() <= ROM_ONLY_SIZE
                    &&& cartridge.wf()
                    &&& forall|i: int| 0 <= i < bytes@.len() ==> cartridge@[i] == bytes@[i]
                    &&& forall|i: int| bytes@.len() <= i < ROM_ONLY_SIZE ==> cartridge@[i] == 0u8
                },
                None => bytes@.len() > ROM_ONLY_SIZE,
            },
    {
        if bytes.len() <= ROM_ONLY_SIZE {
            let mut buffer: Vec<u8> = Vec::new();
            let mut i: usize = 0;
            while i < bytes.len()
                invariant
                    i <= bytes@.len() <= ROM_ONLY_SIZE,
                    buffer@.len() == i,
                    forall|j: int| 0 <= j < i ==> buffer@[j] == bytes@[j],
                decreases bytes@.len() - i,
            {
                buffer.push(bytes[i]);
                i += 1;
            }
            while i < ROM_ONLY_SIZE
                invariant
                    bytes@.len() <= i <= ROM_ONLY_SIZE,
                    buffer@.len() == i,
                    forall|j: int| 0 <= j < bytes@.len() ==> buffer@[j] == bytes@[j],
                    forall|j: int| bytes@.len() <= j < i ==> buffer@[j] == 0u8,
                decreases ROM_ONLY_SIZE - i,
            {
                buffer.push(0);
                i += 1;
            }
            Some(Cartridge::RomOnly(buffer))
        } else {
            None
        }
    }

    /// Read from the cartridge's external RAM; the fixed-ROM variant has
    /// none, so every read returns the "no RAM present" sentinel.
    pub fn read_ram(&self, address: u16) -> (r: u8)
        ensures
            r == NO_RAM_READ_VALUE,
    {
        let _ = address;
        NO_RAM_READ_VALUE
    }

    /// Write to the cartridge's external RAM; no current variant has RAM
    /// backing, so every write is refused with a fault naming the offending
    /// address and the attempted value.
    pub fn write_ram(&mut self, address: u16, value: u8) -> (r: Result<(), Fault>)
        ensures
            *final(self) == *old(self),
            r == Err::<(), Fault>(Fault::UnimplementedWrite { address, value }),
    {
        Err(Fault::UnimplementedWrite { address, value })
    }
}

impl Memory for Cartridge {
    open spec fn wf(&self) -> bool {
        &&& self matches Cartridge::RomOnly(rom)
        &&& self@.len() == ROM_ONLY_SIZE
    }

    open spec fn read_req(&self, address: u16) -> bool {
        address < ROM_ONLY_SIZE
    }

    open spec fn read_spec(&self, address: u16) -> u8 {
        self@[address as int]
    }

    open spec fn write_ok(address: u16) -> bool {
        true
    }

    open spec fn write_fault(address: u16, value: u8) -> Fault {
        Fault::UnimplementedWrite { address, value }
    }

    open spec fn write_rel(pre: Self, post: Self, address: u16, value: u8) -> bool {
        post == pre
    }

    fn read(&self, address: u16) -> (r: u8) {
        match self {
            Cartridge::RomOnly(rom) => rom[address as usize],
            _ => {
                proof {
                    assert(false);
                }
                NO_RAM_READ_VALUE
            },
        }
    }

    /// Writes to the ROM window are legal no-ops.
    fn write(&mut self, address: u16, value: u8) -> (r: Result<(), Fault>) {
        let _ = address;
        let _ = value;
        match self {
            Cartridge::RomOnly(_) => Ok(()),
            _ => {
                proof {
                    assert(false);
                }
                Ok(())
            },
        }
    }
}

} // verus!
