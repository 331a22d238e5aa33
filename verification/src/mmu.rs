//! The MMU: owner of every fixed-size backing store, decoder of the full
//! 16-bit address space into exactly one store or sentinel per access, and
//! keeper of the one-way boot-overlay latch.
//!
//! The mathematical model of the bus is `MemModel`: the contents of each
//! store as a sequence of bytes, the overlay latch, and the cartridge ROM.
//! `MemModel::read8` and `MemModel::write8` are the total decode functions
//! the executable `read` and `write` are proved against.

use vstd::prelude::*;
use crate::cartridge::Cartridge;
use crate::cartridge::NO_RAM_READ_VALUE;
use crate::cartridge::ROM_ONLY_SIZE;
use crate::util::Fault;
use crate::util::Memory;

verus! {

// 0000-00FF: the boot-ROM overlay, active while the overlay latch is on.
pub const BIOS_START_ADDRESS: u16 = 0x0000;
pub const BIOS_END_ADDRESS: u16 = 0x00FF;
pub const BIOS_SIZE: usize = 0x100;

// 0000-7FFF: the cartridge ROM window (the overlay takes priority over its
// first page while enabled).
pub const CARTRIDGE_START_ADDRESS: u16 = 0x0000;
pub const CARTRIDGE_END_ADDRESS: u16 = 0x7FFF;

// 8000-9FFF: video RAM, directly addressable and externally observable.
pub const VRAM_START_ADDRESS: u16 = 0x8000;
pub const VRAM_END_ADDRESS: u16 = 0x9FFF;
pub const VRAM_SIZE: usize = 0x2000;

// A000-BFFF: cartridge external RAM, delegated to the cartridge.
pub const EXTRAM_START_ADDRESS: u16 = 0xA000;
pub const EXTRAM_END_ADDRESS: u16 = 0xBFFF;

// C000-DFFF: work RAM; both banks alias the same backing store in this
// design, so the window folds onto one 4KB store.
pub const RAM_START_ADDRESS: u16 = 0xC000;
pub const RAM_END_ADDRESS: u16 = 0xDFFF;
pub const RAM_SIZE: usize = 0x1000;

// E000-FDFF: echo of work RAM; reads and writes alias the same store.
pub const ERAM_START_ADDRESS: u16 = 0xE000;
pub const ERAM_END_ADDRESS: u16 = 0xFDFF;

// FE00-FE9F: sprite attribute memory.
pub const OAM_START_ADDRESS: u16 = 0xFE00;
pub const OAM_END_ADDRESS: u16 = 0xFE9F;
pub const OAM_SIZE: usize = 0xA0;

// FEA0-FEFF: unusable; reads return a fixed sentinel, writes are no-ops.
pub const UNUSABLE_START_ADDRESS: u16 = 0xFEA0;
pub const UNUSABLE_END_ADDRESS: u16 = 0xFEFF;
pub const UNUSABLE_READ_VALUE: u8 = 0xFF;

// FF00-FF7F: the I/O register block; one byte of it disables the overlay.
pub const IO_START_ADDRESS: u16 = 0xFF00;
pub const BIOS_DISABLE_REGISTER_ADDRESS: u16 = 0xFF50;
pub const IO_END_ADDRESS: u16 = 0xFF7F;
pub const IO_SIZE: usize = 0x80;

// FF80-FFFE: high RAM.
pub const HRAM_START_ADDRESS: u16 = 0xFF80;
pub const HRAM_END_ADDRESS: u16 = 0xFFFE;
pub const HRAM_SIZE: usize = 0x7F;

// FFFF: the interrupt-enable register, a single byte outside every store.
pub const INTERRUPT_ENABLE_REG_ADDRESS: u16 = 0xFFFF;

/// The byte the cartridge window reads as when no cartridge is installed.
pub const NO_CARTRIDGE_READ_VALUE: u8 = 0xFF;

/// The mathematical state of the bus: each backing store as a byte
/// sequence, the cartridge ROM, and the one-way boot-overlay latch.
#[verifier::ext_equal]
pub struct MemModel {
    pub has_cartridge: bool,
    pub rom: Seq<u8>,
    pub bios: Seq<u8>,
    pub bios_enabled: bool,
    pub vram: Seq<u8>,
    pub wram: Seq<u8>,
    pub oam: Seq<u8>,
    pub iom: Seq<u8>,
    pub hram: Seq<u8>,
    pub ie: u8,
}

/// The index into the shared work-RAM store that `address` (in the work-RAM
/// or echo window) falls on; both banks and the echo fold onto one store.
pub open spec fn wram_index(address: u16) -> int {
    if address <= RAM_END_ADDRESS {
        (address - RAM_START_ADDRESS) % 0x1000
    } else {
        (address - ERAM_START_ADDRESS) % 0x1000
    }
}

/// Whether a write to `address` has a defined outcome; only the external-RAM
/// window faults, since no current cartridge variant has RAM backing.
pub open spec fn mmu_write_ok(address: u16) -> bool {
    !(EXTRAM_START_ADDRESS <= address && address <= EXTRAM_END_ADDRESS)
}

/// The addresses whose writes land in an owned, readable-back store: video
/// RAM, work RAM (either bank or the echo), sprite memory, the I/O block,
/// high RAM, and the interrupt-enable register.
pub open spec fn ram_backed(address: u16) -> bool {
    ||| (VRAM_START_ADDRESS <= address && address <= VRAM_END_ADDRESS)
    ||| (RAM_START_ADDRESS <= address && address <= ERAM_END_ADDRESS)
    ||| (OAM_START_ADDRESS <= address && address <= OAM_END_ADDRESS)
    ||| IO_START_ADDRESS <= address
}

/// Whether two addresses resolve to the same backing cell (equal, or
/// aliased onto the same work-RAM byte).
pub open spec fn same_cell(a: u16, b: u16) -> bool {
    ||| a == b
    ||| {
        &&& RAM_START_ADDRESS <= a && a <= ERAM_END_ADDRESS
        &&& RAM_START_ADDRESS <= b && b <= ERAM_END_ADDRESS
        &&& wram_index(a) == wram_index(b)
    }
}

/// An all-zero byte sequence of length `n`.
pub open spec fn zero_bytes(n: nat) -> Seq<u8> {
    Seq::new(n, |i: int| 0u8)
}

impl MemModel {
    /// Every store has its fixed size, and an installed cartridge holds a
    /// full-size (pre-padded) ROM image.
    pub open spec fn wf(self) -> bool {
        &&& self.bios.len() == BIOS_SIZE
        &&& self.vram.len() == VRAM_SIZE
        &&& self.wram.len() == RAM_SIZE
        &&& self.oam.len() == OAM_SIZE
        &&& self.iom.len() == IO_SIZE
        &&& self.hram.len() == HRAM_SIZE
        &&& (self.has_cartridge ==> self.rom.len() == ROM_ONLY_SIZE)
    }

    /// The model with every store zeroed, the overlay active, and no
    /// cartridge installed.
    pub open spec fn zeroed() -> MemModel {
        MemModel {
            has_cartridge: false,
            rom: Seq::empty(),
            bios: zero_bytes(BIOS_SIZE as nat),
            bios_enabled: true,
            vram: zero_bytes(VRAM_SIZE as nat),
            wram: zero_bytes(RAM_SIZE as nat),
            oam: zero_bytes(OAM_SIZE as nat),
            iom: zero_bytes(IO_SIZE as nat),
            hram: zero_bytes(HRAM_SIZE as nat),
            ie: 0,
        }
    }

    /// The total address decode: the byte every address reads as. Every
    /// address in the 16-bit space resolves to exactly one store or
    /// sentinel; there are no domain gaps.
    #[verifier::opaque]
    pub open spec fn read8(self, address: u16) -> u8 {
        if address <= BIOS_END_ADDRESS && self.bios_enabled {
            self.bios[address as int]
        } else if address <= CARTRIDGE_END_ADDRESS {
            if self.has_cartridge {
                self.rom[address as int]
            } else {
                NO_CARTRIDGE_READ_VALUE
            }
        } else if address <= VRAM_END_ADDRESS {
            self.vram[address - VRAM_START_ADDRESS]
        } else if address <= EXTRAM_END_ADDRESS {
            NO_RAM_READ_VALUE
        } else if address <= ERAM_END_ADDRESS {
            self.wram[wram_index(address)]
        } else if address <= OAM_END_ADDRESS {
            self.oam[address - OAM_START_ADDRESS]
        } else if address <= UNUSABLE_END_ADDRESS {
            UNUSABLE_READ_VALUE
        } else if address <= IO_END_ADDRESS {
            self.iom[address - IO_START_ADDRESS]
        } else if address <= HRAM_END_ADDRESS {
            self.hram[address - HRAM_START_ADDRESS]
        } else {
            self.ie
        }
    }

    /// The effect of an accepted write: ROM-window and unusable-window
    /// writes are no-ops, a nonzero write to the disable register drops the
    /// overlay latch for good, and every other write updates its store.
    /// (Only defined up to `mmu_write_ok`; the external-RAM window faults.)
    #[verifier::opaque]
    pub open spec fn write8(self, address: u16, value: u8) -> MemModel {
        if address <= CARTRIDGE_END_ADDRESS {
            self
        } else if address <= VRAM_END_ADDRESS {
            MemModel { vram: self.vram.update(address - VRAM_START_ADDRESS, value), ..self }
        } else if address <= EXTRAM_END_ADDRESS {
            self
        } else if address <= ERAM_END_ADDRESS {
            MemModel { wram: self.wram.update(wram_index(address), value), ..self }
        } else if address <= OAM_END_ADDRESS {
            MemModel { oam: self.oam.update(address - OAM_START_ADDRESS, value), ..self }
        } else if address <= UNUSABLE_END_ADDRESS {
            self
        } else if address <= IO_END_ADDRESS {
            MemModel {
                iom: self.iom.update(address - IO_START_ADDRESS, value),
                bios_enabled: self.bios_enabled
                    && !(address == BIOS_DISABLE_REGISTER_ADDRESS && value != 0),
                ..self
            }
        } else if address <= HRAM_END_ADDRESS {
            MemModel { hram: self.hram.update(address - HRAM_START_ADDRESS, value), ..self }
        } else {
            MemModel { ie: value, ..self }
        }
    }
}

#[derive(Debug)]
pub struct MMU {
    pub cartridge: Option<Cartridge>,
    pub bios: Vec<u8>,
    /// The one-way boot-overlay latch: dropped by the first nonzero write to
    /// the disable register and never raised again, so a later clear of that
    /// register cannot re-enable the overlay.
    pub bios_enabled: bool,
    pub vram: Vec<u8>,
    pub wram: Vec<u8>,
    pub oam: Vec<u8>,
    pub iom: Vec<u8>,
    pub hram: Vec<u8>,
    /// Interrupt enable register.
    pub ie: u8,
}

impl View for MMU {
    type V = MemModel;

    open spec fn view(&self) -> MemModel {
        MemModel {
            has_cartridge: self.cartridge is Some,
            rom: match self.cartridge {
                Option::Some(cartridge) => cartridge@,
                Option::None => Seq::empty(),
            },
            bios: self.bios@,
            bios_enabled: self.bios_enabled,
            vram: self.vram@,
            wram: self.wram@,
            oam: self.oam@,
            iom: self.iom@,
            hram: self.hram@,
            ie: self.ie,
        }
    }
}

/// A zero-filled byte vector of the requested length.
fn zero_vec(n: usize) -> (v: Vec<u8>)
    ensures
        v@ == zero_bytes(n as nat),
{
    let mut v: Vec<u8> = Vec::new();
    let mut i: usize = 0;
    while i < n
        invariant
            i <= n,
            v@.len() == i,
            forall|j: int| 0 <= j < i ==> v@[j] == 0u8,
        decreases n - i,
    {
        v.push(0);
        i += 1;
    }
    proof {
        assert(v@ =~= zero_bytes(n as nat));
    }
    v
}

impl Default for MMU {
    /// A bus with every store zeroed, the overlay active, and no cartridge.
    fn default() -> (r: MMU)
        ensures
            r.wf(),
            r@ == MemModel::zeroed(),
    {
        MMU {
            cartridge: None,
            bios: zero_vec(BIOS_SIZE),
            bios_enabled: true,
            vram: zero_vec(VRAM_SIZE),
            wram: zero_vec(RAM_SIZE),
            oam: zero_vec(OAM_SIZE),
            iom: zero_vec(IO_SIZE),
            hram: zero_vec(HRAM_SIZE),
            ie: 0,
        }
    }
}

impl MMU {
    /// The full video-RAM store, as an ordered read-only view for an
    /// external display or inspection consumer.
    pub fn vram(&self) -> (r: &Vec<u8>)
        ensures
            r@ == self@.vram,
    {
        &self.vram
    }

    /// Whether the boot overlay is still active (the latch has not been
    /// dropped by a nonzero write to the disable register).
    pub fn bios_enabled(&self) -> (r: bool)
        ensures
            r == self@.bios_enabled,
    {
        self.bios_enabled
    }
}

/// The index into the shared work-RAM store for an address in the work-RAM
/// or echo window.
fn wram_slot(address: u16) -> (i: usize)
    requires
        RAM_START_ADDRESS <= address,
        address <= ERAM_END_ADDRESS,
    ensures
        i == wram_index(address),
        i < RAM_SIZE,
{
    if address <= RAM_END_ADDRESS {
        ((address - RAM_START_ADDRESS) % 0x1000) as usize
    } else {
        ((address - ERAM_START_ADDRESS) % 0x1000) as usize
    }
}

impl Memory for MMU {
    open spec fn wf(&self) -> bool {
        &&& self.bios@.len() == BIOS_SIZE
        &&& self.vram@.len() == VRAM_SIZE
        &&& self.wram@.len() == RAM_SIZE
        &&& self.oam@.len() == OAM_SIZE
        &&& self.iom@.len() == IO_SIZE
        &&& self.hram@.len() == HRAM_SIZE
        &&& match self.cartridge {
            Option::Some(cartridge) => cartridge.wf(),
            Option::None => true,
        }
    }

    open spec fn read_req(&self, address: u16) -> bool {
        true
    }

    open spec fn read_spec(&self, address: u16) -> u8 {
        self@.read8(address)
    }

    open spec fn write_ok(address: u16) -> bool {
        mmu_write_ok(address)
    }

    open spec fn write_fault(address: u16, value: u8) -> Fault {
        Fault::UnimplementedWrite { address, value }
    }

    open spec fn write_rel(pre: Self, post: Self, address: u16, value: u8) -> bool {
        post@ == pre@.write8(address, value)
    }

    /// Decode `address` into exactly one backing store or sentinel and read
    /// it; total over the whole 16-bit space.
    fn read(&self, address: u16) -> (r: u8) {
        proof {
            reveal(MemModel::read8);
        }
        if address <= BIOS_END_ADDRESS && self.bios_enabled {
            self.bios[address as usize]
        } else if address <= CARTRIDGE_END_ADDRESS {
            match &self.cartridge {
                Some(cartridge) => cartridge.read(address),
                None => NO_CARTRIDGE_READ_VALUE,
            }
        } else if address <= VRAM_END_ADDRESS {
            self.vram[(address - VRAM_START_ADDRESS) as usize]
        } else if address <= EXTRAM_END_ADDRESS {
            match &self.cartridge {
                Some(cartridge) => cartridge.read_ram(address - EXTRAM_START_ADDRESS),
                None => NO_RAM_READ_VALUE,
            }
        } else if address <= ERAM_END_ADDRESS {
            self.wram[wram_slot(address)]
        } else if address <= OAM_END_ADDRESS {
            self.oam[(address - OAM_START_ADDRESS) as usize]
        } else if address <= UNUSABLE_END_ADDRESS {
            UNUSABLE_READ_VALUE
        } else if address <= IO_END_ADDRESS {
            self.iom[(address - IO_START_ADDRESS) as usize]
        } else if address <= HRAM_END_ADDRESS {
            self.hram[(address - HRAM_START_ADDRESS) as usize]
        } else {
            self.ie
        }
    }

    /// Route a write to its backing store; ROM-window and unusable-window
    /// writes are no-ops, a write into the external-RAM window is refused
    /// with a fault, and a nonzero write to the disable register drops the
    /// overlay latch permanently.
    fn write(&mut self, address: u16, value: u8) -> (r: Result<(), Fault>) {
        proof {
            reveal(MemModel::write8);
        }
        if EXTRAM_START_ADDRESS <= address && address <= EXTRAM_END_ADDRESS {
            return Err(Fault::UnimplementedWrite { address, value });
        }
        if address <= CARTRIDGE_END_ADDRESS {
            // ROM window (and the overlay over its first page): a no-op.
        } else if address <= VRAM_END_ADDRESS {
            self.vram.set((address - VRAM_START_ADDRESS) as usize, value);
        } else if address <= ERAM_END_ADDRESS {
            self.wram.set(wram_slot(address), value);
        } else if address <= OAM_END_ADDRESS {
            self.oam.set((address - OAM_START_ADDRESS) as usize, value);
        } else if address <= UNUSABLE_END_ADDRESS {
            // Unusable window: a no-op.
        } else if address <= IO_END_ADDRESS {
            if address == BIOS_DISABLE_REGISTER_ADDRESS && value != 0 {
                self.bios_enabled = false;
            }
            self.iom.set((address - IO_START_ADDRESS) as usize, value);
        } else if address <= HRAM_END_ADDRESS {
            self.hram.set((address - HRAM_START_ADDRESS) as usize, value);
        } else {
            self.ie = value;
        }
        Ok(())
    }
}

/// A write preserves the sizes of every store.
pub proof fn lemma_write8_wf(m: MemModel, address: u16, value: u8)
    requires
        m.wf(),
    ensures
        m.write8(address, value).wf(),
{
    reveal(MemModel::write8);
}

/// A byte written to a RAM-backed address reads back as written.
pub proof fn lemma_read_write8(m: MemModel, address: u16, value: u8)
    requires
        m.wf(),
        ram_backed(address),
    ensures
        m.write8(address, value).read8(address) == value,
{
    reveal(MemModel::read8);
    reveal(MemModel::write8);
}

/// A write leaves every read at or above the video-RAM window unchanged
/// unless the two addresses resolve to the same backing cell.
pub proof fn lemma_write8_frame(m: MemModel, waddr: u16, raddr: u16, value: u8)
    requires
        m.wf(),
        VRAM_START_ADDRESS <= raddr,
        !same_cell(waddr, raddr),
    ensures
        m.write8(waddr, value).read8(raddr) == m.read8(raddr),
{
    reveal(MemModel::read8);
    reveal(MemModel::write8);
}

/// A successful two-byte write through the memory capability leaves the bus
/// model with both bytes applied in order.
pub proof fn lemma_mmu_write_double_view(pre: MMU, post: MMU, address: u16, value: u16)
    requires
        exists|mid: MMU|
            <MMU as Memory>::write_rel(pre, mid, address, crate::util::upper_byte(value))
                && <MMU as Memory>::write_rel(
                mid,
                post,
                crate::util::succ(address),
                crate::util::lower_byte(value),
            ),
    ensures
        post@ == pre@.write8(address, crate::util::upper_byte(value)).write8(
            crate::util::succ(address),
            crate::util::lower_byte(value),
        ),
{
    let mid = choose|mid: MMU|
        <MMU as Memory>::write_rel(pre, mid, address, crate::util::upper_byte(value))
            && <MMU as Memory>::write_rel(
            mid,
            post,
            crate::util::succ(address),
            crate::util::lower_byte(value),
        );
}

/// Law (boot overlay): while the overlay is active, its first page shadows
/// the cartridge and the page after it does not; a nonzero write to the
/// disable register reads back as written, drops the latch, and routes the
/// whole low window to the cartridge from then on.
pub proof fn lemma_boot_overlay(m: MemModel, v: u8)
    requires
        m.wf(),
        m.has_cartridge,
        m.bios_enabled,
        v != 0,
    ensures
        m.read8(0) == m.bios[0],
        m.read8(0x100) == m.rom[0x100],
        ({
            let m2 = m.write8(BIOS_DISABLE_REGISTER_ADDRESS, v);
            &&& m2.read8(BIOS_DISABLE_REGISTER_ADDRESS) == v
            &&& !m2.bios_enabled
            &&& m2.read8(0) == m.rom[0]
            &&& m2.read8(0x100) == m.rom[0x100]
        }),
{
    reveal(MemModel::read8);
    reveal(MemModel::write8);
}

/// Law (one-way latch): once the overlay is disabled, no write of any value
/// to any address re-enables it.
pub proof fn lemma_overlay_latch_one_way(m: MemModel, address: u16, value: u8)
    requires
        !m.bios_enabled,
    ensures
        !m.write8(address, value).bios_enabled,
{
    reveal(MemModel::write8);
}

/// Law (echo aliasing): a write to a work-RAM address is observable at the
/// echoed address 0x2000 above it, and vice versa.
pub proof fn lemma_echo_aliasing(m: MemModel, address: u16, echo: u16, value: u8)
    requires
        m.wf(),
        RAM_START_ADDRESS <= address,
        echo == address + 0x2000,
        echo <= ERAM_END_ADDRESS,
    ensures
        m.write8(address, value).read8(echo) == value,
        m.write8(echo, value).read8(address) == value,
{
    reveal(MemModel::read8);
    reveal(MemModel::write8);
}

} // verus!
