//! The processing core of an 8-bit handheld game console: a verified
//! instruction-set interpreter bound to a segmented, memory-mapped address
//! bus with a power-on boot-ROM overlay, echoed work RAM, sprite and video
//! memory, and a pluggable cartridge backing store.

pub mod cartridge;
pub mod cpu;
pub mod mmu;
pub mod util;

pub use cartridge::Cartridge;

use vstd::prelude::*;
use crate::cpu::CPU;
use crate::cpu::exec_post;
use crate::mmu::MMU;
use crate::mmu::MemModel;
use crate::util::Fault;
use crate::util::Memory;

verus! {

/// The orchestrator: one CPU bound to one MMU. It advances the core one
/// instruction at a time and hands out raw memory peeks and the video-RAM
/// view for external consumers; the returned cycle count is for the
/// caller's (external) video timing component.
#[derive(Debug)]
pub struct Gameboy {
    pub mmu: MMU,
    pub cpu: CPU,
}

impl Gameboy {
    pub open spec fn wf(&self) -> bool {
        self.mmu.wf()
    }

    /// Create a new gameboy with a cartridge loaded; the register file and
    /// every owned store start zeroed and the boot overlay is active.
    pub fn new_with_cartridge(cartridge: Cartridge) -> (r: Gameboy)
        requires
            cartridge.wf(),
        ensures
            r.wf(),
            r.cpu == (CPU { af: 0, bc: 0, de: 0, hl: 0, sp: 0, pc: 0 }),
            r.mmu@ == (MemModel { has_cartridge: true, rom: cartridge@, ..MemModel::zeroed() }),
    {
        let mut mmu = MMU::default();
        mmu.cartridge = Some(cartridge);
        Gameboy { mmu, cpu: CPU::default() }
    }

    /// A single-byte peek through the full MMU decode.
    pub fn read(&self, address: u16) -> (r: u8)
        requires
            self.wf(),
        ensures
            r == self.mmu@.read8(address),
    {
        self.mmu.read(address)
    }

    /// Step the gameboy forward one instruction, returning the number of
    /// base clock ticks the instruction took to execute; an undefined
    /// opcode or an unwritable store is reported as a fault, with the
    /// register file untouched, and the caller is expected to halt.
    pub fn step(&mut self) -> (r: Result<u8, Fault>)
        requires
            old(self).wf(),
        ensures
            final(self).wf(),
            exec_post(
                old(self).cpu,
                old(self).mmu@,
                final(self).cpu,
                final(self).mmu@,
                r,
                old(self).mmu@.read8(old(self).cpu.pc),
            ),
    {
        self.cpu.step(&mut self.mmu)
    }

    /// The video-RAM store, as an ordered read-only view for a display or
    /// inspection consumer.
    pub fn display(&self) -> (r: &Vec<u8>)
        ensures
            r@ == self.mmu@.vram,
    {
        self.mmu.vram()
    }
}

impl Default for Gameboy {
    /// A gameboy with no cartridge installed and everything zeroed.
    fn default() -> (r: Gameboy)
        ensures
            r.wf(),
            r.cpu == (CPU { af: 0, bc: 0, de: 0, hl: 0, sp: 0, pc: 0 }),
            r.mmu@ == MemModel::zeroed(),
    {
        Gameboy { mmu: MMU::default(), cpu: CPU::default() }
    }
}

} // verus!
