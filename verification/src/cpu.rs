//! The CPU: the register file and the fetch-decode-execute step.
//!
//! The meaning of every implemented instruction is given once, as the
//! specification interpreter `spec_exec` over the register file and the
//! bus model; the executable `exec` is proved to realise exactly that
//! effect, opcode by opcode, including each instruction's cycle cost,
//! program-counter advance and flag outcome. An opcode outside the
//! implemented set is a fault naming the byte and the program counter;
//! the state is then left unchanged and the caller halts the run.

use vstd::prelude::*;
use crate::mmu::MMU;
use crate::mmu::MemModel;
use crate::mmu::lemma_mmu_write_double_view;
use crate::mmu::lemma_read_write8;
use crate::mmu::lemma_write8_frame;
use crate::mmu::lemma_write8_wf;
use crate::mmu::mmu_write_ok;
use crate::mmu::ram_backed;
use crate::mmu::same_cell;
use crate::util::Fault;
use crate::util::Memory;
use crate::util::bit_set;
use crate::util::double_of;
use crate::util::get_bit;
use crate::util::lemma_pack_unpack_roundtrip;
use crate::util::lemma_wrap16_add;
use crate::util::lower_byte;
use crate::util::set_bit;
use crate::util::set_lower;
use crate::util::set_upper;
use crate::util::succ;
use crate::util::unpack_bytes_from_double;
use crate::util::upper_byte;
use crate::util::with_bit;
use crate::util::with_lower;
use crate::util::with_upper;
use crate::util::wrap16;
use crate::util::wrap_add16;
use crate::util::wrap_add8;
use crate::util::wrap_sub16;
use crate::util::wrap_sub8;

verus! {

// The flag register is the lower byte of `af`; only bits 4-7 carry meaning.
pub const F_REGISTER_Z_FLAG_BIT_N: u8 = 7;
pub const F_REGISTER_N_FLAG_BIT_N: u8 = 6;
pub const F_REGISTER_H_FLAG_BIT_N: u8 = 5;
pub const F_REGISTER_C_FLAG_BIT_N: u8 = 4;

/// The register file: four 16-bit pairs (each logically two 8-bit halves;
/// the lower half of `af` is the flag byte), the stack pointer and the
/// program counter.
#[derive(Debug, Clone, PartialEq, Eq, Structural)]
pub struct CPU {
    pub af: u16,
    pub bc: u16,
    pub de: u16,
    pub hl: u16,
    pub sp: u16,
    pub pc: u16,
}

impl Default for CPU {
    /// A zero-initialised register file.
    fn default() -> (r: CPU)
        ensures
            r == (CPU { af: 0, bc: 0, de: 0, hl: 0, sp: 0, pc: 0 }),
    {
        CPU { af: 0, bc: 0, de: 0, hl: 0, sp: 0, pc: 0 }
    }
}

/// `af` with one flag bit forced, or unchanged where no update is requested.
pub open spec fn with_flag(af: u16, n: u8, value: Option<bool>) -> u16 {
    match value {
        Option::Some(b) => with_bit(af, n, b),
        Option::None => af,
    }
}

/// `af` after the four flag updates an instruction requests, applied in
/// Z, N, H, C order; an untouched flag keeps its old value.
pub open spec fn flags_updated(
    af: u16,
    z: Option<bool>,
    n: Option<bool>,
    h: Option<bool>,
    c: Option<bool>,
) -> u16 {
    with_flag(
        with_flag(
            with_flag(with_flag(af, F_REGISTER_Z_FLAG_BIT_N, z), F_REGISTER_N_FLAG_BIT_N, n),
            F_REGISTER_H_FLAG_BIT_N,
            h,
        ),
        F_REGISTER_C_FLAG_BIT_N,
        c,
    )
}

/// A displacement byte as a signed 8-bit offset.
pub open spec fn rel8(v: u8) -> int {
    if v < 0x80 {
        v as int
    } else {
        v as int - 256
    }
}

/// The word read as two bytes at an address and its successor, upper first.
pub open spec fn read2(mem: MemModel, address: u16) -> u16 {
    double_of(mem.read8(address), mem.read8(succ(address)))
}

/// What one instruction does: either the next register file, bus state and
/// cycle cost, or a fault with the bus state at the moment it was detected
/// (the register file is never changed on a fault).
pub enum StepEffect {
    Next { cpu: CPU, mem: MemModel, cycles: u8 },
    Faulted { fault: Fault, mem: MemModel },
}

/// The effect of an instruction that performs one byte write and otherwise
/// leaves `cpu2` as the next register file.
pub open spec fn write1_effect(cpu2: CPU, mem: MemModel, address: u16, value: u8, cycles: u8) -> StepEffect {
    if mmu_write_ok(address) {
        StepEffect::Next { cpu: cpu2, mem: mem.write8(address, value), cycles }
    } else {
        StepEffect::Faulted { fault: Fault::UnimplementedWrite { address, value }, mem }
    }
}

/// The effect of an instruction that writes one 16-bit word as two byte
/// writes, upper byte first; a fault on the second write leaves the first
/// already applied.
pub open spec fn write2_effect(cpu2: CPU, mem: MemModel, address: u16, value: u16, cycles: u8) -> StepEffect {
    let a2 = succ(address);
    if !mmu_write_ok(address) {
        StepEffect::Faulted {
            fault: Fault::UnimplementedWrite { address, value: upper_byte(value) },
            mem,
        }
    } else if !mmu_write_ok(a2) {
        StepEffect::Faulted {
            fault: Fault::UnimplementedWrite { address: a2, value: lower_byte(value) },
            mem: mem.write8(address, upper_byte(value)),
        }
    } else {
        StepEffect::Next {
            cpu: cpu2,
            mem: mem.write8(address, upper_byte(value)).write8(a2, lower_byte(value)),
            cycles,
        }
    }
}

/// A taken call: the current program counter is pushed as two byte writes
/// at the stack pointer (upper byte first), the stack pointer drops by two,
/// and the new program counter is the word after the opcode, read from the
/// bus as it stands after the push.
pub open spec fn call_effect(cpu: CPU, mem: MemModel) -> StepEffect {
    let a2 = succ(cpu.sp);
    if !mmu_write_ok(cpu.sp) {
        StepEffect::Faulted {
            fault: Fault::UnimplementedWrite { address: cpu.sp, value: upper_byte(cpu.pc) },
            mem,
        }
    } else if !mmu_write_ok(a2) {
        StepEffect::Faulted {
            fault: Fault::UnimplementedWrite { address: a2, value: lower_byte(cpu.pc) },
            mem: mem.write8(cpu.sp, upper_byte(cpu.pc)),
        }
    } else {
        let m2 = mem.write8(cpu.sp, upper_byte(cpu.pc)).write8(a2, lower_byte(cpu.pc));
        StepEffect::Next {
            cpu: CPU { sp: wrap16(cpu.sp - 2), pc: read2(m2, wrap16(cpu.pc + 1)), ..cpu },
            mem: m2,
            cycles: 24,
        }
    }
}

/// The register file after subtracting `x` from the accumulator: the result
/// wraps modulo 256, Z is taken from the wrapped result, N is set, and the
/// half-borrow and borrow flags are derived from the true operands.
pub open spec fn sub_cpu(cpu: CPU, x: u8) -> CPU {
    let a0 = upper_byte(cpu.af);
    let na = ((a0 - x) % 256) as u8;
    CPU {
        af: flags_updated(
            with_upper(cpu.af, na),
            Some(na == 0),
            Some(true),
            Some((a0 & 0x0F) < (x & 0x0F)),
            Some(a0 < x),
        ),
        pc: wrap16(cpu.pc + 1),
        ..cpu
    }
}

/// The register file after an exclusive-or of the accumulator with `x`:
/// Z from the result, N, H and C cleared.
pub open spec fn xor_cpu(cpu: CPU, x: u8) -> CPU {
    let na = upper_byte(cpu.af) ^ x;
    CPU {
        af: flags_updated(
            with_upper(cpu.af, na),
            Some(na == 0),
            Some(false),
            Some(false),
            Some(false),
        ),
        pc: wrap16(cpu.pc + 1),
        ..cpu
    }
}

/// The implemented instructions below 0x40: loads of immediates, the
/// register-pair increments and half-register increments and decrements,
/// relative jumps, the 16-bit add onto `hl`, and the auto-increment and
/// auto-decrement stores through `hl`.
#[verifier::opaque]
pub open spec fn spec_exec_misc(cpu: CPU, mem: MemModel, opcode: u8) -> StepEffect {
    match opcode {
        // NOP
        0x00 => StepEffect::Next { cpu: CPU { pc: wrap16(cpu.pc + 1), ..cpu }, mem, cycles: 4 },
        // LD BC,d16
        0x01 => StepEffect::Next {
            cpu: CPU { bc: read2(mem, wrap16(cpu.pc + 1)), pc: wrap16(cpu.pc + 3), ..cpu },
            mem,
            cycles: 12,
        },
        // LD (BC),A
        0x02 => write1_effect(
            CPU { pc: wrap16(cpu.pc + 1), ..cpu },
            mem,
            cpu.bc,
            upper_byte(cpu.af),
            8,
        ),
        // INC BC
        0x03 => StepEffect::Next {
            cpu: CPU { bc: wrap16(cpu.bc + 1), pc: wrap16(cpu.pc + 1), ..cpu },
            mem,
            cycles: 8,
        },
        // DEC B
        0x05 => {
            let b0 = upper_byte(cpu.bc);
            let nb = ((b0 - 1) % 256) as u8;
            StepEffect::Next {
                cpu: CPU {
                    bc: with_upper(cpu.bc, nb),
                    af: flags_updated(
                        cpu.af,
                        Some(nb == 0),
                        Some(true),
                        Some((b0 & 0x0F) == 0),
                        None,
                    ),
                    pc: wrap16(cpu.pc + 1),
                    ..cpu
                },
                mem,
                cycles: 4,
            }
        },
        // LD (a16),SP
        0x08 => write2_effect(
            CPU { pc: wrap16(cpu.pc + 3), ..cpu },
            mem,
            read2(mem, wrap16(cpu.pc + 1)),
            cpu.sp,
            20,
        ),
        // LD A,(BC)
        0x0A => StepEffect::Next {
            cpu: CPU { af: with_upper(cpu.af, mem.read8(cpu.bc)), pc: wrap16(cpu.pc + 1), ..cpu },
            mem,
            cycles: 8,
        },
        // INC C
        0x0C => {
            let c0 = lower_byte(cpu.bc);
            let nc = ((c0 + 1) % 256) as u8;
            StepEffect::Next {
                cpu: CPU {
                    bc: with_lower(cpu.bc, nc),
                    af: flags_updated(
                        cpu.af,
                        Some(nc == 0),
                        Some(false),
                        Some((c0 & 0x0F) == 0x0F),
                        None,
                    ),
                    pc: wrap16(cpu.pc + 1),
                    ..cpu
                },
                mem,
                cycles: 4,
            }
        },
        // LD C,d8
        0x0E => StepEffect::Next {
            cpu: CPU {
                bc: with_lower(cpu.bc, mem.read8(wrap16(cpu.pc + 1))),
                pc: wrap16(cpu.pc + 2),
                ..cpu
            },
            mem,
            cycles: 8,
        },
        // LD DE,d16
        0x11 => StepEffect::Next {
            cpu: CPU { de: read2(mem, wrap16(cpu.pc + 1)), pc: wrap16(cpu.pc + 3), ..cpu },
            mem,
            cycles: 12,
        },
        // LD (DE),A
        0x12 => write1_effect(
            CPU { pc: wrap16(cpu.pc + 1), ..cpu },
            mem,
            cpu.de,
            upper_byte(cpu.af),
            8,
        ),
        // DEC D
        0x15 => {
            let d0 = upper_byte(cpu.de);
            let nd = ((d0 - 1) % 256) as u8;
            StepEffect::Next {
                cpu: CPU {
                    de: with_upper(cpu.de, nd),
                    af: flags_updated(
                        cpu.af,
                        Some(nd == 0),
                        Some(true),
                        Some((d0 & 0x0F) == 0),
                        None,
                    ),
                    pc: wrap16(cpu.pc + 1),
                    ..cpu
                },
                mem,
                cycles: 4,
            }
        },
        // LD D,d8
        0x16 => StepEffect::Next {
            cpu: CPU {
                de: with_upper(cpu.de, mem.read8(wrap16(cpu.pc + 1))),
                pc: wrap16(cpu.pc + 2),
                ..cpu
            },
            mem,
            cycles: 8,
        },
        // JR r8: the displacement is applied to the program counter, which
        // then advances past the two instruction bytes.
        0x18 => {
            let off = mem.read8(wrap16(cpu.pc + 1));
            StepEffect::Next {
                cpu: CPU { pc: wrap16(cpu.pc + rel8(off) + 2), ..cpu },
                mem,
                cycles: 12,
            }
        },
        // ADD HL,DE: 16-bit add with wraparound; H is the carry across the
        // byte boundary of the word, C the carry out of bit 15.
        0x19 => StepEffect::Next {
            cpu: CPU {
                hl: wrap16(cpu.hl + cpu.de),
                af: flags_updated(
                    cpu.af,
                    None,
                    Some(false),
                    Some(cpu.hl % 256 + cpu.de % 256 > 0xFF),
                    Some(cpu.hl + cpu.de > 0xFFFF),
                ),
                pc: wrap16(cpu.pc + 1),
                ..cpu
            },
            mem,
            cycles: 8,
        },
        // INC E
        0x1C => {
            let e0 = lower_byte(cpu.de);
            let ne = ((e0 + 1) % 256) as u8;
            StepEffect::Next {
                cpu: CPU {
                    de: with_lower(cpu.de, ne),
                    af: flags_updated(
                        cpu.af,
                        Some(ne == 0),
                        Some(false),
                        Some((e0 & 0x0F) == 0x0F),
                        None,
                    ),
                    pc: wrap16(cpu.pc + 1),
                    ..cpu
                },
                mem,
                cycles: 4,
            }
        },
        // DEC E
        0x1D => {
            let e0 = lower_byte(cpu.de);
            let ne = ((e0 - 1) % 256) as u8;
            StepEffect::Next {
                cpu: CPU {
                    de: with_lower(cpu.de, ne),
                    af: flags_updated(
                        cpu.af,
                        Some(ne == 0),
                        Some(true),
                        Some((e0 & 0x0F) == 0),
                        None,
                    ),
                    pc: wrap16(cpu.pc + 1),
                    ..cpu
                },
                mem,
                cycles: 4,
            }
        },
        // JR NZ,r8: taken, the displacement is applied to the program
        // counter as it stands; not taken, the counter advances past the
        // instruction at the lower cycle cost.
        0x20 => {
            let off = mem.read8(wrap16(cpu.pc + 1));
            if !bit_set(cpu.af, F_REGISTER_Z_FLAG_BIT_N) {
                StepEffect::Next {
                    cpu: CPU { pc: wrap16(cpu.pc + rel8(off)), ..cpu },
                    mem,
                    cycles: 12,
                }
            } else {
                StepEffect::Next { cpu: CPU { pc: wrap16(cpu.pc + 2), ..cpu }, mem, cycles: 8 }
            }
        },
        // LD HL,d16
        0x21 => StepEffect::Next {
            cpu: CPU { hl: read2(mem, wrap16(cpu.pc + 1)), pc: wrap16(cpu.pc + 3), ..cpu },
            mem,
            cycles: 12,
        },
        // LD (HL+),A: the write lands at the old hl, then hl increments.
        0x22 => write1_effect(
            CPU { hl: wrap16(cpu.hl + 1), pc: wrap16(cpu.pc + 1), ..cpu },
            mem,
            cpu.hl,
            upper_byte(cpu.af),
            8,
        ),
        // INC HL
        0x23 => StepEffect::Next {
            cpu: CPU { hl: wrap16(cpu.hl + 1), pc: wrap16(cpu.pc + 1), ..cpu },
            mem,
            cycles: 8,
        },
        // DEC H
        0x25 => {
            let h0 = upper_byte(cpu.hl);
            let nh = ((h0 - 1) % 256) as u8;
            StepEffect::Next {
                cpu: CPU {
                    hl: with_upper(cpu.hl, nh),
                    af: flags_updated(
                        cpu.af,
                        Some(nh == 0),
                        Some(true),
                        Some((h0 & 0x0F) == 0),
                        None,
                    ),
                    pc: wrap16(cpu.pc + 1),
                    ..cpu
                },
                mem,
                cycles: 4,
            }
        },
        // INC L
        0x2C => {
            let l0 = lower_byte(cpu.hl);
            let nl = ((l0 + 1) % 256) as u8;
            StepEffect::Next {
                cpu: CPU {
                    hl: with_lower(cpu.hl, nl),
                    af: flags_updated(
                        cpu.af,
                        Some(nl == 0),
                        Some(false),
                        Some((l0 & 0x0F) == 0x0F),
                        None,
                    ),
                    pc: wrap16(cpu.pc + 1),
                    ..cpu
                },
                mem,
                cycles: 4,
            }
        },
        // DEC L
        0x2D => {
            let l0 = lower_byte(cpu.hl);
            let nl = ((l0 - 1) % 256) as u8;
            StepEffect::Next {
                cpu: CPU {
                    hl: with_lower(cpu.hl, nl),
                    af: flags_updated(
                        cpu.af,
                        Some(nl == 0),
                        Some(true),
                        Some((l0 & 0x0F) == 0),
                        None,
                    ),
                    pc: wrap16(cpu.pc + 1),
                    ..cpu
                },
                mem,
                cycles: 4,
            }
        },
        // LD L,d8
        0x2E => StepEffect::Next {
            cpu: CPU {
                hl: with_lower(cpu.hl, mem.read8(wrap16(cpu.pc + 1))),
                pc: wrap16(cpu.pc + 2),
                ..cpu
            },
            mem,
            cycles: 8,
        },
        // CPL: complement the accumulator; N and H are set.
        0x2F => StepEffect::Next {
            cpu: CPU {
                af: flags_updated(
                    with_upper(cpu.af, !upper_byte(cpu.af)),
                    None,
                    Some(true),
                    Some(true),
                    None,
                ),
                pc: wrap16(cpu.pc + 1),
                ..cpu
            },
            mem,
            cycles: 4,
        },
        // LD SP,d16
        0x31 => StepEffect::Next {
            cpu: CPU { sp: read2(mem, wrap16(cpu.pc + 1)), pc: wrap16(cpu.pc + 3), ..cpu },
            mem,
            cycles: 12,
        },
        // LD (HL-),A: the write lands at the old hl, then hl decrements.
        0x32 => write1_effect(
            CPU { hl: wrap16(cpu.hl - 1), pc: wrap16(cpu.pc + 1), ..cpu },
            mem,
            cpu.hl,
            upper_byte(cpu.af),
            8,
        ),
        // LD A,d8
        0x3E => StepEffect::Next {
            cpu: CPU {
                af: with_upper(cpu.af, mem.read8(wrap16(cpu.pc + 1))),
                pc: wrap16(cpu.pc + 2),
                ..cpu
            },
            mem,
            cycles: 8,
        },
        _ => StepEffect::Faulted {
            fault: Fault::UnimplementedOpcode { opcode, pc: cpu.pc },
            mem,
        },
    }
}

/// The implemented instructions in 0x40-0x7F: the register-to-register
/// loads, the loads through `hl`, and the conditional call that shares
/// their table region.
#[verifier::opaque]
pub open spec fn spec_exec_loads(cpu: CPU, mem: MemModel, opcode: u8) -> StepEffect {
    let ld4 = |cpu2: CPU| StepEffect::Next {
        cpu: CPU { pc: wrap16(cpu.pc + 1), ..cpu2 },
        mem,
        cycles: 4,
    };
    let ld8 = |cpu2: CPU| StepEffect::Next {
        cpu: CPU { pc: wrap16(cpu.pc + 1), ..cpu2 },
        mem,
        cycles: 8,
    };
    match opcode {
        // LD B,A
        0x47 => ld4(CPU { bc: with_upper(cpu.bc, upper_byte(cpu.af)), ..cpu }),
        // LD C,B
        0x48 => ld4(CPU { bc: with_lower(cpu.bc, upper_byte(cpu.bc)), ..cpu }),
        // LD C,C
        0x49 => ld4(CPU { bc: with_lower(cpu.bc, lower_byte(cpu.bc)), ..cpu }),
        // LD C,D
        0x4A => ld4(CPU { bc: with_lower(cpu.bc, upper_byte(cpu.de)), ..cpu }),
        // LD C,E
        0x4B => ld4(CPU { bc: with_lower(cpu.bc, lower_byte(cpu.de)), ..cpu }),
        // CALL NZ,a16
        0x4C => if !bit_set(cpu.af, F_REGISTER_Z_FLAG_BIT_N) {
            call_effect(cpu, mem)
        } else {
            StepEffect::Next { cpu: CPU { pc: wrap16(cpu.pc + 3), ..cpu }, mem, cycles: 12 }
        },
        // LD C,L
        0x4D => ld4(CPU { bc: with_lower(cpu.bc, lower_byte(cpu.hl)), ..cpu }),
        // LD C,(HL)
        0x4E => ld8(CPU { bc: with_lower(cpu.bc, mem.read8(cpu.hl)), ..cpu }),
        // LD C,A
        0x4F => ld4(CPU { bc: with_lower(cpu.bc, upper_byte(cpu.af)), ..cpu }),
        // LD D,B
        0x50 => ld4(CPU { de: with_upper(cpu.de, upper_byte(cpu.bc)), ..cpu }),
        // LD D,C
        0x51 => ld4(CPU { de: with_upper(cpu.de, lower_byte(cpu.bc)), ..cpu }),
        // LD D,D
        0x52 => ld4(CPU { de: with_upper(cpu.de, upper_byte(cpu.de)), ..cpu }),
        // LD D,E
        0x53 => ld4(CPU { de: with_upper(cpu.de, lower_byte(cpu.de)), ..cpu }),
        // LD D,H
        0x54 => ld4(CPU { de: with_upper(cpu.de, upper_byte(cpu.hl)), ..cpu }),
        // LD D,L
        0x55 => ld4(CPU { de: with_upper(cpu.de, lower_byte(cpu.hl)), ..cpu }),
        // LD D,(HL)
        0x56 => ld8(CPU { de: with_upper(cpu.de, mem.read8(cpu.hl)), ..cpu }),
        // LD D,A
        0x57 => ld4(CPU { de: with_upper(cpu.de, upper_byte(cpu.af)), ..cpu }),
        // LD E,B
        0x58 => ld4(CPU { de: with_lower(cpu.de, upper_byte(cpu.bc)), ..cpu }),
        // LD E,C
        0x59 => ld4(CPU { de: with_lower(cpu.de, lower_byte(cpu.bc)), ..cpu }),
        // LD E,D
        0x5A => ld4(CPU { de: with_lower(cpu.de, upper_byte(cpu.de)), ..cpu }),
        // LD E,E
        0x5B => ld4(CPU { de: with_lower(cpu.de, lower_byte(cpu.de)), ..cpu }),
        // LD E,H
        0x5C => ld4(CPU { de: with_lower(cpu.de, upper_byte(cpu.hl)), ..cpu }),
        // LD H,B
        0x60 => ld4(CPU { hl: with_upper(cpu.hl, upper_byte(cpu.bc)), ..cpu }),
        // LD H,(HL)
        0x66 => ld8(CPU { hl: with_upper(cpu.hl, mem.read8(cpu.hl)), ..cpu }),
        // LD L,E
        0x6B => ld4(CPU { hl: with_lower(cpu.hl, lower_byte(cpu.de)), ..cpu }),
        // LD L,H
        0x6C => ld4(CPU { hl: with_lower(cpu.hl, upper_byte(cpu.hl)), ..cpu }),
        // LD L,L
        0x6D => ld4(CPU { hl: with_lower(cpu.hl, lower_byte(cpu.hl)), ..cpu }),
        // LD L,(HL)
        0x6E => ld8(CPU { hl: with_lower(cpu.hl, mem.read8(cpu.hl)), ..cpu }),
        // LD L,A
        0x6F => ld4(CPU { hl: with_lower(cpu.hl, upper_byte(cpu.af)), ..cpu }),
        // LD (HL),C
        0x71 => write1_effect(
            CPU { pc: wrap16(cpu.pc + 1), ..cpu },
            mem,
            cpu.hl,
            lower_byte(cpu.bc),
            8,
        ),
        // LD (HL),D
        0x72 => write1_effect(
            CPU { pc: wrap16(cpu.pc + 1), ..cpu },
            mem,
            cpu.hl,
            upper_byte(cpu.de),
            8,
        ),
        // LD (HL),E
        0x73 => write1_effect(
            CPU { pc: wrap16(cpu.pc + 1), ..cpu },
            mem,
            cpu.hl,
            lower_byte(cpu.de),
            8,
        ),
        // LD (HL),H
        0x74 => write1_effect(
            CPU { pc: wrap16(cpu.pc + 1), ..cpu },
            mem,
            cpu.hl,
            upper_byte(cpu.hl),
            8,
        ),
        // LD (HL),L
        0x75 => write1_effect(
            CPU { pc: wrap16(cpu.pc + 1), ..cpu },
            mem,
            cpu.hl,
            lower_byte(cpu.hl),
            8,
        ),
        // LD (HL),A
        0x77 => write1_effect(
            CPU { pc: wrap16(cpu.pc + 1), ..cpu },
            mem,
            cpu.hl,
            upper_byte(cpu.af),
            8,
        ),
        // LD A,B
        0x78 => ld4(CPU { af: with_upper(cpu.af, upper_byte(cpu.bc)), ..cpu }),
        // LD A,C
        0x79 => ld4(CPU { af: with_upper(cpu.af, lower_byte(cpu.bc)), ..cpu }),
        // LD A,D
        0x7A => ld4(CPU { af: with_upper(cpu.af, upper_byte(cpu.de)), ..cpu }),
        // LD A,(HL)
        0x7E => ld8(CPU { af: with_upper(cpu.af, mem.read8(cpu.hl)), ..cpu }),
        // LD A,A
        0x7F => ld4(CPU { af: with_upper(cpu.af, upper_byte(cpu.af)), ..cpu }),
        _ => StepEffect::Faulted {
            fault: Fault::UnimplementedOpcode { opcode, pc: cpu.pc },
            mem,
        },
    }
}

/// The implemented instructions in 0x80-0xBF: the add through `hl`, the
/// subtractions, the subtractions with carry, and the exclusive-ors.
#[verifier::opaque]
pub open spec fn spec_exec_alu(cpu: CPU, mem: MemModel, opcode: u8) -> StepEffect {
    match opcode {
        // ADD A,(HL)
        0x86 => {
            let a0 = upper_byte(cpu.af);
            let m = mem.read8(cpu.hl);
            let na = ((a0 + m) % 256) as u8;
            StepEffect::Next {
                cpu: CPU {
                    af: flags_updated(
                        with_upper(cpu.af, na),
                        Some(na == 0),
                        Some(false),
                        Some((a0 & 0x0F) + (m & 0x0F) > 0x0F),
                        Some(a0 + m > 0xFF),
                    ),
                    pc: wrap16(cpu.pc + 1),
                    ..cpu
                },
                mem,
                cycles: 8,
            }
        },
        // SUB B
        0x90 => StepEffect::Next { cpu: sub_cpu(cpu, upper_byte(cpu.bc)), mem, cycles: 4 },
        // SUB C
        0x91 => StepEffect::Next { cpu: sub_cpu(cpu, lower_byte(cpu.bc)), mem, cycles: 4 },
        // SUB D
        0x92 => StepEffect::Next { cpu: sub_cpu(cpu, upper_byte(cpu.de)), mem, cycles: 4 },
        // SUB E
        0x93 => StepEffect::Next { cpu: sub_cpu(cpu, lower_byte(cpu.de)), mem, cycles: 4 },
        // SUB H
        0x94 => StepEffect::Next { cpu: sub_cpu(cpu, upper_byte(cpu.hl)), mem, cycles: 4 },
        // SUB L
        0x95 => StepEffect::Next { cpu: sub_cpu(cpu, lower_byte(cpu.hl)), mem, cycles: 4 },
        // SUB (HL)
        0x96 => StepEffect::Next { cpu: sub_cpu(cpu, mem.read8(cpu.hl)), mem, cycles: 8 },
        // SUB A
        0x97 => StepEffect::Next { cpu: sub_cpu(cpu, upper_byte(cpu.af)), mem, cycles: 4 },
        // SBC A,B
        0x98 => StepEffect::Next { cpu: sbc_cpu(cpu, upper_byte(cpu.bc)), mem, cycles: 4 },
        // SBC A,C
        0x99 => StepEffect::Next { cpu: sbc_cpu(cpu, lower_byte(cpu.bc)), mem, cycles: 4 },
        // SBC A,D
        0x9A => StepEffect::Next { cpu: sbc_cpu(cpu, upper_byte(cpu.de)), mem, cycles: 4 },
        // SBC A,E
        0x9B => StepEffect::Next { cpu: sbc_cpu(cpu, lower_byte(cpu.de)), mem, cycles: 4 },
        // SBC A,H
        0x9C => StepEffect::Next { cpu: sbc_cpu(cpu, upper_byte(cpu.hl)), mem, cycles: 4 },
        // SBC A,L
        0x9D => StepEffect::Next { cpu: sbc_cpu(cpu, lower_byte(cpu.hl)), mem, cycles: 4 },
        // XOR C
        0xA9 => StepEffect::Next { cpu: xor_cpu(cpu, lower_byte(cpu.bc)), mem, cycles: 4 },
        // XOR D
        0xAA => StepEffect::Next { cpu: xor_cpu(cpu, upper_byte(cpu.de)), mem, cycles: 4 },
        // XOR E
        0xAB => StepEffect::Next { cpu: xor_cpu(cpu, lower_byte(cpu.de)), mem, cycles: 4 },
        // XOR H
        0xAC => StepEffect::Next { cpu: xor_cpu(cpu, upper_byte(cpu.hl)), mem, cycles: 4 },
        // XOR A
        0xAF => StepEffect::Next { cpu: xor_cpu(cpu, upper_byte(cpu.af)), mem, cycles: 4 },
        _ => StepEffect::Faulted {
            fault: Fault::UnimplementedOpcode { opcode, pc: cpu.pc },
            mem,
        },
    }
}

/// Subtraction with carry: the carry flag joins the operand (wrapping
/// modulo 256) before the subtraction.
pub open spec fn sbc_cpu(cpu: CPU, x: u8) -> CPU {
    let rhs = ((x + (if bit_set(cpu.af, F_REGISTER_C_FLAG_BIT_N) { 1int } else { 0int })) % 256) as u8;
    sub_cpu(cpu, rhs)
}

/// The implemented instructions at or above 0xC0: the absolute jump, the
/// 0xCB-prefixed bit test, the conditional call, the high-page stores, the
/// stack push and pop, and the restart.
#[verifier::opaque]
pub open spec fn spec_exec_control(cpu: CPU, mem: MemModel, opcode: u8) -> StepEffect {
    match opcode {
        // JP a16: assigns the operand word to the program counter, with the
        // same cycle cost whatever the flags hold.
        0xC3 => StepEffect::Next {
            cpu: CPU { pc: read2(mem, wrap16(cpu.pc + 1)), ..cpu },
            mem,
            cycles: 16,
        },
        // The 0xCB prefix selects the secondary table from the next byte.
        0xCB => {
            let sub = mem.read8(wrap16(cpu.pc + 1));
            if sub == 0x7C {
                // BIT 7,H: Z is set exactly when the tested bit is clear.
                StepEffect::Next {
                    cpu: CPU {
                        af: flags_updated(
                            cpu.af,
                            Some(!bit_set(cpu.hl, 15)),
                            Some(false),
                            Some(true),
                            None,
                        ),
                        pc: wrap16(cpu.pc + 2),
                        ..cpu
                    },
                    mem,
                    cycles: 8,
                }
            } else {
                StepEffect::Faulted {
                    fault: Fault::UnimplementedCbOpcode { opcode: sub, pc: cpu.pc },
                    mem,
                }
            }
        },
        // CALL Z,a16
        0xCC => if bit_set(cpu.af, F_REGISTER_Z_FLAG_BIT_N) {
            call_effect(cpu, mem)
        } else {
            StepEffect::Next { cpu: CPU { pc: wrap16(cpu.pc + 3), ..cpu }, mem, cycles: 12 }
        },
        // LDH (a8),A: store the accumulator into the high page at the
        // immediate offset.
        0xE0 => {
            let n = mem.read8(wrap16(cpu.pc + 1));
            write1_effect(
                CPU { pc: wrap16(cpu.pc + 2), ..cpu },
                mem,
                (0xFF00 + n) as u16,
                upper_byte(cpu.af),
                12,
            )
        },
        // POP HL: the inverse of PUSH HL; the stack pointer rises by two
        // and the word is read back from where the push left it.
        0xE1 => {
            let sp2 = wrap16(cpu.sp + 2);
            StepEffect::Next {
                cpu: CPU { hl: read2(mem, sp2), sp: sp2, pc: wrap16(cpu.pc + 1), ..cpu },
                mem,
                cycles: 12,
            }
        },
        // LD (C),A: store the accumulator into the high page at the offset
        // in register c.
        0xE2 => write1_effect(
            CPU { pc: wrap16(cpu.pc + 2), ..cpu },
            mem,
            (0xFF00 + lower_byte(cpu.bc)) as u16,
            upper_byte(cpu.af),
            8,
        ),
        // PUSH HL: two byte writes at the stack pointer, upper byte first,
        // then the stack pointer drops by two.
        0xE5 => write2_effect(
            CPU { sp: wrap16(cpu.sp - 2), pc: wrap16(cpu.pc + 1), ..cpu },
            mem,
            cpu.sp,
            cpu.hl,
            16,
        ),
        // RST 38H: push the program counter and restart at 0x38.
        0xFF => write2_effect(
            CPU { sp: wrap16(cpu.sp - 2), pc: 0x38, ..cpu },
            mem,
            cpu.sp,
            cpu.pc,
            16,
        ),
        _ => StepEffect::Faulted {
            fault: Fault::UnimplementedOpcode { opcode, pc: cpu.pc },
            mem,
        },
    }
}

/// The meaning of one instruction: what dispatching `opcode` does to the
/// register file and the bus, and what it costs in clock ticks.
pub open spec fn spec_exec(cpu: CPU, mem: MemModel, opcode: u8) -> StepEffect {
    if opcode < 0x40 {
        spec_exec_misc(cpu, mem, opcode)
    } else if opcode < 0x80 {
        spec_exec_loads(cpu, mem, opcode)
    } else if opcode < 0xC0 {
        spec_exec_alu(cpu, mem, opcode)
    } else {
        spec_exec_control(cpu, mem, opcode)
    }
}

/// The meaning of one whole step: fetch the opcode at the program counter,
/// then execute it.
pub open spec fn spec_step(cpu: CPU, mem: MemModel) -> StepEffect {
    spec_exec(cpu, mem, mem.read8(cpu.pc))
}

/// What the executable step guarantees: on the normal path the register
/// file, the bus and the returned cycle count are exactly those of
/// `spec_exec`; on a fault the fault value is returned, the register file
/// is untouched and the bus holds what the specification says it holds.
pub open spec fn exec_post(
    pre: CPU,
    pre_mem: MemModel,
    post: CPU,
    post_mem: MemModel,
    r: Result<u8, Fault>,
    opcode: u8,
) -> bool {
    match spec_exec(pre, pre_mem, opcode) {
        StepEffect::Next { cpu, mem, cycles } => post == cpu && post_mem == mem && r == Ok::<
            u8,
            Fault,
        >(cycles),
        StepEffect::Faulted { fault, mem } => post == pre && post_mem == mem && r == Err::<
            u8,
            Fault,
        >(fault),
    }
}

impl CPU {
    /// Advance exactly one instruction: fetch the opcode byte at the
    /// program counter through the memory capability, execute its full
    /// effect, and return its cycle cost; an undefined opcode or an
    /// unwritable store is reported as a fault with nothing executed.
    pub fn step(&mut self, mmu: &mut MMU) -> (r: Result<u8, Fault>)
        requires
            old(mmu).wf(),
        ensures
            final(mmu).wf(),
            exec_post(
                *old(self),
                old(mmu)@,
                *final(self),
                final(mmu)@,
                r,
                old(mmu)@.read8(old(self).pc),
            ),
    {
        let pc = self.pc;
        let opcode = mmu.read(pc);
        self.exec(opcode, mmu)
    }

    fn exec(&mut self, opcode: u8, mmu: &mut MMU) -> (r: Result<u8, Fault>)
        requires
            old(mmu).wf(),
        ensures
            final(mmu).wf(),
            exec_post(*old(self), old(mmu)@, *final(self), final(mmu)@, r, opcode),
    {
        if opcode < 0x40 {
            self.exec_misc(opcode, mmu)
        } else if opcode < 0x80 {
            self.exec_loads(opcode, mmu)
        } else if opcode < 0xC0 {
            self.exec_alu(opcode, mmu)
        } else {
            self.exec_control(opcode, mmu)
        }
    }

    fn exec_misc(&mut self, opcode: u8, mmu: &mut MMU) -> (r: Result<u8, Fault>)
        requires
            opcode < 0x40,
            old(mmu).wf(),
        ensures
            final(mmu).wf(),
            exec_post(*old(self), old(mmu)@, *final(self), final(mmu)@, r, opcode),
    {
        proof {
            reveal(spec_exec_misc);
        }
        match opcode {
            0x00 => {
                self.pc = wrap_add16(self.pc, 1);
                Ok(4)
            },
            0x01 => {
                self.bc = mmu.read_double(wrap_add16(self.pc, 1));
                self.pc = wrap_add16(self.pc, 3);
                Ok(12)
            },
            0x02 => {
                let value = self.a();
                match mmu.write(self.bc, value) {
                    Ok(()) => {
                        self.pc = wrap_add16(self.pc, 1);
                        Ok(8)
                    },
                    Err(f) => Err(f),
                }
            },
            0x03 => {
                self.bc = wrap_add16(self.bc, 1);
                self.pc = wrap_add16(self.pc, 1);
                Ok(8)
            },
            0x05 => {
                let b0 = self.b();
                let nb = wrap_sub8(b0, 1);
                self.set_b(nb);
                self.set_flags(Some(nb == 0), Some(true), Some(b0 & 0x0F == 0), None);
                self.pc = wrap_add16(self.pc, 1);
                Ok(4)
            },
            0x08 => {
                let target = mmu.read_double(wrap_add16(self.pc, 1));
                match mmu.write_double(target, self.sp) {
                    Ok(()) => {
                        proof {
                            lemma_mmu_write_double_view(*old(mmu), *mmu, target, old(self).sp);
                        }
                        self.pc = wrap_add16(self.pc, 3);
                        Ok(20)
                    },
                    Err(f) => Err(f),
                }
            },
            0x0A => {
                let value = mmu.read(self.bc);
                self.set_a(value);
                self.pc = wrap_add16(self.pc, 1);
                Ok(8)
            },
            0x0C => {
                let c0 = self.c();
                let nc = wrap_add8(c0, 1);
                self.set_c(nc);
                self.set_flags(Some(nc == 0), Some(false), Some(c0 & 0x0F == 0x0F), None);
                self.pc = wrap_add16(self.pc, 1);
                Ok(4)
            },
            0x0E => {
                let value = mmu.read(wrap_add16(self.pc, 1));
                self.set_c(value);
                self.pc = wrap_add16(self.pc, 2);
                Ok(8)
            },
            0x11 => {
                self.de = mmu.read_double(wrap_add16(self.pc, 1));
                self.pc = wrap_add16(self.pc, 3);
                Ok(12)
            },
            0x12 => {
                let value = self.a();
                match mmu.write(self.de, value) {
                    Ok(()) => {
                        self.pc = wrap_add16(self.pc, 1);
                        Ok(8)
                    },
                    Err(f) => Err(f),
                }
            },
            0x15 => {
                let d0 = self.d();
                let nd = wrap_sub8(d0, 1);
                self.set_d(nd);
                self.set_flags(Some(nd == 0), Some(true), Some(d0 & 0x0F == 0), None);
                self.pc = wrap_add16(self.pc, 1);
                Ok(4)
            },
            0x16 => {
                let value = mmu.read(wrap_add16(self.pc, 1));
                self.set_d(value);
                self.pc = wrap_add16(self.pc, 2);
                Ok(8)
            },
            0x18 => {
                let off = mmu.read(wrap_add16(self.pc, 1));
                let target = self.rel_target(off);
                self.pc = wrap_add16(target, 2);
                proof {
                    lemma_wrap16_add(old(self).pc + rel8(off), 2);
                }
                Ok(12)
            },
            0x19 => {
                let hl0 = self.hl;
                let de0 = self.de;
                self.hl = wrap_add16(hl0, de0);
                let half = hl0 % 256 + de0 % 256 > 0xFF;
                let carry = (hl0 as u32) + (de0 as u32) > 0xFFFF;
                self.set_flags(None, Some(false), Some(half), Some(carry));
                self.pc = wrap_add16(self.pc, 1);
                Ok(8)
            },
            0x1C => {
                let e0 = self.e();
                let ne = wrap_add8(e0, 1);
                self.set_e(ne);
                self.set_flags(Some(ne == 0), Some(false), Some(e0 & 0x0F == 0x0F), None);
                self.pc = wrap_add16(self.pc, 1);
                Ok(4)
            },
            0x1D => {
                let e0 = self.e();
                let ne = wrap_sub8(e0, 1);
                self.set_e(ne);
                self.pc = wrap_add16(self.pc, 1);
                self.set_flags(Some(ne == 0), Some(true), Some(e0 & 0x0F == 0), None);
                Ok(4)
            },
            0x20 => {
                let off = mmu.read(wrap_add16(self.pc, 1));
                if !self.get_z_flag() {
                    let target = self.rel_target(off);
                    self.pc = target;
                    Ok(12)
                } else {
                    self.pc = wrap_add16(self.pc, 2);
                    Ok(8)
                }
            },
            0x21 => {
                self.hl = mmu.read_double(wrap_add16(self.pc, 1));
                self.pc = wrap_add16(self.pc, 3);
                Ok(12)
            },
            0x22 => {
                let value = self.a();
                match mmu.write(self.hl, value) {
                    Ok(()) => {
                        self.hl = wrap_add16(self.hl, 1);
                        self.pc = wrap_add16(self.pc, 1);
                        Ok(8)
                    },
                    Err(f) => Err(f),
                }
            },
            0x23 => {
                self.hl = wrap_add16(self.hl, 1);
                self.pc = wrap_add16(self.pc, 1);
                Ok(8)
            },
            0x25 => {
                let h0 = self.h();
                let nh = wrap_sub8(h0, 1);
                self.set_h(nh);
                self.set_flags(Some(nh == 0), Some(true), Some(h0 & 0x0F == 0), None);
                self.pc = wrap_add16(self.pc, 1);
                Ok(4)
            },
            0x2C => {
                let l0 = self.l();
                let nl = wrap_add8(l0, 1);
                self.set_l(nl);
                self.set_flags(Some(nl == 0), Some(false), Some(l0 & 0x0F == 0x0F), None);
                self.pc = wrap_add16(self.pc, 1);
                Ok(4)
            },
            0x2D => {
                let l0 = self.l();
                let nl = wrap_sub8(l0, 1);
                self.set_l(nl);
                self.set_flags(Some(nl == 0), Some(true), Some(l0 & 0x0F == 0), None);
                self.pc = wrap_add16(self.pc, 1);
                Ok(4)
            },
            0x2E => {
                let value = mmu.read(wrap_add16(self.pc, 1));
                self.set_l(value);
                self.pc = wrap_add16(self.pc, 2);
                Ok(8)
            },
            0x2F => {
                let a0 = self.a();
                self.set_a(!a0);
                self.set_flags(None, Some(true), Some(true), None);
                self.pc = wrap_add16(self.pc, 1);
                Ok(4)
            },
            0x31 => {
                self.sp = mmu.read_double(wrap_add16(self.pc, 1));
                self.pc = wrap_add16(self.pc, 3);
                Ok(12)
            },
            0x32 => {
                let value = self.a();
                match mmu.write(self.hl, value) {
                    Ok(()) => {
                        self.hl = wrap_sub16(self.hl, 1);
                        self.pc = wrap_add16(self.pc, 1);
                        Ok(8)
                    },
                    Err(f) => Err(f),
                }
            },
            0x3E => {
                let value = mmu.read(wrap_add16(self.pc, 1));
                self.set_a(value);
                self.pc = wrap_add16(self.pc, 2);
                Ok(8)
            },
            _ => Err(Fault::UnimplementedOpcode { opcode, pc: self.pc }),
        }
    }

    fn exec_loads(&mut self, opcode: u8, mmu: &mut MMU) -> (r: Result<u8, Fault>)
        requires
            0x40 <= opcode < 0x80,
            old(mmu).wf(),
        ensures
            final(mmu).wf(),
            exec_post(*old(self), old(mmu)@, *final(self), final(mmu)@, r, opcode),
    {
        proof {
            reveal(spec_exec_loads);
        }
        match opcode {
            0x47 => {
                let value = self.a();
                self.set_b(value);
                self.pc = wrap_add16(self.pc, 1);
                Ok(4)
            },
            0x48 => {
                let value = self.b();
                self.set_c(value);
                self.pc = wrap_add16(self.pc, 1);
                Ok(4)
            },
            0x49 => {
                let value = self.c();
                self.set_c(value);
                self.pc = wrap_add16(self.pc, 1);
                Ok(4)
            },
            0x4A => {
                let value = self.d();
                self.set_c(value);
                self.pc = wrap_add16(self.pc, 1);
                Ok(4)
            },
            0x4B => {
                let value = self.e();
                self.set_c(value);
                self.pc = wrap_add16(self.pc, 1);
                Ok(4)
            },
            0x4C => {
                if !self.get_z_flag() {
                    self.call_a16(mmu)
                } else {
                    self.pc = wrap_add16(self.pc, 3);
                    Ok(12)
                }
            },
            0x4D => {
                let value = self.l();
                self.set_c(value);
                self.pc = wrap_add16(self.pc, 1);
                Ok(4)
            },
            0x4E => {
                let value = mmu.read(self.hl);
                self.set_c(value);
                self.pc = wrap_add16(self.pc, 1);
                Ok(8)
            },
            0x4F => {
                let value = self.a();
                self.set_c(value);
                self.pc = wrap_add16(self.pc, 1);
                Ok(4)
            },
            0x50 => {
                let value = self.b();
                self.set_d(value);
                self.pc = wrap_add16(self.pc, 1);
                Ok(4)
            },
            0x51 => {
                let value = self.c();
                self.set_d(value);
                self.pc = wrap_add16(self.pc, 1);
                Ok(4)
            },
            0x52 => {
                let value = self.d();
                self.set_d(value);
                self.pc = wrap_add16(self.pc, 1);
                Ok(4)
            },
            0x53 => {
                let value = self.e();
                self.set_d(value);
                self.pc = wrap_add16(self.pc, 1);
                Ok(4)
            },
            0x54 => {
                let value = self.h();
                self.set_d(value);
                self.pc = wrap_add16(self.pc, 1);
                Ok(4)
            },
            0x55 => {
                let value = self.l();
                self.set_d(value);
                self.pc = wrap_add16(self.pc, 1);
                Ok(4)
            },
            0x56 => {
                let value = mmu.read(self.hl);
                self.set_d(value);
                self.pc = wrap_add16(self.pc, 1);
                Ok(8)
            },
            0x57 => {
                let value = self.a();
                self.set_d(value);
                self.pc = wrap_add16(self.pc, 1);
                Ok(4)
            },
            0x58 => {
                let value = self.b();
                self.set_e(value);
                self.pc = wrap_add16(self.pc, 1);
                Ok(4)
            },
            0x59 => {
                let value = self.c();
                self.set_e(value);
                self.pc = wrap_add16(self.pc, 1);
                Ok(4)
            },
            0x5A => {
                let value = self.d();
                self.set_e(value);
                self.pc = wrap_add16(self.pc, 1);
                Ok(4)
            },
            0x5B => {
                let value = self.e();
                self.set_e(value);
                self.pc = wrap_add16(self.pc, 1);
                Ok(4)
            },
            0x5C => {
                let value = self.h();
                self.set_e(value);
                self.pc = wrap_add16(self.pc, 1);
                Ok(4)
            },
            0x60 => {
                let value = self.b();
                self.set_h(value);
                self.pc = wrap_add16(self.pc, 1);
                Ok(4)
            },
            0x66 => {
                let value = mmu.read(self.hl);
                self.set_h(value);
                self.pc = wrap_add16(self.pc, 1);
                Ok(8)
            },
            0x6B => {
                let value = self.e();
                self.set_l(value);
                self.pc = wrap_add16(self.pc, 1);
                Ok(4)
            },
            0x6C => {
                let value = self.h();
                self.set_l(value);
                self.pc = wrap_add16(self.pc, 1);
                Ok(4)
            },
            0x6D => {
                let value = self.l();
                self.set_l(value);
                self.pc = wrap_add16(self.pc, 1);
                Ok(4)
            },
            0x6E => {
                let value = mmu.read(self.hl);
                self.set_l(value);
                self.pc = wrap_add16(self.pc, 1);
                Ok(8)
            },
            0x6F => {
                let value = self.a();
                self.set_l(value);
                self.pc = wrap_add16(self.pc, 1);
                Ok(4)
            },
            0x71 => {
                let value = self.c();
                self.store_hl(mmu, value)
            },
            0x72 => {
                let value = self.d();
                self.store_hl(mmu, value)
            },
            0x73 => {
                let value = self.e();
                self.store_hl(mmu, value)
            },
            0x74 => {
                let value = self.h();
                self.store_hl(mmu, value)
            },
            0x75 => {
                let value = self.l();
                self.store_hl(mmu, value)
            },
            0x77 => {
                let value = self.a();
                self.store_hl(mmu, value)
            },
            0x78 => {
                let value = self.b();
                self.set_a(value);
                self.pc = wrap_add16(self.pc, 1);
                Ok(4)
            },
            0x79 => {
                let value = self.c();
                self.set_a(value);
                self.pc = wrap_add16(self.pc, 1);
                Ok(4)
            },
            0x7A => {
                let value = self.d();
                self.set_a(value);
                self.pc = wrap_add16(self.pc, 1);
                Ok(4)
            },
            0x7E => {
                let value = mmu.read(self.hl);
                self.set_a(value);
                self.pc = wrap_add16(self.pc, 1);
                Ok(8)
            },
            0x7F => {
                let value = self.a();
                self.set_a(value);
                self.pc = wrap_add16(self.pc, 1);
                Ok(4)
            },
            _ => Err(Fault::UnimplementedOpcode { opcode, pc: self.pc }),
        }
    }

    fn exec_alu(&mut self, opcode: u8, mmu: &mut MMU) -> (r: Result<u8, Fault>)
        requires
            0x80 <= opcode < 0xC0,
            old(mmu).wf(),
        ensures
            final(mmu).wf(),
            exec_post(*old(self), old(mmu)@, *final(self), final(mmu)@, r, opcode),
    {
        if opcode < 0xA0 {
            self.exec_alu_sub(opcode, mmu)
        } else {
            self.exec_alu_xor(opcode, mmu)
        }
    }

    #[verifier::rlimit(100)]
    fn exec_alu_sub(&mut self, opcode: u8, mmu: &mut MMU) -> (r: Result<u8, Fault>)
        requires
            0x80 <= opcode < 0xA0,
            old(mmu).wf(),
        ensures
            final(mmu).wf(),
            exec_post(*old(self), old(mmu)@, *final(self), final(mmu)@, r, opcode),
    {
        proof {
            reveal(spec_exec_alu);
        }
        match opcode {
            0x86 => {
                let m = mmu.read(self.hl);
                let a0 = self.a();
                let na = wrap_add8(a0, m);
                self.set_a(na);
                let half = ((a0 & 0x0F) as u16) + ((m & 0x0F) as u16) > 0x0F;
                let carry = (a0 as u16) + (m as u16) > 0xFF;
                self.set_flags(Some(na == 0), Some(false), Some(half), Some(carry));
                self.pc = wrap_add16(self.pc, 1);
                Ok(8)
            },
            0x90 => {
                let x = self.b();
                self.op_sub(x);
                Ok(4)
            },
            0x91 => {
                let x = self.c();
                self.op_sub(x);
                Ok(4)
            },
            0x92 => {
                let x = self.d();
                self.op_sub(x);
                Ok(4)
            },
            0x93 => {
                let x = self.e();
                self.op_sub(x);
                Ok(4)
            },
            0x94 => {
                let x = self.h();
                self.op_sub(x);
                Ok(4)
            },
            0x95 => {
                let x = self.l();
                self.op_sub(x);
                Ok(4)
            },
            0x96 => {
                let x = mmu.read(self.hl);
                self.op_sub(x);
                Ok(8)
            },
            0x97 => {
                let x = self.a();
                self.op_sub(x);
                Ok(4)
            },
            0x98 => {
                let x = self.b();
                self.op_sbc(x);
                Ok(4)
            },
            0x99 => {
                let x = self.c();
                self.op_sbc(x);
                Ok(4)
            },
            0x9A => {
                let x = self.d();
                self.op_sbc(x);
                Ok(4)
            },
            0x9B => {
                let x = self.e();
                self.op_sbc(x);
                Ok(4)
            },
            0x9C => {
                let x = self.h();
                self.op_sbc(x);
                Ok(4)
            },
            0x9D => {
                let x = self.l();
                self.op_sbc(x);
                Ok(4)
            },
            _ => Err(Fault::UnimplementedOpcode { opcode, pc: self.pc }),
        }
    }

    fn exec_alu_xor(&mut self, opcode: u8, mmu: &mut MMU) -> (r: Result<u8, Fault>)
        requires
            0xA0 <= opcode < 0xC0,
            old(mmu).wf(),
        ensures
            final(mmu).wf(),
            exec_post(*old(self), old(mmu)@, *final(self), final(mmu)@, r, opcode),
    {
        proof {
            reveal(spec_exec_alu);
        }
        let _ = mmu;
        match opcode {
            0xA9 => {
                let x = self.c();
                self.op_xor(x);
                Ok(4)
            },
            0xAA => {
                let x = self.d();
                self.op_xor(x);
                Ok(4)
            },
            0xAB => {
                let x = self.e();
                self.op_xor(x);
                Ok(4)
            },
            0xAC => {
                let x = self.h();
                self.op_xor(x);
                Ok(4)
            },
            0xAF => {
                let x = self.a();
                self.op_xor(x);
                Ok(4)
            },
            _ => Err(Fault::UnimplementedOpcode { opcode, pc: self.pc }),
        }
    }

    fn exec_control(&mut self, opcode: u8, mmu: &mut MMU) -> (r: Result<u8, Fault>)
        requires
            0xC0 <= opcode,
            old(mmu).wf(),
        ensures
            final(mmu).wf(),
            exec_post(*old(self), old(mmu)@, *final(self), final(mmu)@, r, opcode),
    {
        proof {
            reveal(spec_exec_control);
        }
        match opcode {
            0xC3 => {
                self.pc = mmu.read_double(wrap_add16(self.pc, 1));
                Ok(16)
            },
            0xCB => {
                let sub = mmu.read(wrap_add16(self.pc, 1));
                if sub == 0x7C {
                    let bit = get_bit(self.hl, 15);
                    self.set_flags(Some(!bit), Some(false), Some(true), None);
                    self.pc = wrap_add16(self.pc, 2);
                    Ok(8)
                } else {
                    Err(Fault::UnimplementedCbOpcode { opcode: sub, pc: self.pc })
                }
            },
            0xCC => {
                if self.get_z_flag() {
                    self.call_a16(mmu)
                } else {
                    self.pc = wrap_add16(self.pc, 3);
                    Ok(12)
                }
            },
            0xE0 => {
                let n = mmu.read(wrap_add16(self.pc, 1));
                let value = self.a();
                match mmu.write(0xFF00 + (n as u16), value) {
                    Ok(()) => {
                        self.pc = wrap_add16(self.pc, 2);
                        Ok(12)
                    },
                    Err(f) => Err(f),
                }
            },
            0xE1 => {
                let sp2 = wrap_add16(self.sp, 2);
                self.hl = mmu.read_double(sp2);
                self.sp = sp2;
                self.pc = wrap_add16(self.pc, 1);
                Ok(12)
            },
            0xE2 => {
                let offset = self.c();
                let value = self.a();
                match mmu.write(0xFF00 + (offset as u16), value) {
                    Ok(()) => {
                        self.pc = wrap_add16(self.pc, 2);
                        Ok(8)
                    },
                    Err(f) => Err(f),
                }
            },
            0xE5 => {
                match mmu.write_double(self.sp, self.hl) {
                    Ok(()) => {
                        proof {
                            lemma_mmu_write_double_view(
                                *old(mmu),
                                *mmu,
                                old(self).sp,
                                old(self).hl,
                            );
                        }
                        self.sp = wrap_sub16(self.sp, 2);
                        self.pc = wrap_add16(self.pc, 1);
                        Ok(16)
                    },
                    Err(f) => Err(f),
                }
            },
            0xFF => {
                match mmu.write_double(self.sp, self.pc) {
                    Ok(()) => {
                        proof {
                            lemma_mmu_write_double_view(
                                *old(mmu),
                                *mmu,
                                old(self).sp,
                                old(self).pc,
                            );
                        }
                        self.sp = wrap_sub16(self.sp, 2);
                        self.pc = 0x38;
                        Ok(16)
                    },
                    Err(f) => Err(f),
                }
            },
            _ => Err(Fault::UnimplementedOpcode { opcode, pc: self.pc }),
        }
    }

    /// Store `value` at the address in `hl` and advance past the one-byte
    /// instruction; the shared body of the LD (HL),r family.
    fn store_hl(&mut self, mmu: &mut MMU, value: u8) -> (r: Result<u8, Fault>)
        requires
            old(mmu).wf(),
        ensures
            final(mmu).wf(),
            (match write1_effect(
                CPU { pc: wrap16(old(self).pc + 1), ..*old(self) },
                old(mmu)@,
                old(self).hl,
                value,
                8,
            ) {
                StepEffect::Next { cpu, mem, cycles } => *final(self) == cpu && final(mmu)@ == mem
                    && r == Ok::<u8, Fault>(cycles),
                StepEffect::Faulted { fault, mem } => *final(self) == *old(self) && final(mmu)@
                    == mem && r == Err::<u8, Fault>(fault),
            }),
    {
        match mmu.write(self.hl, value) {
            Ok(()) => {
                self.pc = wrap_add16(self.pc, 1);
                Ok(8)
            },
            Err(f) => Err(f),
        }
    }

    /// The shared body of the conditional calls, once the condition held.
    fn call_a16(&mut self, mmu: &mut MMU) -> (r: Result<u8, Fault>)
        requires
            old(mmu).wf(),
        ensures
            final(mmu).wf(),
            (match call_effect(*old(self), old(mmu)@) {
                StepEffect::Next { cpu, mem, cycles } => *final(self) == cpu && final(mmu)@ == mem
                    && r == Ok::<u8, Fault>(cycles),
                StepEffect::Faulted { fault, mem } => *final(self) == *old(self) && final(mmu)@
                    == mem && r == Err::<u8, Fault>(fault),
            }),
    {
        match mmu.write_double(self.sp, self.pc) {
            Ok(()) => {
                proof {
                    lemma_mmu_write_double_view(*old(mmu), *mmu, old(self).sp, old(self).pc);
                }
                self.sp = wrap_sub16(self.sp, 2);
                self.pc = mmu.read_double(wrap_add16(self.pc, 1));
                Ok(24)
            },
            Err(f) => Err(f),
        }
    }

    /// The program counter with a signed displacement byte applied.
    fn rel_target(&self, off: u8) -> (r: u16)
        ensures
            r == wrap16(self.pc + rel8(off)),
    {
        if off < 0x80 {
            wrap_add16(self.pc, off as u16)
        } else {
            wrap_sub16(self.pc, 0x100 - (off as u16))
        }
    }

    /// Subtract `x` from the accumulator, deriving the flags from the true
    /// operands, and advance past the one-byte instruction.
    fn op_sub(&mut self, x: u8)
        ensures
            *final(self) == sub_cpu(*old(self), x),
    {
        let a0 = self.a();
        let na = wrap_sub8(a0, x);
        self.set_a(na);
        self.set_flags(Some(na == 0), Some(true), Some((a0 & 0x0F) < (x & 0x0F)), Some(a0 < x));
        self.pc = wrap_add16(self.pc, 1);
    }

    /// Subtract `x` plus the carry flag from the accumulator.
    fn op_sbc(&mut self, x: u8)
        ensures
            *final(self) == sbc_cpu(*old(self), x),
    {
        let carry: u8 = if self.c_flag() {
            1
        } else {
            0
        };
        let rhs = wrap_add8(x, carry);
        self.op_sub(rhs);
    }

    /// Exclusive-or the accumulator with `x`, clearing N, H and C.
    fn op_xor(&mut self, x: u8)
        ensures
            *final(self) == xor_cpu(*old(self), x),
    {
        let a0 = self.a();
        let na = a0 ^ x;
        self.set_a(na);
        self.set_flags(Some(na == 0), Some(false), Some(false), Some(false));
        self.pc = wrap_add16(self.pc, 1);
    }

    fn set_f_bit_n(&mut self, n: u8, value: bool)
        requires
            n < 16,
        ensures
            *final(self) == (CPU { af: with_bit(old(self).af, n, value), ..*old(self) }),
    {
        self.af = set_bit(self.af, n, value);
    }

    fn set_z_flag(&mut self, value: bool)
        ensures
            *final(self) == (CPU {
                af: with_bit(old(self).af, F_REGISTER_Z_FLAG_BIT_N, value),
                ..*old(self)
            }),
    {
        self.set_f_bit_n(F_REGISTER_Z_FLAG_BIT_N, value)
    }

    fn set_n_flag(&mut self, value: bool)
        ensures
            *final(self) == (CPU {
                af: with_bit(old(self).af, F_REGISTER_N_FLAG_BIT_N, value),
                ..*old(self)
            }),
    {
        self.set_f_bit_n(F_REGISTER_N_FLAG_BIT_N, value)
    }

    fn set_h_flag(&mut self, value: bool)
        ensures
            *final(self) == (CPU {
                af: with_bit(old(self).af, F_REGISTER_H_FLAG_BIT_N, value),
                ..*old(self)
            }),
    {
        self.set_f_bit_n(F_REGISTER_H_FLAG_BIT_N, value)
    }

    fn set_c_flag(&mut self, value: bool)
        ensures
            *final(self) == (CPU {
                af: with_bit(old(self).af, F_REGISTER_C_FLAG_BIT_N, value),
                ..*old(self)
            }),
    {
        self.set_f_bit_n(F_REGISTER_C_FLAG_BIT_N, value)
    }

    /// Apply the flag updates one instruction requests, in Z, N, H, C
    /// order; a `None` leaves that flag untouched.
    fn set_flags(&mut self, z: Option<bool>, n: Option<bool>, h: Option<bool>, c: Option<bool>)
        ensures
            *final(self) == (CPU { af: flags_updated(old(self).af, z, n, h, c), ..*old(self) }),
    {
        match z {
            Some(z) => self.set_z_flag(z),
            _ => {},
        }
        match n {
            Some(n) => self.set_n_flag(n),
            _ => {},
        }
        match h {
            Some(h) => self.set_h_flag(h),
            _ => {},
        }
        match c {
            Some(c) => self.set_c_flag(c),
            _ => {},
        }
    }

    /// Whether bit `n` of the flag byte is set.
    fn get_f_bit_n(&self, n: u8) -> (r: bool)
        requires
            n < 8,
        ensures
            r == bit_set(self.af, n),
    {
        get_bit(self.af, n)
    }

    /// Z: the last result was zero (or the compared values matched).
    pub fn get_z_flag(&self) -> (r: bool)
        ensures
            r == bit_set(self.af, F_REGISTER_Z_FLAG_BIT_N),
    {
        self.get_f_bit_n(F_REGISTER_Z_FLAG_BIT_N)
    }

    /// N: the last arithmetic instruction was a subtraction.
    pub fn get_n_flag(&self) -> (r: bool)
        ensures
            r == bit_set(self.af, F_REGISTER_N_FLAG_BIT_N),
    {
        self.get_f_bit_n(F_REGISTER_N_FLAG_BIT_N)
    }

    pub fn n_flag(&self) -> (r: bool)
        ensures
            r == bit_set(self.af, F_REGISTER_N_FLAG_BIT_N),
    {
        self.get_f_bit_n(F_REGISTER_N_FLAG_BIT_N)
    }

    pub fn h_flag(&self) -> (r: bool)
        ensures
            r == bit_set(self.af, F_REGISTER_H_FLAG_BIT_N),
    {
        self.get_f_bit_n(F_REGISTER_H_FLAG_BIT_N)
    }

    pub fn c_flag(&self) -> (r: bool)
        ensures
            r == bit_set(self.af, F_REGISTER_C_FLAG_BIT_N),
    {
        self.get_f_bit_n(F_REGISTER_C_FLAG_BIT_N)
    }

    pub fn a(&self) -> (r: u8)
        ensures
            r == upper_byte(self.af),
    {
        let (upper, _) = unpack_bytes_from_double(self.af);
        upper
    }

    pub fn set_a(&mut self, value: u8)
        ensures
            *final(self) == (CPU { af: with_upper(old(self).af, value), ..*old(self) }),
    {
        self.af = set_upper(self.af, value);
    }

    pub fn b(&self) -> (r: u8)
        ensures
            r == upper_byte(self.bc),
    {
        let (upper, _) = unpack_bytes_from_double(self.bc);
        upper
    }

    pub fn set_b(&mut self, value: u8)
        ensures
            *final(self) == (CPU { bc: with_upper(old(self).bc, value), ..*old(self) }),
    {
        self.bc = set_upper(self.bc, value);
    }

    pub fn c(&self) -> (r: u8)
        ensures
            r == lower_byte(self.bc),
    {
        let (_, lower) = unpack_bytes_from_double(self.bc);
        lower
    }

    pub fn set_c(&mut self, value: u8)
        ensures
            *final(self) == (CPU { bc: with_lower(old(self).bc, value), ..*old(self) }),
    {
        self.bc = set_lower(self.bc, value);
    }

    pub fn d(&self) -> (r: u8)
        ensures
            r == upper_byte(self.de),
    {
        let (upper, _) = unpack_bytes_from_double(self.de);
        upper
    }

    pub fn set_d(&mut self, value: u8)
        ensures
            *final(self) == (CPU { de: with_upper(old(self).de, value), ..*old(self) }),
    {
        self.de = set_upper(self.de, value);
    }

    pub fn e(&self) -> (r: u8)
        ensures
            r == lower_byte(self.de),
    {
        let (_, lower) = unpack_bytes_from_double(self.de);
        lower
    }

    pub fn set_e(&mut self, value: u8)
        ensures
            *final(self) == (CPU { de: with_lower(old(self).de, value), ..*old(self) }),
    {
        self.de = set_lower(self.de, value);
    }

    pub fn h(&self) -> (r: u8)
        ensures
            r == upper_byte(self.hl),
    {
        let (upper, _) = unpack_bytes_from_double(self.hl);
        upper
    }

    pub fn set_h(&mut self, value: u8)
        ensures
            *final(self) == (CPU { hl: with_upper(old(self).hl, value), ..*old(self) }),
    {
        self.hl = set_upper(self.hl, value);
    }

    pub fn l(&self) -> (r: u8)
        ensures
            r == lower_byte(self.hl),
    {
        let (_, lower) = unpack_bytes_from_double(self.hl);
        lower
    }

    pub fn set_l(&mut self, value: u8)
        ensures
            *final(self) == (CPU { hl: with_lower(old(self).hl, value), ..*old(self) }),
    {
        self.hl = set_lower(self.hl, value);
    }
}

/// Law (stack round trip): a push of `hl` followed directly by its
/// corresponding pop restores `hl` and restores the stack pointer to its
/// pre-push value, whenever the two stack bytes land in a RAM-backed store.
/// (With the stack pointing into a read-only window the pushed word is
/// discarded and nothing can restore it.)
#[verifier::rlimit(100)]
pub proof fn lemma_push_pop_roundtrip(cpu: CPU, mem: MemModel)
    requires
        mem.wf(),
        mem.read8(cpu.pc) == 0xE5,
        ram_backed(cpu.sp),
        ram_backed(succ(cpu.sp)),
        spec_step(cpu, mem) matches StepEffect::Next { cpu: c1, mem: m1, .. }
            && m1.read8(c1.pc) == 0xE1,
    ensures
        spec_step(cpu, mem) matches StepEffect::Next { cpu: c1, mem: m1, .. }
            && (spec_step(c1, m1) matches StepEffect::Next { cpu: c2, .. }
            && c2.hl == cpu.hl
            && c2.sp == cpu.sp),
{
    reveal(spec_exec_control);
    let sp = cpu.sp;
    let a2 = succ(sp);
    let up = upper_byte(cpu.hl);
    let lo = lower_byte(cpu.hl);
    let m_mid = mem.write8(sp, up);
    let m1 = m_mid.write8(a2, lo);
    let c1 = CPU { sp: wrap16(cpu.sp - 2), pc: wrap16(cpu.pc + 1), ..cpu };
    // the push resolves to two accepted writes
    assert(spec_step(cpu, mem) == StepEffect::Next { cpu: c1, mem: m1, cycles: 16u8 });
    // the two stack cells hold the two halves of hl: the second write does
    // not disturb the first, since consecutive addresses never share a cell
    assert(m1.read8(sp) == up) by {
        lemma_read_write8(mem, sp, up);
        lemma_write8_wf(mem, sp, up);
        assert(!same_cell(a2, sp));
        lemma_write8_frame(m_mid, a2, sp, lo);
    }
    assert(m1.read8(a2) == lo) by {
        lemma_write8_wf(mem, sp, up);
        lemma_read_write8(m_mid, a2, lo);
    }
    // the pop's stack pointer lands back on the pre-push value
    assert(wrap16(wrap16(sp - 2) + 2) == sp) by {
        lemma_wrap16_add(sp - 2, 2);
    }
    // and the word it reads back is the word pushed
    assert(read2(m1, sp) == cpu.hl) by {
        lemma_pack_unpack_roundtrip(cpu.hl);
    }
    let c2 = CPU { hl: read2(m1, sp), sp, pc: wrap16(c1.pc + 1), ..c1 };
    assert(spec_step(c1, m1) == StepEffect::Next { cpu: c2, mem: m1, cycles: 12u8 });
}

} // verus!

