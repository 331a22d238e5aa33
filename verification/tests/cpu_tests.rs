use gbcore::Gameboy;
use gbcore::util::Fault;

/// A gameboy with `program` laid out in work RAM and the program counter
/// parked on its first byte; flag byte, registers and stack are set by the
/// individual tests.
fn setup(program: &[u8]) -> Gameboy {
    let mut gb = Gameboy::default();
    for (i, b) in program.iter().enumerate() {
        gb.mmu.wram[i] = *b;
    }
    gb.cpu.pc = 0xC000;
    gb
}

#[test]
fn nop_advances_pc_and_costs_four_cycles() {
    let mut gb = setup(&[0x00]);
    let cycles = gb.step().unwrap();
    assert_eq!(cycles, 4);
    assert_eq!(gb.cpu.pc, 0xC001);
    assert_eq!(gb.cpu.af, 0x0000);
    assert_eq!(gb.cpu.bc, 0x0000);
    assert_eq!(gb.cpu.de, 0x0000);
    assert_eq!(gb.cpu.hl, 0x0000);
    assert_eq!(gb.cpu.sp, 0x0000);
}

#[test]
fn xor_a_clears_the_accumulator_and_sets_only_z() {
    let mut gb = setup(&[0xAF]);
    gb.cpu.af = 0x3400;
    let cycles = gb.step().unwrap();
    assert_eq!(cycles, 4);
    assert_eq!(gb.cpu.pc, 0xC001);
    // accumulator zero, Z set, N/H/C clear
    assert_eq!(gb.cpu.af, 0x0080);
    assert!(gb.cpu.get_z_flag());
    assert!(!gb.cpu.n_flag());
    assert!(!gb.cpu.h_flag());
    assert!(!gb.cpu.c_flag());
}

#[test]
fn xor_c_combines_into_the_accumulator() {
    let mut gb = setup(&[0xA9]);
    gb.cpu.af = 0xF000;
    gb.cpu.bc = 0x000F;
    gb.step().unwrap();
    assert_eq!(gb.cpu.af, 0xFF00);
    assert_eq!(gb.cpu.bc, 0x000F);
}

#[test]
fn jp_assigns_the_operand_word_to_pc_whatever_the_flags() {
    let mut gb = setup(&[0xC3, 0x12, 0x34]);
    let cycles = gb.step().unwrap();
    assert_eq!(cycles, 16);
    assert_eq!(gb.cpu.pc, 0x1234);

    let mut gb = setup(&[0xC3, 0x12, 0x34]);
    gb.cpu.af = 0x00F0;
    let cycles = gb.step().unwrap();
    assert_eq!(cycles, 16);
    assert_eq!(gb.cpu.pc, 0x1234);
}

#[test]
fn push_then_pop_restores_hl_and_sp() {
    let mut gb = setup(&[0xE5, 0xE1]);
    gb.cpu.hl = 0xBEEF;
    gb.cpu.sp = 0x9000;
    let cycles = gb.step().unwrap();
    assert_eq!(cycles, 16);
    assert_eq!(gb.cpu.sp, 0x8FFE);
    // stored at descending stack addresses, upper byte first
    assert_eq!(gb.read(0x9000), 0xBE);
    assert_eq!(gb.read(0x9001), 0xEF);
    gb.cpu.hl = 0x0000;
    let cycles = gb.step().unwrap();
    assert_eq!(cycles, 12);
    assert_eq!(gb.cpu.hl, 0xBEEF);
    assert_eq!(gb.cpu.sp, 0x9000);
    assert_eq!(gb.cpu.pc, 0xC002);
}

#[test]
fn ld_bc_d16_loads_upper_byte_first() {
    let mut gb = setup(&[0x01, 0xAB, 0xCD]);
    let cycles = gb.step().unwrap();
    assert_eq!(cycles, 12);
    assert_eq!(gb.cpu.bc, 0xABCD);
    assert_eq!(gb.cpu.pc, 0xC003);
}

#[test]
fn dec_b_to_zero_sets_z_and_n() {
    let mut gb = setup(&[0x05]);
    gb.cpu.bc = 0x0100;
    let cycles = gb.step().unwrap();
    assert_eq!(cycles, 4);
    assert_eq!(gb.cpu.bc, 0x0000);
    assert_eq!(gb.cpu.af, 0x00C0);
}

#[test]
fn dec_b_wraps_and_half_borrows() {
    let mut gb = setup(&[0x05]);
    gb.cpu.bc = 0x0000;
    gb.step().unwrap();
    assert_eq!(gb.cpu.bc, 0xFF00);
    // Z clear, N set, H set (borrow out of the low nibble)
    assert_eq!(gb.cpu.af, 0x0060);
}

#[test]
fn inc_c_half_carries_out_of_the_low_nibble() {
    let mut gb = setup(&[0x0C]);
    gb.cpu.bc = 0x000F;
    gb.step().unwrap();
    assert_eq!(gb.cpu.bc, 0x0010);
    assert_eq!(gb.cpu.af, 0x0020);
}

#[test]
fn inc_e_wraps_to_zero() {
    let mut gb = setup(&[0x1C]);
    gb.cpu.de = 0x00FF;
    gb.step().unwrap();
    assert_eq!(gb.cpu.de, 0x0000);
    // Z set, H set (low nibble was full), N clear
    assert_eq!(gb.cpu.af, 0x00A0);
}

#[test]
fn sub_b_derives_flags_from_the_true_operands() {
    let mut gb = setup(&[0x90]);
    gb.cpu.af = 0x1000;
    gb.cpu.bc = 0x0100;
    let cycles = gb.step().unwrap();
    assert_eq!(cycles, 4);
    // 0x10 - 0x01 = 0x0F with a half-borrow, no full borrow
    assert_eq!(gb.cpu.af, 0x0F60);
}

#[test]
fn sub_a_always_leaves_zero() {
    let mut gb = setup(&[0x97]);
    gb.cpu.af = 0x5700;
    gb.step().unwrap();
    // Z and N set, H and C clear
    assert_eq!(gb.cpu.af, 0x00C0);
}

#[test]
fn sub_borrows_set_the_carry() {
    let mut gb = setup(&[0x91]);
    gb.cpu.af = 0x0100;
    gb.cpu.bc = 0x0002;
    gb.step().unwrap();
    // 0x01 - 0x02 wraps to 0xFF with half-borrow and borrow
    assert_eq!(gb.cpu.af, 0xFF70);
}

#[test]
fn sbc_adds_the_carry_to_the_operand() {
    let mut gb = setup(&[0x98]);
    gb.cpu.af = 0x0510;
    gb.cpu.bc = 0x0100;
    gb.step().unwrap();
    // 0x05 - (0x01 + carry) = 0x03; only N remains set
    assert_eq!(gb.cpu.af, 0x0340);
}

#[test]
fn add_a_hl_reads_the_operand_through_hl() {
    let mut gb = setup(&[0x86]);
    gb.mmu.wram[0x10] = 0x0F;
    gb.cpu.hl = 0xC010;
    gb.cpu.af = 0x0100;
    let cycles = gb.step().unwrap();
    assert_eq!(cycles, 8);
    // 0x01 + 0x0F = 0x10 with a half-carry
    assert_eq!(gb.cpu.af, 0x1020);
}

#[test]
fn add_hl_de_wraps_and_carries() {
    let mut gb = setup(&[0x19]);
    gb.cpu.hl = 0xFFFF;
    gb.cpu.de = 0x0001;
    let cycles = gb.step().unwrap();
    assert_eq!(cycles, 8);
    assert_eq!(gb.cpu.hl, 0x0000);
    // H (carry across the byte boundary) and C (carry out of bit 15)
    assert_eq!(gb.cpu.af, 0x0030);
}

#[test]
fn jr_applies_the_signed_displacement_past_the_instruction() {
    let mut gb = setup(&[0x18, 0x05]);
    let cycles = gb.step().unwrap();
    assert_eq!(cycles, 12);
    assert_eq!(gb.cpu.pc, 0xC007);

    let mut gb = setup(&[0x18, 0xFE]);
    gb.step().unwrap();
    assert_eq!(gb.cpu.pc, 0xC000);
}

#[test]
fn jr_nz_branches_on_the_z_flag() {
    let mut gb = setup(&[0x20, 0x10]);
    let cycles = gb.step().unwrap();
    assert_eq!(cycles, 12);
    assert_eq!(gb.cpu.pc, 0xC010);

    let mut gb = setup(&[0x20, 0x10]);
    gb.cpu.af = 0x0080;
    let cycles = gb.step().unwrap();
    assert_eq!(cycles, 8);
    assert_eq!(gb.cpu.pc, 0xC002);
}

#[test]
fn undefined_opcode_is_a_fault_naming_byte_and_pc() {
    let mut gb = setup(&[0xD3]);
    let r = gb.step();
    assert_eq!(r, Err(Fault::UnimplementedOpcode { opcode: 0xD3, pc: 0xC000 }));
    // nothing was executed
    assert_eq!(gb.cpu.pc, 0xC000);
    assert_eq!(gb.cpu.af, 0x0000);
}

#[test]
fn undefined_cb_opcode_is_a_fault_naming_byte_and_pc() {
    let mut gb = setup(&[0xCB, 0x00]);
    let r = gb.step();
    assert_eq!(r, Err(Fault::UnimplementedCbOpcode { opcode: 0x00, pc: 0xC000 }));
    assert_eq!(gb.cpu.pc, 0xC000);
}

#[test]
fn bit_7_h_sets_z_exactly_when_the_bit_is_clear() {
    let mut gb = setup(&[0xCB, 0x7C]);
    gb.cpu.hl = 0x8000;
    let cycles = gb.step().unwrap();
    assert_eq!(cycles, 8);
    assert_eq!(gb.cpu.pc, 0xC002);
    assert_eq!(gb.cpu.af, 0x0020);

    let mut gb = setup(&[0xCB, 0x7C]);
    gb.cpu.hl = 0x7FFF;
    gb.step().unwrap();
    assert_eq!(gb.cpu.af, 0x00A0);
}

#[test]
fn ldh_stores_into_the_high_page() {
    let mut gb = setup(&[0xE0, 0x80]);
    gb.cpu.af = 0x4200;
    let cycles = gb.step().unwrap();
    assert_eq!(cycles, 12);
    assert_eq!(gb.cpu.pc, 0xC002);
    assert_eq!(gb.read(0xFF80), 0x42);
}

#[test]
fn ld_c_offset_stores_into_the_high_page() {
    let mut gb = setup(&[0xE2]);
    gb.cpu.bc = 0x0080;
    gb.cpu.af = 0x5500;
    let cycles = gb.step().unwrap();
    assert_eq!(cycles, 8);
    assert_eq!(gb.cpu.pc, 0xC002);
    assert_eq!(gb.read(0xFF80), 0x55);
}

#[test]
fn ld_hl_plus_writes_then_increments() {
    let mut gb = setup(&[0x22]);
    gb.cpu.hl = 0xC100;
    gb.cpu.af = 0x9900;
    gb.step().unwrap();
    // the write lands at the old hl
    assert_eq!(gb.read(0xC100), 0x99);
    assert_eq!(gb.cpu.hl, 0xC101);
}

#[test]
fn ld_hl_minus_writes_then_decrements() {
    let mut gb = setup(&[0x32]);
    gb.cpu.hl = 0xC100;
    gb.cpu.af = 0x9900;
    gb.step().unwrap();
    assert_eq!(gb.read(0xC100), 0x99);
    assert_eq!(gb.cpu.hl, 0xC0FF);
}

#[test]
fn store_into_absent_external_ram_is_a_fault() {
    let mut gb = setup(&[0x77]);
    gb.cpu.hl = 0xA000;
    gb.cpu.af = 0x0100;
    let r = gb.step();
    assert_eq!(r, Err(Fault::UnimplementedWrite { address: 0xA000, value: 0x01 }));
    assert_eq!(gb.cpu.pc, 0xC000);
    assert_eq!(gb.cpu.hl, 0xA000);
}

#[test]
fn call_z_pushes_pc_and_jumps_when_z_is_set() {
    let mut gb = setup(&[0xCC, 0x12, 0x34]);
    gb.cpu.af = 0x0080;
    gb.cpu.sp = 0x9000;
    let cycles = gb.step().unwrap();
    assert_eq!(cycles, 24);
    assert_eq!(gb.cpu.sp, 0x8FFE);
    assert_eq!(gb.read(0x9000), 0xC0);
    assert_eq!(gb.read(0x9001), 0x00);
    assert_eq!(gb.cpu.pc, 0x1234);
}

#[test]
fn call_z_falls_through_when_z_is_clear() {
    let mut gb = setup(&[0xCC, 0x12, 0x34]);
    gb.cpu.sp = 0xD000;
    let cycles = gb.step().unwrap();
    assert_eq!(cycles, 12);
    assert_eq!(gb.cpu.sp, 0xD000);
    assert_eq!(gb.cpu.pc, 0xC003);
}

#[test]
fn call_nz_takes_the_opposite_condition() {
    let mut gb = setup(&[0x4C, 0x12, 0x34]);
    gb.cpu.sp = 0x9000;
    let cycles = gb.step().unwrap();
    assert_eq!(cycles, 24);
    assert_eq!(gb.cpu.pc, 0x1234);
    assert_eq!(gb.cpu.sp, 0x8FFE);

    let mut gb = setup(&[0x4C, 0x12, 0x34]);
    gb.cpu.af = 0x0080;
    gb.cpu.sp = 0x9000;
    let cycles = gb.step().unwrap();
    assert_eq!(cycles, 12);
    assert_eq!(gb.cpu.pc, 0xC003);
}

#[test]
fn rst_38_pushes_pc_and_restarts() {
    let mut gb = setup(&[0xFF]);
    gb.cpu.sp = 0x9000;
    let cycles = gb.step().unwrap();
    assert_eq!(cycles, 16);
    assert_eq!(gb.cpu.sp, 0x8FFE);
    assert_eq!(gb.read(0x9000), 0xC0);
    assert_eq!(gb.read(0x9001), 0x00);
    assert_eq!(gb.cpu.pc, 0x0038);
}

#[test]
fn ld_a16_sp_stores_the_stack_pointer() {
    let mut gb = setup(&[0x08, 0xC1, 0x00]);
    gb.cpu.sp = 0x1234;
    let cycles = gb.step().unwrap();
    assert_eq!(cycles, 20);
    assert_eq!(gb.cpu.pc, 0xC003);
    assert_eq!(gb.read(0xC100), 0x12);
    assert_eq!(gb.read(0xC101), 0x34);
}

#[test]
fn cpl_complements_the_accumulator() {
    let mut gb = setup(&[0x2F]);
    gb.cpu.af = 0x0F00;
    gb.step().unwrap();
    assert_eq!(gb.cpu.af, 0xF060);
}

#[test]
fn register_to_register_loads_copy_one_half() {
    let mut gb = setup(&[0x47]);
    gb.cpu.af = 0x1200;
    let cycles = gb.step().unwrap();
    assert_eq!(cycles, 4);
    assert_eq!(gb.cpu.bc, 0x1200);
    assert_eq!(gb.cpu.af, 0x1200);

    let mut gb = setup(&[0x4E]);
    gb.mmu.wram[0x20] = 0x7E;
    gb.cpu.hl = 0xC020;
    let cycles = gb.step().unwrap();
    assert_eq!(cycles, 8);
    assert_eq!(gb.cpu.bc, 0x007E);
}

#[test]
fn immediate_loads_fill_each_half_register() {
    let mut gb = setup(&[0x0E, 0x11]);
    gb.step().unwrap();
    assert_eq!(gb.cpu.bc, 0x0011);

    let mut gb = setup(&[0x3E, 0x22]);
    gb.step().unwrap();
    assert_eq!(gb.cpu.af, 0x2200);

    let mut gb = setup(&[0x31, 0xFF, 0xFE]);
    gb.step().unwrap();
    assert_eq!(gb.cpu.sp, 0xFFFE);
}

#[test]
fn every_opcode_either_executes_or_faults_without_panicking() {
    for opcode in 0..=0xFFu16 {
        let mut gb = setup(&[opcode as u8, 0x10, 0x20]);
        gb.cpu.sp = 0xD000;
        gb.cpu.hl = 0xC100;
        let _ = gb.step();
    }
}

#[test]
fn boot_overlay_shadows_the_cartridge_until_disabled() {
    let cartridge = gbcore::Cartridge::maybe_from_bytes(&[0x42; 0x200]).unwrap();
    let mut gb = Gameboy::new_with_cartridge(cartridge);
    // the zeroed boot image shadows the first page; the page after it reads
    // from the cartridge whatever the overlay state
    assert_eq!(gb.read(0x0000), 0x00);
    assert_eq!(gb.read(0x0100), 0x42);
    gb.mmu.wram[0] = 0x3E; // LD A,0x01
    gb.mmu.wram[1] = 0x01;
    gb.mmu.wram[2] = 0xE0; // LDH (0x50),A: the disable register
    gb.mmu.wram[3] = 0x50;
    gb.cpu.pc = 0xC000;
    gb.step().unwrap();
    gb.step().unwrap();
    assert_eq!(gb.read(0xFF50), 0x01);
    assert_eq!(gb.read(0x0000), 0x42);
}

#[test]
fn display_exposes_video_memory() {
    let mut gb = setup(&[0x77]);
    gb.cpu.hl = 0x8000;
    gb.cpu.af = 0x0700;
    gb.step().unwrap();
    let vram = gb.display();
    assert_eq!(vram.len(), 0x2000);
    assert_eq!(vram[0], 0x07);
    assert!(vram[1..].iter().all(|b| *b == 0));
}

#[test]
fn ld_a_bc_reads_through_bc() {
    let mut gb = setup(&[0x0A]);
    gb.mmu.wram[0x30] = 0x5A;
    gb.cpu.bc = 0xC030;
    let cycles = gb.step().unwrap();
    assert_eq!(cycles, 8);
    assert_eq!(gb.cpu.af, 0x5A00);
}

#[test]
fn ld_bc_a_stores_through_bc() {
    let mut gb = setup(&[0x02]);
    gb.cpu.bc = 0xC040;
    gb.cpu.af = 0x7700;
    let cycles = gb.step().unwrap();
    assert_eq!(cycles, 8);
    assert_eq!(gb.read(0xC040), 0x77);
}

#[test]
fn ld_de_a_stores_through_de() {
    let mut gb = setup(&[0x12]);
    gb.cpu.de = 0x8020;
    gb.cpu.af = 0x6600;
    gb.step().unwrap();
    assert_eq!(gb.read(0x8020), 0x66);
}

#[test]
fn sub_hl_reads_the_operand_from_memory() {
    let mut gb = setup(&[0x96]);
    gb.mmu.wram[0x50] = 0x01;
    gb.cpu.hl = 0xC050;
    gb.cpu.af = 0x0300;
    let cycles = gb.step().unwrap();
    assert_eq!(cycles, 8);
    // 0x03 - 0x01 = 0x02, only N set
    assert_eq!(gb.cpu.af, 0x0240);
}

#[test]
fn ld_hl_d16_and_ld_h_hl() {
    let mut gb = setup(&[0x21, 0xC0, 0x03]);
    let cycles = gb.step().unwrap();
    assert_eq!(cycles, 12);
    assert_eq!(gb.cpu.hl, 0xC003);

    let mut gb = setup(&[0x66]);
    gb.mmu.wram[0x60] = 0x44;
    gb.cpu.hl = 0xC060;
    gb.step().unwrap();
    assert_eq!(gb.cpu.hl, 0x4460);
}

#[test]
fn dec_d_h_and_l_update_their_own_halves() {
    let mut gb = setup(&[0x15]);
    gb.cpu.de = 0x0500;
    gb.step().unwrap();
    assert_eq!(gb.cpu.de, 0x0400);

    let mut gb = setup(&[0x25]);
    gb.cpu.hl = 0x0500;
    gb.step().unwrap();
    assert_eq!(gb.cpu.hl, 0x0400);

    let mut gb = setup(&[0x2D]);
    gb.cpu.hl = 0x0005;
    gb.step().unwrap();
    assert_eq!(gb.cpu.hl, 0x0004);
    // Z clear, N set, H clear
    assert_eq!(gb.cpu.af, 0x0040);
}

#[test]
fn inc_bc_and_hl_wrap_around() {
    let mut gb = setup(&[0x03]);
    gb.cpu.bc = 0xFFFF;
    let cycles = gb.step().unwrap();
    assert_eq!(cycles, 8);
    assert_eq!(gb.cpu.bc, 0x0000);

    let mut gb = setup(&[0x23]);
    gb.cpu.hl = 0xFFFF;
    gb.step().unwrap();
    assert_eq!(gb.cpu.hl, 0x0000);
}

#[test]
fn countdown_loop_runs_to_completion() {
    // DEC B, then JR NZ with displacement -1 lands back on the DEC, until
    // b reaches zero and the branch falls through.
    let mut gb = setup(&[0x05, 0x20, 0xFF]);
    gb.cpu.bc = 0x0300;
    for _ in 0..5 {
        gb.step().unwrap();
        if gb.cpu.get_z_flag() {
            break;
        }
    }
    assert_eq!(gb.cpu.bc, 0x0000);
    assert!(gb.cpu.get_z_flag());
    assert_eq!(gb.cpu.pc, 0xC001);
}
