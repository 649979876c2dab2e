use chip8::vm::{decode, Chip8, Instr, VmError};

fn put_word(vm: &mut Chip8, addr: usize, w: u16) {
    vm.memory[addr] = (w >> 8) as u8;
    vm.memory[addr + 1] = (w & 0xFF) as u8;
}

fn step(vm: &mut Chip8) -> Result<Option<u16>, VmError> {
    vm.step_at(0, 0)
}

fn run_one(vm: &mut Chip8) {
    match step(vm) {
        Ok(next) => vm.apply_pc(next),
        Err(e) => panic!("fatal at pc {}: {:?}", vm.pc, e),
    }
}

#[test]
fn apply_pc_takes_address_or_advances_two() {
    let mut vm = Chip8::new();
    vm.apply_pc(None);
    assert_eq!(vm.pc, 0x202);
    vm.apply_pc(Some(0x300));
    assert_eq!(vm.pc, 0x300);
}

#[test]
fn decode_recognizes_the_table() {
    assert_eq!(decode(0x00E0), Some(Instr::Cls));
    assert_eq!(decode(0x00EE), Some(Instr::Ret));
    assert_eq!(decode(0x0123), Some(Instr::Halt));
    assert_eq!(decode(0x1ABC), Some(Instr::Jump(0xABC)));
    assert_eq!(decode(0x2ABC), Some(Instr::Call(0xABC)));
    assert_eq!(decode(0x3A12), Some(Instr::SkipEqImm(0xA, 0x12)));
    assert_eq!(decode(0x4A12), Some(Instr::SkipNeImm(0xA, 0x12)));
    assert_eq!(decode(0x5AB0), Some(Instr::SkipEqReg(0xA, 0xB)));
    assert_eq!(decode(0x6A12), Some(Instr::LoadImm(0xA, 0x12)));
    assert_eq!(decode(0x7A12), Some(Instr::AddImm(0xA, 0x12)));
    assert_eq!(decode(0x8AB0), Some(Instr::Move(0xA, 0xB)));
    assert_eq!(decode(0x8AB1), Some(Instr::Or(0xA, 0xB)));
    assert_eq!(decode(0x8AB2), Some(Instr::And(0xA, 0xB)));
    assert_eq!(decode(0x8AB3), Some(Instr::Xor(0xA, 0xB)));
    assert_eq!(decode(0x8AB4), Some(Instr::AddReg(0xA, 0xB)));
    assert_eq!(decode(0x8AB5), Some(Instr::SubReg(0xA, 0xB)));
    assert_eq!(decode(0x8AB6), Some(Instr::ShiftRight(0xA)));
    assert_eq!(decode(0x8AB7), Some(Instr::SubFrom(0xA, 0xB)));
    assert_eq!(decode(0x8ABE), Some(Instr::ShiftLeft(0xA)));
    assert_eq!(decode(0x9AB0), Some(Instr::SkipNeReg(0xA, 0xB)));
    assert_eq!(decode(0xAABC), Some(Instr::SetIndex(0xABC)));
    assert_eq!(decode(0xBABC), Some(Instr::JumpOffset(0xABC)));
    assert_eq!(decode(0xCA12), Some(Instr::Random(0xA, 0x12)));
    assert_eq!(decode(0xDAB7), Some(Instr::Draw(0xA, 0xB, 7)));
    assert_eq!(decode(0xEA9E), Some(Instr::SkipKey(0xA)));
    assert_eq!(decode(0xEAA1), Some(Instr::SkipNoKey(0xA)));
    assert_eq!(decode(0xFA07), Some(Instr::ReadDelay(0xA)));
    assert_eq!(decode(0xFA0A), Some(Instr::WaitKey(0xA)));
    assert_eq!(decode(0xFA15), Some(Instr::SetDelay(0xA)));
    assert_eq!(decode(0xFA18), Some(Instr::SetSound(0xA)));
    assert_eq!(decode(0xFA1E), Some(Instr::AddIndex(0xA)));
    assert_eq!(decode(0xFA29), Some(Instr::FontGlyph(0xA)));
    assert_eq!(decode(0xFA33), Some(Instr::StoreBcd(0xA)));
    assert_eq!(decode(0xFA55), Some(Instr::DumpRegs(0xA)));
    assert_eq!(decode(0xFA65), Some(Instr::LoadRegs(0xA)));
    assert_eq!(decode(0x8AB8), None);
    assert_eq!(decode(0x5AB1), None);
    assert_eq!(decode(0x9AB9), None);
    assert_eq!(decode(0xEA00), None);
    assert_eq!(decode(0xFAFF), None);
}

#[test]
fn new_machine_has_font_and_reset_state() {
    let vm = Chip8::new();
    assert_eq!(vm.pc, 0x200);
    assert_eq!(vm.sp, 0);
    assert_eq!(vm.index_reg, 0);
    assert_eq!(&vm.memory[0..5], &[0xF0, 0x90, 0x90, 0x90, 0xF0]);
    assert_eq!(&vm.memory[75..80], &[0xF0, 0x80, 0xF0, 0x80, 0x80]);
    assert!(vm.memory[80..].iter().all(|&b| b == 0));
    assert!(vm.registers.iter().all(|&b| b == 0));
}

#[test]
fn load_rom_places_bytes_at_0x200() {
    let mut vm = Chip8::new();
    let rom = vec![0x60u8, 0x05, 0xA0, 0x00];
    vm.load_rom(&rom);
    assert_eq!(&vm.memory[0x200..0x204], &rom[..]);
    assert_eq!(vm.memory[0x204], 0);
}

#[test]
fn invalid_opcode_is_fatal() {
    let mut vm = Chip8::new();
    put_word(&mut vm, 0x200, 0x8008);
    assert_eq!(step(&mut vm), Err(VmError::InvalidOpcode(0x8008, 0x200)));
    let mut vm2 = Chip8::new();
    put_word(&mut vm2, 0x200, 0x5011);
    assert_eq!(step(&mut vm2), Err(VmError::InvalidOpcode(0x5011, 0x200)));
}

#[test]
fn zero_word_is_the_halt_sentinel() {
    let mut vm = Chip8::new();
    put_word(&mut vm, 0x200, 0x0000);
    assert_eq!(step(&mut vm), Ok(Some(0xFFFF)));
}

#[test]
fn stack_sixteen_calls_succeed_seventeenth_is_fatal() {
    let mut vm = Chip8::new();
    for i in 0..17u16 {
        let addr = 0x200 + 2 * i;
        put_word(&mut vm, addr as usize, 0x2000 | (addr + 2));
    }
    for _ in 0..16 {
        match step(&mut vm) {
            Ok(Some(p)) => vm.pc = p,
            other => panic!("call failed early: {:?}", other),
        }
    }
    assert_eq!(vm.sp, 16);
    let pc = vm.pc;
    let word = 0x2000 | (pc + 2);
    assert_eq!(step(&mut vm), Err(VmError::OutOfBoundsAccess(word, pc)));
}

#[test]
fn call_and_ret_round_trip() {
    let mut vm = Chip8::new();
    put_word(&mut vm, 0x200, 0x2300);
    put_word(&mut vm, 0x300, 0x00EE);
    run_one(&mut vm);
    assert_eq!(vm.pc, 0x300);
    assert_eq!(vm.sp, 1);
    run_one(&mut vm);
    assert_eq!(vm.pc, 0x202);
    assert_eq!(vm.sp, 0);
}

#[test]
fn ret_on_empty_stack_is_fatal() {
    let mut vm = Chip8::new();
    put_word(&mut vm, 0x200, 0x00EE);
    assert_eq!(step(&mut vm), Err(VmError::OutOfBoundsAccess(0x00EE, 0x200)));
}

#[test]
fn skips_compare_as_documented() {
    let mut vm = Chip8::new();
    vm.registers[1] = 7;
    vm.registers[2] = 7;
    vm.registers[3] = 9;
    put_word(&mut vm, 0x200, 0x3107);
    assert_eq!(step(&mut vm), Ok(Some(0x204)));
    put_word(&mut vm, 0x200, 0x3108);
    assert_eq!(step(&mut vm), Ok(Some(0x202)));
    put_word(&mut vm, 0x200, 0x4107);
    assert_eq!(step(&mut vm), Ok(Some(0x202)));
    put_word(&mut vm, 0x200, 0x5120);
    assert_eq!(step(&mut vm), Ok(Some(0x204)));
    put_word(&mut vm, 0x200, 0x5130);
    assert_eq!(step(&mut vm), Ok(Some(0x202)));
    put_word(&mut vm, 0x200, 0x9130);
    assert_eq!(step(&mut vm), Ok(Some(0x204)));
}

#[test]
fn alu_ops_write_expected_values() {
    let mut vm = Chip8::new();
    vm.registers[1] = 0b1100;
    vm.registers[2] = 0b1010;
    put_word(&mut vm, 0x200, 0x8121);
    run_one(&mut vm);
    assert_eq!(vm.registers[1], 0b1110);
    vm.registers[1] = 0b1100;
    put_word(&mut vm, 0x202, 0x8122);
    run_one(&mut vm);
    assert_eq!(vm.registers[1], 0b1000);
    vm.registers[1] = 0b1100;
    put_word(&mut vm, 0x204, 0x8123);
    run_one(&mut vm);
    assert_eq!(vm.registers[1], 0b0110);
    put_word(&mut vm, 0x206, 0x8120);
    run_one(&mut vm);
    assert_eq!(vm.registers[1], 0b1010);
}

#[test]
fn add_with_carry_instruction_sets_flag() {
    let mut vm = Chip8::new();
    vm.registers[1] = 200;
    vm.registers[2] = 100;
    put_word(&mut vm, 0x200, 0x8124);
    run_one(&mut vm);
    assert_eq!(vm.registers[1], 44);
    assert_eq!(vm.registers[15], 1);
    vm.registers[3] = 5;
    vm.registers[4] = 6;
    put_word(&mut vm, 0x202, 0x8345);
    run_one(&mut vm);
    assert_eq!(vm.registers[3], 255);
    assert_eq!(vm.registers[15], 0);
    vm.registers[5] = 6;
    vm.registers[6] = 5;
    put_word(&mut vm, 0x204, 0x8567);
    run_one(&mut vm);
    assert_eq!(vm.registers[5], 255);
    assert_eq!(vm.registers[15], 0);
}

#[test]
fn add_immediate_wraps_without_flag() {
    let mut vm = Chip8::new();
    vm.registers[1] = 5;
    vm.registers[15] = 0;
    put_word(&mut vm, 0x200, 0x71FF);
    run_one(&mut vm);
    assert_eq!(vm.registers[1], 4);
    assert_eq!(vm.registers[15], 0);
}

#[test]
fn shifts_store_the_shifted_out_bit() {
    let mut vm = Chip8::new();
    vm.registers[1] = 0b1001_0011;
    put_word(&mut vm, 0x200, 0x8106);
    run_one(&mut vm);
    assert_eq!(vm.registers[1], 0b0100_1001);
    assert_eq!(vm.registers[15], 1);
    vm.registers[2] = 0b1001_0011;
    put_word(&mut vm, 0x202, 0x820E);
    run_one(&mut vm);
    assert_eq!(vm.registers[2], 0b0010_0110);
    assert_eq!(vm.registers[15], 1);
}

#[test]
fn index_register_ops() {
    let mut vm = Chip8::new();
    put_word(&mut vm, 0x200, 0xA123);
    run_one(&mut vm);
    assert_eq!(vm.index_reg, 0x123);
    vm.registers[1] = 0x10;
    put_word(&mut vm, 0x202, 0xF11E);
    run_one(&mut vm);
    assert_eq!(vm.index_reg, 0x133);
    vm.registers[2] = 0x0B;
    put_word(&mut vm, 0x204, 0xF229);
    run_one(&mut vm);
    assert_eq!(vm.index_reg, 55);
}

#[test]
fn jump_with_offset_adds_v0() {
    let mut vm = Chip8::new();
    vm.registers[0] = 0x10;
    put_word(&mut vm, 0x200, 0xB300);
    assert_eq!(step(&mut vm), Ok(Some(0x310)));
}

#[test]
fn random_masks_the_drawn_byte() {
    let mut vm = Chip8::new();
    put_word(&mut vm, 0x200, 0xC10F);
    let r = vm.step_at(0, 0xAB);
    assert_eq!(r, Ok(None));
    assert_eq!(vm.registers[1], 0x0B);
}

#[test]
fn bcd_writes_three_digits() {
    let mut vm = Chip8::new();
    vm.registers[1] = 234;
    vm.index_reg = 0x300;
    put_word(&mut vm, 0x200, 0xF133);
    run_one(&mut vm);
    assert_eq!(&vm.memory[0x300..0x303], &[2, 3, 4]);
}

#[test]
fn dump_then_load_restores_registers() {
    let mut vm = Chip8::new();
    for i in 0..6usize {
        vm.registers[i] = (10 + i) as u8;
    }
    vm.index_reg = 0x300;
    put_word(&mut vm, 0x200, 0xF555);
    run_one(&mut vm);
    assert_eq!(&vm.memory[0x300..0x306], &[10, 11, 12, 13, 14, 15]);
    for i in 0..6usize {
        vm.registers[i] = 0;
    }
    put_word(&mut vm, 0x202, 0xF565);
    run_one(&mut vm);
    for i in 0..6usize {
        assert_eq!(vm.registers[i], (10 + i) as u8);
    }
    assert_eq!(vm.registers[6], 0);
}

#[test]
fn dump_past_memory_end_is_fatal() {
    let mut vm = Chip8::new();
    vm.index_reg = 4095;
    put_word(&mut vm, 0x200, 0xF155);
    assert_eq!(step(&mut vm), Err(VmError::OutOfBoundsAccess(0xF155, 0x200)));
}

#[test]
fn timers_set_and_read_back() {
    let mut vm = Chip8::new();
    vm.registers[1] = 7;
    put_word(&mut vm, 0x200, 0xF115);
    run_one(&mut vm);
    assert_eq!(vm.delay_timer.count, 7);
    put_word(&mut vm, 0x202, 0xF207);
    run_one(&mut vm);
    assert_eq!(vm.registers[2], 7);
    vm.registers[3] = 9;
    put_word(&mut vm, 0x204, 0xF318);
    run_one(&mut vm);
    assert_eq!(vm.sound_timer.get_count(), 9);
}

#[test]
fn skip_if_key_consumes_only_a_match() {
    let mut vm = Chip8::new();
    vm.registers[1] = 0xA;
    put_word(&mut vm, 0x200, 0xE19E);
    assert_eq!(step(&mut vm), Ok(Some(0x202)));
    vm.keyboard.latch(0xB);
    assert_eq!(step(&mut vm), Ok(Some(0x202)));
    assert_eq!(vm.keyboard.get_last_key(), Some(0xB));
    vm.keyboard.latch(0xA);
    assert_eq!(step(&mut vm), Ok(Some(0x204)));
    assert_eq!(vm.keyboard.get_last_key(), None);
}

#[test]
fn skip_if_no_key_keeps_the_documented_asymmetry() {
    let mut vm = Chip8::new();
    vm.registers[1] = 0xA;
    put_word(&mut vm, 0x200, 0xE1A1);
    assert_eq!(step(&mut vm), Ok(Some(0x204)));
    vm.keyboard.latch(0xB);
    assert_eq!(step(&mut vm), Ok(Some(0x204)));
    assert_eq!(vm.keyboard.get_last_key(), Some(0xB));
    vm.keyboard.clear();
    vm.keyboard.latch(0xA);
    assert_eq!(step(&mut vm), Ok(Some(0x202)));
    assert_eq!(vm.keyboard.get_last_key(), None);
}

#[test]
fn wait_key_spins_until_a_key_arrives() {
    let mut vm = Chip8::new();
    put_word(&mut vm, 0x200, 0xF10A);
    assert_eq!(step(&mut vm), Ok(Some(0x200)));
    assert_eq!(step(&mut vm), Ok(Some(0x200)));
    vm.keyboard.latch(0xC);
    assert_eq!(step(&mut vm), Ok(None));
    assert_eq!(vm.registers[1], 0xC);
    assert_eq!(vm.keyboard.get_last_key(), None);
}

#[test]
fn font_glyph_zero_draws_its_pattern() {
    let mut vm = Chip8::new();
    vm.registers[0] = 0;
    put_word(&mut vm, 0x200, 0xF029);
    run_one(&mut vm);
    assert_eq!(vm.index_reg, 0);
    put_word(&mut vm, 0x202, 0xD005);
    run_one(&mut vm);
    assert_eq!(vm.registers[15], 0);
    let rows: [u8; 5] = [0xF0, 0x90, 0x90, 0x90, 0xF0];
    for y in 0..5u8 {
        for x in 0..8u8 {
            let expected = rows[y as usize] & (0x80 >> x) != 0;
            assert_eq!(vm.display.is_on(x, y), expected);
        }
    }
}

#[test]
fn clear_load_index_draw_program_offsets_the_glyph() {
    let mut vm = Chip8::new();
    let rom = vec![0x00u8, 0xE0, 0x60, 0x05, 0xA0, 0x00, 0xD0, 0x05];
    vm.load_rom(&rom);
    for _ in 0..4 {
        run_one(&mut vm);
    }
    assert_eq!(vm.registers[15], 0);
    let mut lit = 0;
    for y in 0..32u8 {
        for x in 0..64u8 {
            if vm.display.is_on(x, y) {
                lit += 1;
            }
        }
    }
    assert_eq!(lit, 14);
    let rows: [u8; 5] = [0xF0, 0x90, 0x90, 0x90, 0xF0];
    for y in 0..5u8 {
        for x in 0..8u8 {
            let expected = rows[y as usize] & (0x80 >> x) != 0;
            assert_eq!(vm.display.is_on(5 + x, 5 + y), expected);
        }
    }
}

#[test]
fn draw_reports_collision_and_second_draw_erases() {
    let mut vm = Chip8::new();
    vm.registers[0] = 0;
    vm.index_reg = 0;
    put_word(&mut vm, 0x200, 0xD005);
    run_one(&mut vm);
    assert_eq!(vm.registers[15], 0);
    put_word(&mut vm, 0x202, 0xD005);
    run_one(&mut vm);
    assert_eq!(vm.registers[15], 1);
    for y in 0..5u8 {
        for x in 0..8u8 {
            assert!(!vm.display.is_on(x, y));
        }
    }
}

#[test]
fn draw_clips_at_the_edges() {
    let mut vm = Chip8::new();
    vm.registers[0] = 62;
    vm.registers[1] = 30;
    vm.index_reg = 0;
    put_word(&mut vm, 0x200, 0xD015);
    run_one(&mut vm);
    assert_eq!(vm.registers[15], 0);
    assert!(vm.display.is_on(62, 30));
    assert!(vm.display.is_on(63, 30));
    assert!(vm.display.is_on(62, 31));
    assert!(!vm.display.is_on(0, 30));
    assert!(!vm.display.is_on(62, 0));
}

#[test]
fn fetch_past_memory_end_is_fatal() {
    let mut vm = Chip8::new();
    vm.pc = 4095;
    assert_eq!(step(&mut vm), Err(VmError::OutOfBoundsAccess(0, 4095)));
}

#[test]
fn execute_runs_against_clock_and_randomness() {
    let mut vm = Chip8::new();
    let rom = vec![0x60u8, 0x05];
    vm.load_rom(&rom);
    assert_eq!(vm.execute(), Ok(None));
    assert_eq!(vm.registers[0], 5);
}
