use chip8::{Fault, VirtualMachine};

fn machine_at(pc: u16) -> VirtualMachine {
    let mut vm = VirtualMachine::new();
    vm.program_counter = pc;
    vm
}

#[test]
fn every_unrecognized_opcode_is_a_fault_that_changes_nothing() {
    for opcode in [0x0000u16, 0x00E1, 0x5001, 0x8008, 0x9001, 0xE000, 0xF0FF] {
        let mut vm = machine_at(0x300);
        vm.registers[1] = 7;
        assert_eq!(vm.execute_op(opcode), Err(Fault::UnrecognizedOpcode { opcode }));
        assert_eq!(vm.program_counter, 0x300);
        assert_eq!(vm.registers[1], 7);
        assert_eq!(vm.stack_top, -1);
    }
}

#[test]
fn return_without_call_underflows() {
    let mut vm = machine_at(0x300);
    assert_eq!(vm.execute_op(0x00EE), Err(Fault::StackUnderflow));
    assert_eq!(vm.program_counter, 0x300);
    assert_eq!(vm.stack_top, -1);
}

#[test]
fn seventeenth_call_overflows() {
    let mut vm = machine_at(0x300);
    for depth in 0..16 {
        assert_eq!(vm.execute_op(0x2400), Ok(()));
        assert_eq!(vm.stack_top, depth);
    }
    assert_eq!(vm.stack[0], 0x300);
    assert_eq!(vm.stack[15], 0x400);
    let stack = vm.stack;
    assert_eq!(vm.execute_op(0x2500), Err(Fault::StackOverflow));
    assert_eq!(vm.stack_top, 15);
    assert_eq!(vm.program_counter, 0x400);
    assert_eq!(vm.stack, stack);
}

#[test]
fn call_and_return_come_back_behind_the_call() {
    let mut vm = machine_at(0x2F0);
    vm.execute_op(0x2ABC).unwrap();
    assert_eq!(vm.program_counter, 0xABC);
    assert_eq!(vm.stack_top, 0);
    assert_eq!(vm.stack[0], 0x2F0);
    vm.execute_op(0x00EE).unwrap();
    assert_eq!(vm.program_counter, 0x2F0 + 2);
    assert_eq!(vm.stack_top, -1);
}

#[test]
fn nested_calls_return_in_reverse_order() {
    let mut vm = machine_at(0x200);
    vm.execute_op(0x2300).unwrap();
    vm.execute_op(0x2400).unwrap();
    assert_eq!(vm.stack_top, 1);
    vm.execute_op(0x00EE).unwrap();
    assert_eq!(vm.program_counter, 0x302);
    vm.execute_op(0x00EE).unwrap();
    assert_eq!(vm.program_counter, 0x202);
    assert_eq!(vm.stack_top, -1);
}

#[test]
fn jump_is_absolute() {
    for target in [0x000u16, 0x200, 0xFFF] {
        let mut vm = machine_at(0x456);
        vm.execute_op(0x1000 | target).unwrap();
        assert_eq!(vm.program_counter, target);
    }
}

#[test]
fn jump_with_offset_adds_v0() {
    let mut vm = machine_at(0x200);
    vm.registers[0] = 0x10;
    vm.execute_op(0xB300).unwrap();
    assert_eq!(vm.program_counter, 0x310);
    vm.registers[0] = 0xFF;
    vm.execute_op(0xBFFF).unwrap();
    assert_eq!(vm.program_counter, 0x10FE);
}

#[test]
fn skip_if_registers_not_equal() {
    let mut vm = machine_at(0x500);
    vm.registers[1] = 3;
    vm.registers[2] = 4;
    vm.execute_op(0x9120).unwrap();
    assert_eq!(vm.program_counter, 0x504);
    vm.registers[2] = 3;
    vm.execute_op(0x9120).unwrap();
    assert_eq!(vm.program_counter, 0x506);
}

#[test]
fn skips_move_by_four_or_by_two() {
    for (opcode, vx, vy, skips) in [
        (0x3A42u16, 0x42u8, 0u8, true),
        (0x3A42, 0x43, 0, false),
        (0x4A42, 0x42, 0, false),
        (0x4A42, 0x43, 0, true),
        (0x5AB0, 9, 9, true),
        (0x5AB0, 9, 8, false),
        (0x9AB0, 9, 9, false),
        (0x9AB0, 9, 8, true),
    ] {
        let mut vm = machine_at(0x600);
        vm.registers[0xA] = vx;
        vm.registers[0xB] = vy;
        let registers = vm.registers;
        vm.execute_op(opcode).unwrap();
        let expected: u16 = if skips { 0x604 } else { 0x602 };
        assert_eq!(vm.program_counter, expected);
        assert_eq!(vm.registers, registers);
    }
}

#[test]
fn add_immediate_wraps_and_leaves_the_flag() {
    let mut vm = machine_at(0x200);
    vm.registers[3] = 0xFF;
    vm.registers[0xF] = 0x5A;
    vm.execute_op(0x7302).unwrap();
    assert_eq!(vm.registers[3], 0x01);
    assert_eq!(vm.registers[0xF], 0x5A);
    assert_eq!(vm.program_counter, 0x202);
}

#[test]
fn add_with_carry_for_all_bytes() {
    for a in 0..=255u8 {
        for b in 0..=255u8 {
            let mut vm = machine_at(0x200);
            vm.registers[1] = a;
            vm.registers[2] = b;
            vm.execute_op(0x8124).unwrap();
            let sum: u16 = a as u16 + b as u16;
            assert_eq!(vm.registers[1], (sum % 256) as u8);
            assert_eq!(vm.registers[0xF] == 1, sum > 255);
            assert!(vm.registers[0xF] <= 1);
            assert_eq!(vm.registers[2], b);
        }
    }
}

#[test]
fn sub_with_borrow_for_all_bytes() {
    for a in 0..=255u8 {
        for b in 0..=255u8 {
            let mut vm = machine_at(0x200);
            vm.registers[1] = a;
            vm.registers[2] = b;
            vm.execute_op(0x8125).unwrap();
            assert_eq!(vm.registers[1], a.wrapping_sub(b));
            assert_eq!(vm.registers[0xF] == 0, a < b);
            assert!(vm.registers[0xF] <= 1);
        }
    }
}

#[test]
fn reverse_sub_for_all_bytes() {
    for a in 0..=255u8 {
        for b in 0..=255u8 {
            let mut vm = machine_at(0x200);
            vm.registers[1] = a;
            vm.registers[2] = b;
            vm.execute_op(0x8127).unwrap();
            assert_eq!(vm.registers[1], b.wrapping_sub(a));
            assert_eq!(vm.registers[0xF] == 0, a > b);
        }
    }
}

#[test]
fn shifts_for_all_bytes() {
    for a in 0..=255u8 {
        let mut vm = machine_at(0x200);
        vm.registers[4] = a;
        vm.execute_op(0x8406).unwrap();
        assert_eq!(vm.registers[4], a / 2);
        assert_eq!(vm.registers[0xF], a % 2);
        let mut vm = machine_at(0x200);
        vm.registers[4] = a;
        vm.execute_op(0x840E).unwrap();
        assert_eq!(vm.registers[4], ((a as u16 * 2) % 256) as u8);
        assert_eq!(vm.registers[0xF], a / 128);
        assert_eq!(vm.program_counter, 0x202);
    }
}

#[test]
fn arithmetic_into_the_flag_register_keeps_the_flag() {
    let mut vm = machine_at(0x200);
    vm.registers[0xF] = 200;
    vm.registers[1] = 100;
    vm.execute_op(0x8F14).unwrap();
    assert_eq!(vm.registers[0xF], 1);
    vm.registers[0xF] = 3;
    vm.execute_op(0x8F15).unwrap();
    assert_eq!(vm.registers[0xF], 0);
}

#[test]
fn shift_of_the_flag_register_shifts_the_flag() {
    let mut vm = machine_at(0x200);
    vm.registers[0xF] = 0x03;
    vm.execute_op(0x8F06).unwrap();
    assert_eq!(vm.registers[0xF], 0);
    vm.registers[0xF] = 0x81;
    vm.execute_op(0x8F0E).unwrap();
    assert_eq!(vm.registers[0xF], 2);
}

#[test]
fn load_index_and_add_to_index() {
    let mut vm = machine_at(0x200);
    vm.execute_op(0xAFFF).unwrap();
    assert_eq!(vm.index_register, 0xFFF);
    vm.registers[2] = 0x10;
    vm.execute_op(0xF21E).unwrap();
    assert_eq!(vm.index_register, 0x100F);
    assert_eq!(vm.registers[0xF], 0);
    assert_eq!(vm.program_counter, 0x204);
    vm.index_register = 0xFFFF;
    vm.registers[2] = 2;
    vm.execute_op(0xF21E).unwrap();
    assert_eq!(vm.index_register, 1);
}

#[test]
fn font_address_is_five_times_the_digit() {
    let mut vm = machine_at(0x200);
    for digit in 0..16u8 {
        vm.registers[5] = digit;
        vm.execute_op(0xF529).unwrap();
        assert_eq!(vm.index_register, digit as u16 * 5);
    }
    vm.registers[5] = 0xA;
    vm.execute_op(0xF529).unwrap();
    assert_eq!(vm.index_register, 50);
    assert_eq!(&vm.memory[50..55], &[0xF0, 0x90, 0xF0, 0x90, 0x90]);
    vm.registers[5] = 255;
    vm.execute_op(0xF529).unwrap();
    assert_eq!(vm.index_register, 1275);
}

#[test]
fn timers_are_read_and_written() {
    let mut vm = machine_at(0x200);
    vm.delay_timer = 0x33;
    vm.execute_op(0xF207).unwrap();
    assert_eq!(vm.registers[2], 0x33);
    assert_eq!(vm.delay_timer, 0x33);
    vm.registers[4] = 0x44;
    vm.execute_op(0xF415).unwrap();
    assert_eq!(vm.delay_timer, 0x44);
    assert_eq!(vm.sound_timer, 0);
    vm.registers[6] = 0x66;
    vm.execute_op(0xF618).unwrap();
    assert_eq!(vm.sound_timer, 0x66);
    assert_eq!(vm.delay_timer, 0x44);
    assert_eq!(vm.program_counter, 0x206);
}

#[test]
fn bcd_of_254() {
    let mut vm = machine_at(0x200);
    vm.registers[7] = 254;
    vm.index_register = 0x300;
    vm.execute_op(0xF733).unwrap();
    assert_eq!(&vm.memory[0x300..0x303], &[2, 5, 4]);
    assert_eq!(vm.memory[0x2FF], 0);
    assert_eq!(vm.memory[0x303], 0);
    assert_eq!(vm.index_register, 0x300);
    assert_eq!(vm.program_counter, 0x202);
}

#[test]
fn bcd_of_small_numbers() {
    let mut vm = machine_at(0x200);
    vm.index_register = 4093;
    vm.registers[7] = 7;
    vm.execute_op(0xF733).unwrap();
    assert_eq!(&vm.memory[4093..4096], &[0, 0, 7]);
    vm.registers[7] = 90;
    vm.execute_op(0xF733).unwrap();
    assert_eq!(&vm.memory[4093..4096], &[0, 9, 0]);
}

#[test]
fn bcd_past_the_end_of_memory_faults() {
    let mut vm = machine_at(0x200);
    vm.registers[7] = 123;
    vm.index_register = 4094;
    let memory = vm.memory;
    assert_eq!(vm.execute_op(0xF733), Err(Fault::MemoryOutOfBounds));
    assert_eq!(vm.memory, memory);
    assert_eq!(vm.program_counter, 0x200);
}

#[test]
fn store_registers_writes_v0_to_vx() {
    let mut vm = machine_at(0x200);
    for r in 0..16u8 {
        vm.registers[r as usize] = 0x10 + r;
    }
    vm.index_register = 0x400;
    vm.execute_op(0xF355).unwrap();
    assert_eq!(&vm.memory[0x400..0x404], &[0x10, 0x11, 0x12, 0x13]);
    assert_eq!(vm.memory[0x404], 0);
    assert_eq!(vm.index_register, 0x400);
    assert_eq!(vm.program_counter, 0x202);
}

#[test]
fn load_registers_reads_v0_to_vx() {
    let mut vm = machine_at(0x200);
    vm.memory[0x400..0x404].copy_from_slice(&[9, 8, 7, 6]);
    vm.registers = [0xEE; 16];
    vm.index_register = 0x400;
    vm.execute_op(0xF265).unwrap();
    assert_eq!(&vm.registers[..3], &[9, 8, 7]);
    assert!(vm.registers[3..].iter().all(|v| *v == 0xEE));
    assert_eq!(vm.index_register, 0x400);
}

#[test]
fn dump_and_load_round_trip() {
    for x in 0..16u16 {
        let mut vm = machine_at(0x200);
        for r in 0..16u8 {
            vm.registers[r as usize] = 0xA0 + r;
        }
        let registers = vm.registers;
        vm.index_register = 0x500;
        vm.execute_op(0xF055 | (x << 8)).unwrap();
        vm.registers = [0; 16];
        vm.execute_op(0xF065 | (x << 8)).unwrap();
        assert_eq!(&vm.registers[..=x as usize], &registers[..=x as usize]);
        assert!(vm.registers[x as usize + 1..].iter().all(|v| *v == 0));
    }
}

#[test]
fn dump_and_load_at_the_end_of_memory() {
    let mut vm = machine_at(0x200);
    vm.registers[0] = 1;
    vm.registers[1] = 2;
    vm.index_register = 4094;
    assert_eq!(vm.execute_op(0xF155), Ok(()));
    assert_eq!(&vm.memory[4094..], &[1, 2]);
    assert_eq!(vm.execute_op(0xF255), Err(Fault::MemoryOutOfBounds));
    assert_eq!(vm.execute_op(0xF265), Err(Fault::MemoryOutOfBounds));
    assert_eq!(vm.execute_op(0xF165), Ok(()));
    vm.index_register = 0xFFFF;
    assert_eq!(vm.execute_op(0xF055), Err(Fault::MemoryOutOfBounds));
    assert_eq!(vm.execute_op(0xF065), Err(Fault::MemoryOutOfBounds));
}

#[test]
fn key_skips() {
    let mut vm = machine_at(0x200);
    vm.registers[1] = 0xC;
    vm.execute_op(0xE19E).unwrap();
    assert_eq!(vm.program_counter, 0x202);
    vm.execute_op(0xE1A1).unwrap();
    assert_eq!(vm.program_counter, 0x206);
    vm.set_key(0xC, true).unwrap();
    vm.execute_op(0xE19E).unwrap();
    assert_eq!(vm.program_counter, 0x20A);
    vm.execute_op(0xE1A1).unwrap();
    assert_eq!(vm.program_counter, 0x20C);
}

#[test]
fn key_skip_on_a_key_that_does_not_exist_faults() {
    let mut vm = machine_at(0x200);
    vm.registers[1] = 16;
    assert_eq!(vm.execute_op(0xE19E), Err(Fault::KeyOutOfRange));
    assert_eq!(vm.execute_op(0xE1A1), Err(Fault::KeyOutOfRange));
    assert_eq!(vm.program_counter, 0x200);
}

#[test]
fn wait_for_key_blocks_until_a_key_is_down() {
    let mut vm = machine_at(0x200);
    vm.registers[4] = 0x77;
    for _ in 0..3 {
        vm.execute_op(0xF40A).unwrap();
        assert_eq!(vm.program_counter, 0x200);
        assert_eq!(vm.registers[4], 0x77);
    }
    vm.set_key(9, true).unwrap();
    vm.execute_op(0xF40A).unwrap();
    assert_eq!(vm.program_counter, 0x202);
    assert_eq!(vm.registers[4], 9);
}

#[test]
fn wait_for_key_takes_the_highest_key_down() {
    let mut vm = machine_at(0x200);
    vm.set_key(3, true).unwrap();
    vm.set_key(7, true).unwrap();
    vm.set_key(0, true).unwrap();
    vm.execute_op(0xF10A).unwrap();
    assert_eq!(vm.registers[1], 7);
    vm.set_key(15, true).unwrap();
    vm.execute_op(0xF10A).unwrap();
    assert_eq!(vm.registers[1], 15);
}

#[test]
fn wait_for_key_through_tick_runs_the_same_instruction_again() {
    let mut vm = VirtualMachine::new();
    vm.load(&[0xF0, 0x0A, 0x61, 0x01]).unwrap();
    vm.tick().unwrap();
    vm.tick().unwrap();
    assert_eq!(vm.program_counter, 0x200);
    vm.set_key(0, true).unwrap();
    vm.tick().unwrap();
    assert_eq!(vm.program_counter, 0x202);
    assert_eq!(vm.registers[0], 0);
    vm.tick().unwrap();
    assert_eq!(vm.registers[1], 1);
}

#[test]
fn program_counter_wraps_at_16_bits() {
    let mut vm = machine_at(0xFFFE);
    vm.execute_op(0x6000).unwrap();
    assert_eq!(vm.program_counter, 0x0000);
    let mut vm = machine_at(0xFFFD);
    vm.registers[0] = 1;
    vm.execute_op(0x3001).unwrap();
    assert_eq!(vm.program_counter, 0x0001);
}

#[test]
fn given_random_byte_is_masked() {
    let mut vm = machine_at(0x200);
    vm.execute_op_with(0xC23C, 0xF0).unwrap();
    assert_eq!(vm.registers[2], 0x30);
    assert_eq!(vm.program_counter, 0x202);
    vm.execute_op_with(0xC2FF, 0xA5).unwrap();
    assert_eq!(vm.registers[2], 0xA5);
    vm.execute_op_with(0xC200, 0xFF).unwrap();
    assert_eq!(vm.registers[2], 0x00);
}

#[test]
fn given_random_byte_is_ignored_by_other_instructions() {
    let mut a = machine_at(0x200);
    let mut b = machine_at(0x200);
    a.execute_op_with(0x6A57, 0x00).unwrap();
    b.execute_op_with(0x6A57, 0xFF).unwrap();
    assert_eq!(a.registers, b.registers);
    assert_eq!(a.program_counter, b.program_counter);
}

#[test]
fn drawn_random_byte_is_masked() {
    for _ in 0..64 {
        let mut vm = machine_at(0x200);
        vm.registers[2] = 0xFF;
        vm.execute_op(0xC20F).unwrap();
        assert!(vm.registers[2] <= 0x0F);
        assert_eq!(vm.program_counter, 0x202);
        vm.execute_op(0xC200).unwrap();
        assert_eq!(vm.registers[2], 0);
    }
}

#[test]
fn drawn_random_bytes_are_not_all_the_same() {
    let mut vm = machine_at(0x200);
    let mut seen_nonzero: bool = false;
    let mut first: Option<u8> = None;
    let mut varied: bool = false;
    for _ in 0..256 {
        vm.execute_op(0xC1FF).unwrap();
        let byte: u8 = vm.registers[1];
        if byte != 0 {
            seen_nonzero = true;
        }
        match first {
            None => first = Some(byte),
            Some(f) => {
                if f != byte {
                    varied = true;
                }
            }
        }
    }
    assert!(seen_nonzero);
    assert!(varied);
}
