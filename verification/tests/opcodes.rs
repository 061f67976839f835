use chip8::VirtualMachine;

fn create_test_chip() -> VirtualMachine {
    VirtualMachine {
        memory: [0; 4096],
        registers: [0; 16],
        index_register: 0,
        vf: 15,
        // Programs start at memory location of 0x200.
        program_counter: 0x200,
        // Blank screen at the start.
        video: [false; 64 * 32],
        keypad: [false; 16],
        delay_timer: 0,
        sound_timer: 0,
        // Empty Stack.
        stack: [0; 16],
        stack_top: -1,
    }
}

#[test]
fn clear_screen() {
    let mut test_chip: VirtualMachine = create_test_chip();
    test_chip.video = [true; 64 * 32];
    test_chip.execute_op(0x00E0).unwrap();
    assert!(!test_chip.video.contains(&true), "Video buffer wasn't cleared.");
    assert_eq!(test_chip.program_counter, 0x200 + 2, "Testing if program_counter was incremented.");
}

#[test]
fn return_from_function() {
    let mut test_chip: VirtualMachine = create_test_chip();
    test_chip.stack[5] = 0x5000;
    test_chip.stack_top = 5;
    test_chip.execute_op(0x00EE).unwrap();
    assert_eq!(test_chip.program_counter, 0x5000 + 2, "Testing program counter-{} equals to {}", test_chip.program_counter, 0x5000 + 2);
    assert_eq!(test_chip.stack_top, 4, "Testing tack top counter-{} equals to {}", test_chip.stack_top, 4);
}

#[test]
fn jump() {
    let mut test_chip: VirtualMachine = create_test_chip();
    test_chip.execute_op(0x19AB).unwrap();
    assert_eq!(test_chip.program_counter, 0x9AB, "Testing program_counter {} equals {}", test_chip.program_counter, 0x9AB);
}

#[test]
fn call_subroutine() {
    let mut test_chip: VirtualMachine = create_test_chip();
    test_chip.program_counter = 0x500;
    test_chip.stack_top = 3;
    test_chip.execute_op(0x2187).unwrap();
    assert_eq!(test_chip.program_counter, 0x187, "Testing program_counter {} equals {}", test_chip.program_counter, 0x187);
    assert_eq!(test_chip.stack[test_chip.stack_top as usize], 0x500, "Testing stack top counter {} equals {}", test_chip.stack[test_chip.stack_top as usize], 0x500);

}

#[test]
fn skip_instr_eq() {
    let mut test_chip: VirtualMachine = create_test_chip();
    test_chip.program_counter = 0x500;
    // Skipping
    test_chip.registers[0xB as usize] = 0x78;
    test_chip.execute_op(0x3B78).unwrap();
    assert_eq!(test_chip.program_counter, 0x500 + 4);

    // Not skipping
    test_chip.registers[0x5 as usize] = 0x67;
    test_chip.execute_op(0x3576).unwrap();
    assert_eq!(test_chip.program_counter, 0x500 + 4 + 2);
}

#[test]
fn skip_instr_neq() {
    let mut test_chip: VirtualMachine = create_test_chip();
    test_chip.program_counter = 0x500;
    // Not skipping
    test_chip.registers[0xB as usize] = 0x78;
    test_chip.execute_op(0x4B78).unwrap();
    assert_eq!(test_chip.program_counter, 0x500 + 2);

    // Skipping
    test_chip.registers[0x5 as usize] = 0x67;
    test_chip.execute_op(0x4576).unwrap();
    assert_eq!(test_chip.program_counter, 0x500 + 4 + 2);
}

#[test]
fn skip_instr_reg_eq() {
    let mut test_chip: VirtualMachine = create_test_chip();
    test_chip.program_counter = 0x500;
    // Skipping
    test_chip.registers[0xB as usize] = 0x78;
    test_chip.registers[0x5 as usize] = 0x78;
    test_chip.execute_op(0x5B50).unwrap();
    assert_eq!(test_chip.program_counter, 0x500 + 4);

    // Not skipping
    test_chip.registers[0xC as usize] = 0x67;
    test_chip.registers[0x6 as usize] = 0x66;
    test_chip.execute_op(0x5C60).unwrap();
    assert_eq!(test_chip.program_counter, 0x500 + 4 + 2);
}

#[test]
fn set_register() {
    let mut test_chip: VirtualMachine = create_test_chip();
    test_chip.program_counter = 0x500;
    test_chip.execute_op(0x6A57).unwrap();
    assert_eq!(test_chip.program_counter, 0x500 + 2);
    assert_eq!(test_chip.registers[0xA as usize], 0x57);
}

#[test]
fn add_register() {
    let mut test_chip: VirtualMachine = create_test_chip();
    test_chip.program_counter = 0x500;
    test_chip.registers[0x4 as usize] = 0x99;
    test_chip.execute_op(0x7478).unwrap();
    assert_eq!(test_chip.program_counter, 0x500 + 2);
    assert_eq!(test_chip.registers[0x4 as usize], ((0x99 + 0x78) & 0xFF) as u8);
    assert_eq!(test_chip.registers[0xF as usize], 0x0);
}

#[test]
fn assign_registers() {
    let mut test_chip: VirtualMachine = create_test_chip();
    test_chip.program_counter = 0x500;
    test_chip.registers[0x7 as usize] = 0x45;
    test_chip.registers[0x8 as usize] = 0x5E;
    test_chip.execute_op(0x8780).unwrap();
    assert_eq!(test_chip.program_counter, 0x500 + 2);
    assert_eq!(test_chip.registers[0x7 as usize], 0x5E);
}

#[test]
fn or_registers() {
    let mut test_chip: VirtualMachine = create_test_chip();
    test_chip.program_counter = 0x500;
    test_chip.registers[0x7 as usize] = 0x45;
    test_chip.registers[0x8 as usize] = 0x5E;
    test_chip.execute_op(0x8781).unwrap();
    assert_eq!(test_chip.program_counter, 0x500 + 2);
    assert_eq!(test_chip.registers[0x7 as usize], 0x45 | 0x5E);
}

#[test]
fn and_registers() {
    let mut test_chip: VirtualMachine = create_test_chip();
    test_chip.program_counter = 0x500;
    test_chip.registers[0x7 as usize] = 0x45;
    test_chip.registers[0x8 as usize] = 0x5E;
    test_chip.execute_op(0x8782).unwrap();
    assert_eq!(test_chip.program_counter, 0x500 + 2);
    assert_eq!(test_chip.registers[0x7 as usize], 0x45 & 0x5E);
}

#[test]
fn xor_registers() {
    let mut test_chip: VirtualMachine = create_test_chip();
    test_chip.program_counter = 0x500;
    test_chip.registers[0x7 as usize] = 0x45;
    test_chip.registers[0x8 as usize] = 0x5E;
    test_chip.execute_op(0x8783).unwrap();
    assert_eq!(test_chip.program_counter, 0x500 + 2);
    assert_eq!(test_chip.registers[0x7 as usize], 0x45 ^ 0x5E);
}

#[test]
fn add_registers() {
    let mut test_chip: VirtualMachine = create_test_chip();
    test_chip.program_counter = 0x500;
    // Carry Flag is set
    test_chip.registers[0x7 as usize] = 0xF4;
    test_chip.registers[0x8 as usize] = 0xFF;
    test_chip.execute_op(0x8784).unwrap();
    assert_eq!(test_chip.program_counter, 0x500 + 2);
    assert_eq!(test_chip.registers[0x7 as usize], (0xF4 + 0xFF) as u8);
    assert_eq!(test_chip.registers[0xF as usize], 0x1);
    // Carry Flag is unset
     test_chip.registers[0x2 as usize] = 0x15;
    test_chip.registers[0x3 as usize] = 0x15;
    test_chip.execute_op(0x8234).unwrap();
    assert_eq!(test_chip.program_counter, 0x500 + 4);
    assert_eq!(test_chip.registers[0x2 as usize], (0x15 + 0x15) as u8);
    assert_eq!(test_chip.registers[0xF as usize], 0x0);
}

#[test]
fn sub_registers() {
    let mut test_chip: VirtualMachine = create_test_chip();
    test_chip.program_counter = 0x500;
    // Carry Flag is unset in case of borrow.
    test_chip.registers[0x7 as usize] = 0xF4;
    test_chip.registers[0x8 as usize] = 0xFF;
    test_chip.execute_op(0x8785).unwrap();
    assert_eq!(test_chip.program_counter, 0x500 + 2);
    assert_eq!(test_chip.registers[0x7 as usize], (0xF4 - 0xFF) as u8);
    assert_eq!(test_chip.registers[0xF as usize], 0x0);
    // Carry Flag is set in case of no borrow
     test_chip.registers[0x2 as usize] = 0x15;
    test_chip.registers[0x3 as usize] = 0x11;
    test_chip.execute_op(0x8235).unwrap();
    assert_eq!(test_chip.program_counter, 0x500 + 4);
    assert_eq!(test_chip.registers[0x2 as usize], (0x15 - 0x11) as u8);
    assert_eq!(test_chip.registers[0xF as usize], 0x1);
}

#[test]
fn right_shift_register() {
    let mut test_chip: VirtualMachine = create_test_chip();
    test_chip.program_counter = 0x500;
    test_chip.registers[0x8 as usize] = 0xFE;
    test_chip.registers[0xF as usize] = 0x1;
    test_chip.execute_op(0x8846).unwrap();
    assert_eq!(test_chip.program_counter, 0x500 + 2);
    assert_eq!(test_chip.registers[0x8 as usize], (0xFE >> 1) as u8);
    assert_eq!(test_chip.registers[0xF as usize], 0x0);
}

#[test]
fn sub_reverse_register() {
    let mut test_chip: VirtualMachine = create_test_chip();
    test_chip.program_counter = 0x500;
    // Carry Flag is set in case of borrow.
    test_chip.registers[0x7 as usize] = 0xF4;
    test_chip.registers[0x8 as usize] = 0xFF;
    test_chip.execute_op(0x8787).unwrap();
    assert_eq!(test_chip.program_counter, 0x500 + 2);
    assert_eq!(test_chip.registers[0x7 as usize], (0xFF - 0xF4) as u8);
    assert_eq!(test_chip.registers[0xF as usize], 0x01);
    // Carry Flag is set in case of no borrow
     test_chip.registers[0x2 as usize] = 0x15;
    test_chip.registers[0x3 as usize] = 0x11;
    test_chip.execute_op(0x8237).unwrap();
    assert_eq!(test_chip.program_counter, 0x500 + 4);
    assert_eq!(test_chip.registers[0x2 as usize], (0x11 - 0x15) as u8);
    assert_eq!(test_chip.registers[0xF as usize], 0x0);
}

#[test]
fn left_shift_register() {
    let mut test_chip: VirtualMachine = create_test_chip();
    test_chip.program_counter = 0x500;
    test_chip.registers[0x8 as usize] = 0xFE;
    test_chip.registers[0xF as usize] = 0x0;
    test_chip.execute_op(0x884E).unwrap();
    assert_eq!(test_chip.program_counter, 0x500 + 2);
    assert_eq!(test_chip.registers[0x8 as usize], (0xFE << 1) as u8);
    assert_eq!(test_chip.registers[0xF as usize], 0x1);
}
