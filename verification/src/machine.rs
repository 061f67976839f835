//! The executable machine.
use vstd::prelude::*;
use crate::display::draw_sprite;
use crate::fault::Fault;
use crate::font::{get_chip8_fontset, GLYPH_BYTES};
use crate::instruction::{decode, Instruction};
use crate::model::{
    highest_pressed,
    overlay,
    MachineState,
    FLAG_REGISTER,
    KEY_COUNT,
    MEMORY_SIZE,
    PROGRAM_START,
};
use crate::random::random_byte;
use crate::semantics::{draws_random, fetch};

verus! {

/// Copies the first `count` bytes of `source` into `memory` from `at` on.
fn write_bytes(memory: &mut [u8; 4096], at: usize, source: &[u8], count: usize)
    requires
        at + count <= 4096,
        count <= source@.len(),
    ensures
        final(memory)@ == overlay(old(memory)@, at as int, source@.take(count as int)),
{
    let mut i: usize = 0;
    while i < count
        invariant
            i <= count,
            at + count <= 4096,
            count <= source@.len(),
            memory@ == overlay(old(memory)@, at as int, source@.take(i as int)),
        decreases count - i,
    {
        memory[at + i] = source[i];
        i = i + 1;
    }
}

/// The greatest index of a key that is down, if any is.
fn highest_key(keypad: &[bool; 16]) -> (key: Option<u8>)
    ensures
        match key {
            Some(k) => k == highest_pressed(keypad@, 16),
            None => highest_pressed(keypad@, 16) == -1,
        },
{
    let mut key: Option<u8> = None;
    let mut i: u8 = 0;
    while i < 16
        invariant
            i <= 16,
            match key {
                Some(k) => k == highest_pressed(keypad@, i as int),
                None => highest_pressed(keypad@, i as int) == -1,
            },
        decreases 16 - i,
    {
        if keypad[i as usize] {
            key = Some(i);
        }
        i = i + 1;
    }
    key
}

/// Copies `count` bytes of `memory` from `at` on into the first `count`
/// registers.
fn read_registers(registers: &mut [u8; 16], memory: &[u8; 4096], at: usize, count: usize)
    requires
        at + count <= 4096,
        count <= 16,
    ensures
        final(registers)@ == Seq::new(
            16,
            |r: int|
                if r < count {
                    memory@[at + r]
                } else {
                    old(registers)@[r]
                },
        ),
{
    let mut i: usize = 0;
    while i < count
        invariant
            i <= count,
            at + count <= 4096,
            count <= 16,
            registers@ == Seq::new(
                16,
                |r: int|
                    if r < i {
                        memory@[at + r]
                    } else {
                        old(registers)@[r]
                    },
            ),
        decreases count - i,
    {
        registers[i] = memory[at + i];
        i = i + 1;
    }
}

/// A CHIP-8 machine.
///
/// The fields are the parts of the machine as a driver sees them. Its meaning
/// is the [`MachineState`] that [`View::view`] gives; everything that an
/// operation does is stated on that.
pub struct VirtualMachine {
    /// Main memory. The font occupies the first 80 bytes; a program starts at
    /// `0x200`.
    pub memory: [u8; 4096],
    /// The registers `V0` to `VF`.
    pub registers: [u8; 16],
    /// Index of the flag register in `registers`; always 15.
    pub vf: u8,
    /// The address register `I`.
    pub index_register: u16,
    /// Address of the instruction that runs next.
    pub program_counter: u16,
    /// The display, 64 by 32 pixels, row-major.
    pub video: [bool; 2048],
    /// The keys `0` to `F`; `true` is down.
    pub keypad: [bool; 16],
    /// The delay timer.
    pub delay_timer: u8,
    /// The sound timer; the buzzer sounds while it is not zero.
    pub sound_timer: u8,
    /// The slots of the call stack. Slot `0` holds the oldest frame.
    pub stack: [u16; 16],
    /// Index of the newest frame in `stack`, or `-1` if no call is active.
    pub stack_top: i8,
}

impl View for VirtualMachine {
    type V = MachineState;

    open spec fn view(&self) -> MachineState {
        MachineState {
            memory: self.memory@,
            registers: self.registers@,
            index: self.index_register,
            pc: self.program_counter,
            display: self.video@,
            keypad: self.keypad@,
            delay_timer: self.delay_timer,
            sound_timer: self.sound_timer,
            stack: self.stack@,
            depth: self.stack_top + 1,
        }
    }
}

/// Whether an operation that took the machine from `before` to `after` and
/// returned `res` did what `expected` prescribes: on `Ok`, the machine is in
/// the state given and the operation succeeded; on `Err`, the operation
/// returned that fault and left the machine untouched.
pub open spec fn yields(
    before: VirtualMachine,
    after: VirtualMachine,
    res: Result<(), Fault>,
    expected: Result<MachineState, Fault>,
) -> bool {
    match expected {
        Ok(next) => res is Ok && after@ =~= next,
        Err(fault) => res == Err::<(), Fault>(fault) && after == before,
    }
}

impl VirtualMachine {
    /// The invariant of the machine: the flag register is register 15, and
    /// the call stack holds between no and sixteen frames.
    pub open spec fn wf(&self) -> bool {
        &&& self.vf == FLAG_REGISTER
        &&& -1 <= self.stack_top <= 15
    }

    /// Tells whether the invariant holds.
    pub fn is_well_formed(&self) -> (ok: bool)
        ensures
            ok == self.wf(),
    {
        self.vf == FLAG_REGISTER && -1 <= self.stack_top && self.stack_top <= 15
    }

    /// A machine that was just switched on: the font in the first 80 bytes of
    /// memory, everything else zero, off or empty, and the program counter at
    /// the program start.
    pub fn new() -> (vm: VirtualMachine)
        ensures
            vm.wf(),
            vm@ == MachineState::initial(),
    {
        let mut vm = VirtualMachine {
            memory: [0; 4096],
            registers: [0; 16],
            vf: FLAG_REGISTER,
            index_register: 0,
            program_counter: PROGRAM_START,
            video: [false; 2048],
            keypad: [false; 16],
            delay_timer: 0,
            sound_timer: 0,
            stack: [0; 16],
            stack_top: -1,
        };
        vm.load_fonts(get_chip8_fontset());
        assert(vm@ =~= MachineState::initial());
        vm
    }

    /// Puts the machine back into the state of one that was just switched
    /// on, whatever state it was in.
    pub fn reset(&mut self)
        ensures
            final(self).wf(),
            final(self)@ == MachineState::initial(),
    {
        *self = VirtualMachine::new();
    }

    /// Writes the font into the first 80 bytes of memory. Nothing else
    /// changes.
    pub fn load_fonts(&mut self, font_set: [u8; 80])
        ensures
            final(self)@ == old(self)@.with_memory(overlay(old(self)@.memory, 0, font_set@)),
            final(self).vf == old(self).vf,
            old(self).wf() ==> final(self).wf(),
    {
        assert(font_set@.take(80) =~= font_set@);
        write_bytes(&mut self.memory, 0, &font_set, 80);
    }

    /// Writes a program into memory from the program start, `0x200`, on.
    /// Nothing else changes.
    ///
    /// The fault is `MemoryOutOfBounds`, and it comes exactly if the program
    /// is longer than the 3584 bytes from the program start to the end of
    /// memory; nothing is written in that case.
    pub fn load(&mut self, program: &[u8]) -> (res: Result<(), Fault>)
        ensures
            program@.len() <= MEMORY_SIZE - PROGRAM_START ==> res is Ok && final(self)@ == old(
                self,
            )@.with_memory(overlay(old(self)@.memory, PROGRAM_START as int, program@)),
            program@.len() > MEMORY_SIZE - PROGRAM_START ==> res == Err::<(), Fault>(
                Fault::MemoryOutOfBounds,
            ) && *final(self) == *old(self),
            final(self).vf == old(self).vf,
            old(self).wf() ==> final(self).wf(),
    {
        if program.len() > 4096 - 0x200 {
            return Err(Fault::MemoryOutOfBounds);
        }
        assert(program@.take(program@.len() as int) =~= program@);
        write_bytes(&mut self.memory, 0x200, program, program.len());
        Ok(())
    }

    /// One tick of the 60 Hz clock: each timer that is not zero goes down by
    /// one. Nothing else changes.
    pub fn tick_timers(&mut self)
        ensures
            final(self)@ == old(self)@.timers_ticked(),
            final(self).vf == old(self).vf,
            old(self).wf() ==> final(self).wf(),
    {
        if self.delay_timer > 0 {
            self.delay_timer = self.delay_timer - 1;
        }
        if self.sound_timer > 0 {
            self.sound_timer = self.sound_timer - 1;
        }
    }

    /// Records that key `key` is down (`pressed`) or up. Nothing else
    /// changes.
    ///
    /// The fault is `KeyOutOfRange`, and it comes exactly if `key` is not one
    /// of the sixteen keys `0` to `15`; nothing is recorded in that case.
    pub fn set_key(&mut self, key: u8, pressed: bool) -> (res: Result<(), Fault>)
        ensures
            key < KEY_COUNT ==> res is Ok && final(self)@ == (MachineState {
                keypad: old(self)@.keypad.update(key as int, pressed),
                ..old(self)@
            }),
            key >= KEY_COUNT ==> res == Err::<(), Fault>(Fault::KeyOutOfRange) && *final(self)
                == *old(self),
            final(self).vf == old(self).vf,
            old(self).wf() ==> final(self).wf(),
    {
        if key >= 16 {
            return Err(Fault::KeyOutOfRange);
        }
        self.keypad[key as usize] = pressed;
        Ok(())
    }

    /// Records the state of all sixteen keys at once. Nothing else changes.
    pub fn set_keys(&mut self, keys: [bool; 16])
        ensures
            final(self)@ == (MachineState { keypad: keys@, ..old(self)@ }),
            final(self).vf == old(self).vf,
            old(self).wf() ==> final(self).wf(),
    {
        self.keypad = keys;
    }

    /// Sets register `x`.
    fn put(&mut self, x: u8, value: u8)
        requires
            x < 16,
            old(self).wf(),
        ensures
            final(self).wf(),
            final(self)@ == old(self)@.with_register(x, value),
    {
        self.registers[x as usize] = value;
    }

    /// Sets the flag register to `1` or `0`.
    fn put_flag(&mut self, flag: bool)
        requires
            old(self).wf(),
        ensures
            final(self).wf(),
            final(self)@ == old(self)@.with_flag(flag),
    {
        self.registers[self.vf as usize] = if flag {
            1
        } else {
            0
        };
    }

    /// Moves the program counter forward.
    fn advance(&mut self, by: u16)
        requires
            old(self).wf(),
        ensures
            final(self).wf(),
            final(self)@ == old(self)@.advance(by as int),
    {
        self.program_counter = self.program_counter.wrapping_add(by);
    }

    /// Moves the program counter past this instruction, and past the next
    /// one too if `skip`.
    fn skip_if(&mut self, skip: bool)
        requires
            old(self).wf(),
        ensures
            final(self).wf(),
            final(self)@ == old(self)@.skip_if(skip),
    {
        if skip {
            self.advance(4);
        } else {
            self.advance(2);
        }
    }

    /// `00EE`: returns from the newest call.
    fn ret(&mut self) -> (res: Result<(), Fault>)
        requires
            old(self).wf(),
        ensures
            final(self).wf(),
            yields(*old(self), *final(self), res, old(self)@.ret()),
    {
        if self.stack_top < 0 {
            return Err(Fault::StackUnderflow);
        }
        let frame: u16 = self.stack[self.stack_top as usize];
        self.program_counter = frame.wrapping_add(2);
        self.stack_top = self.stack_top - 1;
        Ok(())
    }

    /// `2nnn`: calls the routine at `addr`.
    fn call(&mut self, addr: u16) -> (res: Result<(), Fault>)
        requires
            old(self).wf(),
        ensures
            final(self).wf(),
            yields(*old(self), *final(self), res, old(self)@.call(addr)),
    {
        if self.stack_top >= 15 {
            return Err(Fault::StackOverflow);
        }
        self.stack_top = self.stack_top + 1;
        self.stack[self.stack_top as usize] = self.program_counter;
        self.program_counter = addr;
        Ok(())
    }

    /// `8xy4`: adds `Vy` to `Vx` and flags the carry.
    fn add_carry(&mut self, x: u8, y: u8)
        requires
            old(self).wf(),
            x < 16,
            y < 16,
        ensures
            final(self).wf(),
            final(self)@ == old(self)@.add_carry(x, y),
    {
        let sum: u16 = self.registers[x as usize] as u16 + self.registers[y as usize] as u16;
        self.put(x, (sum % 0x100) as u8);
        self.put_flag(sum > 0xFF);
        self.advance(2);
    }

    /// `8xy5`: subtracts `Vy` from `Vx` and flags that no borrow was needed.
    fn sub_borrow(&mut self, x: u8, y: u8)
        requires
            old(self).wf(),
            x < 16,
            y < 16,
        ensures
            final(self).wf(),
            final(self)@ == old(self)@.sub_borrow(x, y),
    {
        let a: u8 = self.registers[x as usize];
        let b: u8 = self.registers[y as usize];
        self.put(x, a.wrapping_sub(b));
        self.put_flag(!(a < b));
        self.advance(2);
    }

    /// `8xy7`: puts `Vy - Vx` into `Vx` and flags that no borrow was needed.
    fn reverse_sub(&mut self, x: u8, y: u8)
        requires
            old(self).wf(),
            x < 16,
            y < 16,
        ensures
            final(self).wf(),
            final(self)@ == old(self)@.reverse_sub(x, y),
    {
        let a: u8 = self.registers[x as usize];
        let b: u8 = self.registers[y as usize];
        self.put(x, b.wrapping_sub(a));
        self.put_flag(!(a > b));
        self.advance(2);
    }

    /// `8xy6`: flags the low bit of `Vx` and halves `Vx`.
    fn shift_right(&mut self, x: u8)
        requires
            old(self).wf(),
            x < 16,
        ensures
            final(self).wf(),
            final(self)@ == old(self)@.shift_right(x),
    {
        let before: u8 = self.registers[x as usize];
        assert((before & 0x01 == 1) == (before % 2 == 1)) by (bit_vector);
        self.put_flag(before & 0x01 == 1);
        let now: u8 = self.registers[x as usize];
        assert(now >> 1 == now / 2) by (bit_vector);
        self.put(x, now >> 1);
        self.advance(2);
    }

    /// `8xyE`: flags the high bit of `Vx` and doubles `Vx`.
    fn shift_left(&mut self, x: u8)
        requires
            old(self).wf(),
            x < 16,
        ensures
            final(self).wf(),
            final(self)@ == old(self)@.shift_left(x),
    {
        let before: u8 = self.registers[x as usize];
        assert((before >> 7 == 1) == (before >= 0x80)) by (bit_vector);
        self.put_flag(before >> 7 == 1);
        let now: u8 = self.registers[x as usize];
        assert(now << 1 == (now * 2) % 0x100) by (bit_vector);
        self.put(x, now << 1);
        self.advance(2);
    }

    /// `Ex9E` and `ExA1`: skips the next instruction if key `Vx` is down
    /// (`want_down`) or up.
    fn skip_on_key(&mut self, x: u8, want_down: bool) -> (res: Result<(), Fault>)
        requires
            old(self).wf(),
            x < 16,
        ensures
            final(self).wf(),
            yields(*old(self), *final(self), res, old(self)@.skip_on_key(x, want_down)),
    {
        let key: u8 = self.registers[x as usize];
        if key >= 16 {
            return Err(Fault::KeyOutOfRange);
        }
        self.skip_if(self.keypad[key as usize] == want_down);
        Ok(())
    }

    /// `Fx0A`: takes the highest key that is down into `Vx`, or stays at this
    /// instruction while none is.
    fn wait_key(&mut self, x: u8)
        requires
            old(self).wf(),
            x < 16,
        ensures
            final(self).wf(),
            final(self)@ == old(self)@.wait_key(x),
    {
        match highest_key(&self.keypad) {
            Some(key) => {
                self.put(x, key);
                self.advance(2);
            },
            None => {},
        }
    }

    /// `Fx33`: writes the three decimal digits of `Vx` to memory at `I`.
    fn store_bcd(&mut self, x: u8) -> (res: Result<(), Fault>)
        requires
            old(self).wf(),
            x < 16,
        ensures
            final(self).wf(),
            yields(*old(self), *final(self), res, old(self)@.store_bcd(x)),
    {
        let at: usize = self.index_register as usize;
        if at + 3 > 4096 {
            return Err(Fault::MemoryOutOfBounds);
        }
        let n: u8 = self.registers[x as usize];
        let digits: [u8; 3] = [n / 100, (n / 10) % 10, n % 10];
        assert(digits@ =~= seq![n / 100, (n / 10) % 10, n % 10]);
        assert(digits@.take(3) =~= digits@);
        write_bytes(&mut self.memory, at, &digits, 3);
        self.advance(2);
        Ok(())
    }

    /// `Fx55`: writes `V0` to `Vx` to memory at `I`.
    fn store_registers(&mut self, x: u8) -> (res: Result<(), Fault>)
        requires
            old(self).wf(),
            x < 16,
        ensures
            final(self).wf(),
            yields(*old(self), *final(self), res, old(self)@.store_registers(x)),
    {
        let at: usize = self.index_register as usize;
        let count: usize = x as usize + 1;
        if at + count > 4096 {
            return Err(Fault::MemoryOutOfBounds);
        }
        write_bytes(&mut self.memory, at, &self.registers, count);
        self.advance(2);
        Ok(())
    }

    /// `Fx65`: reads `V0` to `Vx` from memory at `I`.
    fn load_registers(&mut self, x: u8) -> (res: Result<(), Fault>)
        requires
            old(self).wf(),
            x < 16,
        ensures
            final(self).wf(),
            yields(*old(self), *final(self), res, old(self)@.load_registers(x)),
    {
        let at: usize = self.index_register as usize;
        let count: usize = x as usize + 1;
        if at + count > 4096 {
            return Err(Fault::MemoryOutOfBounds);
        }
        read_registers(&mut self.registers, &self.memory, at, count);
        self.advance(2);
        Ok(())
    }

    /// `Dxyn`: draws the sprite at `I` at column `Vx`, row `Vy`, and flags a
    /// collision.
    fn draw(&mut self, x: u8, y: u8, rows: u8) -> (res: Result<(), Fault>)
        requires
            old(self).wf(),
            x < 16,
            y < 16,
            rows < 16,
        ensures
            final(self).wf(),
            yields(*old(self), *final(self), res, old(self)@.draw(x, y, rows)),
    {
        if rows > 0 && self.index_register as usize + rows as usize > 4096 {
            return Err(Fault::MemoryOutOfBounds);
        }
        let left: u8 = self.registers[x as usize];
        let top: u8 = self.registers[y as usize];
        let hit: bool = draw_sprite(
            &mut self.video,
            &self.memory,
            self.index_register,
            rows,
            left,
            top,
        );
        if hit {
            self.put_flag(true);
        }
        self.advance(2);
        Ok(())
    }

    /// Executes `instr`, with `random` for the byte that the random-number
    /// instruction draws.
    #[verifier::rlimit(40)]
    fn execute(&mut self, instr: Instruction, random: u8) -> (res: Result<(), Fault>)
        requires
            old(self).wf(),
            instr.wf(),
        ensures
            final(self).wf(),
            yields(*old(self), *final(self), res, old(self)@.run(instr, random)),
    {
        match instr {
            Instruction::ClearScreen => {
                self.video = [false; 2048];
                self.advance(2);
                Ok(())
            },
            Instruction::Return => self.ret(),
            Instruction::Jump { addr } => {
                self.program_counter = addr;
                Ok(())
            },
            Instruction::Call { addr } => self.call(addr),
            Instruction::SkipIfEqual { x, value } => {
                self.skip_if(self.registers[x as usize] == value);
                Ok(())
            },
            Instruction::SkipIfNotEqual { x, value } => {
                self.skip_if(self.registers[x as usize] != value);
                Ok(())
            },
            Instruction::SkipIfRegistersEqual { x, y } => {
                self.skip_if(self.registers[x as usize] == self.registers[y as usize]);
                Ok(())
            },
            Instruction::LoadImmediate { x, value } => {
                self.put(x, value);
                self.advance(2);
                Ok(())
            },
            Instruction::AddImmediate { x, value } => {
                self.put(x, self.registers[x as usize].wrapping_add(value));
                self.advance(2);
                Ok(())
            },
            Instruction::Assign { x, y } => {
                self.put(x, self.registers[y as usize]);
                self.advance(2);
                Ok(())
            },
            Instruction::Or { x, y } => {
                self.put(x, self.registers[x as usize] | self.registers[y as usize]);
                self.advance(2);
                Ok(())
            },
            Instruction::And { x, y } => {
                self.put(x, self.registers[x as usize] & self.registers[y as usize]);
                self.advance(2);
                Ok(())
            },
            Instruction::Xor { x, y } => {
                self.put(x, self.registers[x as usize] ^ self.registers[y as usize]);
                self.advance(2);
                Ok(())
            },
            Instruction::AddCarry { x, y } => {
                self.add_carry(x, y);
                Ok(())
            },
            Instruction::SubBorrow { x, y } => {
                self.sub_borrow(x, y);
                Ok(())
            },
            Instruction::ShiftRight { x, .. } => {
                self.shift_right(x);
                Ok(())
            },
            Instruction::ReverseSub { x, y } => {
                self.reverse_sub(x, y);
                Ok(())
            },
            Instruction::ShiftLeft { x, .. } => {
                self.shift_left(x);
                Ok(())
            },
            Instruction::SkipIfRegistersNotEqual { x, y } => {
                self.skip_if(self.registers[x as usize] != self.registers[y as usize]);
                Ok(())
            },
            Instruction::LoadIndex { addr } => {
                self.index_register = addr;
                self.advance(2);
                Ok(())
            },
            Instruction::JumpOffset { addr } => {
                self.program_counter = addr.wrapping_add(self.registers[0] as u16);
                Ok(())
            },
            Instruction::Random { x, value } => {
                self.put(x, value & random);
                self.advance(2);
                Ok(())
            },
            Instruction::Draw { x, y, rows } => self.draw(x, y, rows),
            Instruction::SkipIfKey { x } => self.skip_on_key(x, true),
            Instruction::SkipIfNotKey { x } => self.skip_on_key(x, false),
            Instruction::LoadDelay { x } => {
                self.put(x, self.delay_timer);
                self.advance(2);
                Ok(())
            },
            Instruction::WaitKey { x } => {
                self.wait_key(x);
                Ok(())
            },
            Instruction::StoreDelay { x } => {
                self.delay_timer = self.registers[x as usize];
                self.advance(2);
                Ok(())
            },
            Instruction::StoreSound { x } => {
                self.sound_timer = self.registers[x as usize];
                self.advance(2);
                Ok(())
            },
            Instruction::AddIndex { x } => {
                self.index_register = self.index_register.wrapping_add(
                    self.registers[x as usize] as u16,
                );
                self.advance(2);
                Ok(())
            },
            Instruction::FontAddress { x } => {
                self.index_register = self.registers[x as usize] as u16 * GLYPH_BYTES;
                self.advance(2);
                Ok(())
            },
            Instruction::StoreBcd { x } => self.store_bcd(x),
            Instruction::StoreRegisters { x } => self.store_registers(x),
            Instruction::LoadRegisters { x } => self.load_registers(x),
        }
    }

    /// Executes the instruction word `opcode`, with `random` for the byte that
    /// the random-number instruction `Cxnn` draws.
    ///
    /// The machine goes to the state that [`MachineState::step`] gives. If
    /// that is a fault, the fault is returned and the machine is left as it
    /// was.
    pub fn execute_op_with(&mut self, opcode: u16, random: u8) -> (res: Result<(), Fault>)
        requires
            old(self).wf(),
        ensures
            final(self).wf(),
            yields(*old(self), *final(self), res, old(self)@.step(opcode, random)),
    {
        match decode(opcode) {
            Some(instr) => self.execute(instr, random),
            None => Err(Fault::UnrecognizedOpcode { opcode }),
        }
    }

    /// Executes the instruction word `opcode`.
    ///
    /// For every word but `Cxnn` this is [`Self::execute_op_with`], whatever
    /// the byte. For `Cxnn` a random byte is drawn, and the machine goes to
    /// the state that [`Self::execute_op_with`] reaches with some byte.
    pub fn execute_op(&mut self, opcode: u16) -> (res: Result<(), Fault>)
        requires
            old(self).wf(),
        ensures
            final(self).wf(),
            exists|random: u8|
                yields(
                    *old(self),
                    *final(self),
                    res,
                    #[trigger] old(self)@.step(opcode, random),
                ),
            !draws_random(opcode) ==> yields(
                *old(self),
                *final(self),
                res,
                old(self)@.step(opcode, 0),
            ),
            res is Err ==> *final(self) == *old(self),
    {
        let random: u8 = if is_random(opcode) {
            random_byte()
        } else {
            0
        };
        self.execute_op_with(opcode, random)
    }

    /// Runs one cycle: fetches the instruction word at the program counter
    /// and executes it.
    ///
    /// The machine goes to the state that [`MachineState::cycle`] gives, with
    /// a random byte where the instruction draws one. A fault is returned
    /// with the machine left as it was.
    pub fn tick(&mut self) -> (res: Result<(), Fault>)
        requires
            old(self).wf(),
        ensures
            final(self).wf(),
            exists|random: u8|
                yields(*old(self), *final(self), res, #[trigger] old(self)@.cycle(random)),
            !(fetch(old(self)@.memory, old(self)@.pc) matches Ok(word) && draws_random(word))
                ==> yields(*old(self), *final(self), res, old(self)@.cycle(0)),
            res is Err ==> *final(self) == *old(self),
    {
        match fetch_instruction(self.memory, self.program_counter) {
            Ok(opcode) => {
                let res = self.execute_op(opcode);
                proof {
                    let random = choose|random: u8|
                        yields(
                            *old(self),
                            *self,
                            res,
                            #[trigger] old(self)@.step(opcode, random),
                        );
                    assert(old(self)@.cycle(random) == old(self)@.step(opcode, random));
                    assert(old(self)@.cycle(0) == old(self)@.step(opcode, 0));
                }
                res
            },
            Err(fault) => {
                assert(old(self)@.cycle(0) == Err::<MachineState, Fault>(fault));
                Err(fault)
            },
        }
    }
}

/// Whether executing `opcode` draws a random byte: whether it is `Cxnn`.
fn is_random(opcode: u16) -> (yes: bool)
    ensures
        yes == draws_random(opcode),
{
    assert(opcode >> 12 == opcode / 0x1000) by (bit_vector);
    opcode >> 12 == 0xC
}

/// Reads the instruction word at `program_counter`: the byte there is the
/// high byte of the word, the byte after it the low byte.
///
/// The fault is `MemoryOutOfBounds`, and it comes exactly if one of the two
/// bytes would lie past the end of memory.
pub fn fetch_instruction(memory: [u8; 4096], program_counter: u16) -> (res: Result<u16, Fault>)
    ensures
        res == fetch(memory@, program_counter),
{
    if program_counter >= 4095 {
        return Err(Fault::MemoryOutOfBounds);
    }
    let high: u8 = memory[program_counter as usize];
    let low: u8 = memory[program_counter as usize + 1];
    assert(((high as u16) << 8) | (low as u16) == high * 0x100 + low) by (bit_vector);
    let opcode: u16 = ((high as u16) << 8) | (low as u16);
    Ok(opcode)
}

/// Runs one cycle of `vm`, as [`VirtualMachine::tick`] does.
pub fn cpu_cycle(vm: &mut VirtualMachine) -> (res: Result<(), Fault>)
    requires
        old(vm).wf(),
    ensures
        final(vm).wf(),
        exists|random: u8| yields(*old(vm), *final(vm), res, #[trigger] old(vm)@.cycle(random)),
        !(fetch(old(vm)@.memory, old(vm)@.pc) matches Ok(word) && draws_random(word)) ==> yields(
            *old(vm),
            *final(vm),
            res,
            old(vm)@.cycle(0),
        ),
        res is Err ==> *final(vm) == *old(vm),
{
    vm.tick()
}

/// The display of `vm`, 64 by 32 pixels in row-major order.
pub fn get_graphics(vm: &VirtualMachine) -> (video: &[bool; 2048])
    ensures
        video@ == vm@.display,
{
    &vm.video
}

/// The memory of `vm`.
pub fn get_memory(vm: &VirtualMachine) -> (memory: &[u8; 4096])
    ensures
        memory@ == vm@.memory,
{
    &vm.memory
}

/// The registers `V0` to `VF` of `vm`.
pub fn get_registers(vm: &VirtualMachine) -> (registers: &[u8; 16])
    ensures
        registers@ == vm@.registers,
{
    &vm.registers
}

/// The keys of `vm`; `true` is down.
pub fn get_inputs(vm: &VirtualMachine) -> (keypad: &[bool; 16])
    ensures
        keypad@ == vm@.keypad,
{
    &vm.keypad
}

/// The delay timer of `vm`.
pub fn get_delay_timer(vm: &VirtualMachine) -> (timer: u8)
    ensures
        timer == vm@.delay_timer,
{
    vm.delay_timer
}

/// The sound timer of `vm`. The buzzer is to sound while it is not zero.
pub fn get_sound_timer(vm: &VirtualMachine) -> (timer: u8)
    ensures
        timer == vm@.sound_timer,
{
    vm.sound_timer
}

} // verus!
