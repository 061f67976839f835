//! What the instructions do, as functions on the mathematical state.
use vstd::prelude::*;
use crate::fault::Fault;
use crate::font::GLYPH_BYTES;
use crate::instruction::{spec_decode, Instruction};
use crate::model::{
    blank_display,
    highest_pressed,
    overlay,
    wrap16,
    wrap8,
    MachineState,
    DISPLAY_SIZE,
    KEY_COUNT,
    MEMORY_SIZE,
    REGISTER_COUNT,
    STACK_SIZE,
};

verus! {

/// The instruction word at `pc`: the byte at `pc` is its high byte and the
/// byte after it its low byte. Both must lie in memory.
pub open spec fn fetch(memory: Seq<u8>, pc: u16) -> Result<u16, Fault> {
    if pc + 1 < memory.len() {
        Ok((memory[pc as int] * 0x100 + memory[pc + 1]) as u16)
    } else {
        Err(Fault::MemoryOutOfBounds)
    }
}

/// Whether a sprite row has its pixel in column `col` set. Column `0` is the
/// leftmost pixel of the row and the highest bit of the byte.
pub open spec fn sprite_bit(row: u8, col: u8) -> bool {
    row & (0x80u8 >> col) != 0
}

/// Whether the sprite of `rows` rows that starts at `index` in `memory`, drawn
/// with its top left corner at column `left` and row `top`, has a set pixel on
/// display position `p`.
///
/// A sprite is eight pixels wide. The part of it that would fall past the
/// right or the bottom edge of the display appears at the opposite edge.
pub open spec fn sprite_covers(
    memory: Seq<u8>,
    index: int,
    rows: int,
    left: int,
    top: int,
    p: int,
) -> bool {
    let col = (p % 64 - left) % 64;
    let row = (p / 64 - top) % 32;
    col < 8 && row < rows && sprite_bit(memory[index + row], col as u8)
}

/// The display after drawing a sprite on `display`: each pixel the sprite
/// covers is flipped.
pub open spec fn drawn(
    display: Seq<bool>,
    memory: Seq<u8>,
    index: int,
    rows: int,
    left: int,
    top: int,
) -> Seq<bool> {
    Seq::new(
        DISPLAY_SIZE as nat,
        |p: int| display[p] != sprite_covers(memory, index, rows, left, top, p),
    )
}

/// Whether drawing a sprite on `display` turns a lit pixel off.
pub open spec fn collides(
    display: Seq<bool>,
    memory: Seq<u8>,
    index: int,
    rows: int,
    left: int,
    top: int,
) -> bool {
    exists|p: int|
        0 <= p < DISPLAY_SIZE && display[p] && #[trigger] sprite_covers(
            memory,
            index,
            rows,
            left,
            top,
            p,
        )
}

impl MachineState {
    /// `00E0`.
    pub open spec fn clear_screen(self) -> MachineState {
        MachineState { display: blank_display(), ..self }.advance(2)
    }

    /// `00EE`: with no active call the stack underflows. Otherwise the
    /// program continues behind the call instruction whose address the
    /// newest frame holds, and that frame is given up.
    pub open spec fn ret(self) -> Result<MachineState, Fault> {
        if self.depth <= 0 {
            Err(Fault::StackUnderflow)
        } else {
            Ok(
                MachineState {
                    pc: wrap16(self.stack[self.depth - 1] + 2),
                    depth: self.depth - 1,
                    ..self
                },
            )
        }
    }

    /// `2nnn`: with sixteen active calls the stack overflows. Otherwise the
    /// address of the call instruction itself goes to a new frame and the
    /// program continues at `addr`.
    pub open spec fn call(self, addr: u16) -> Result<MachineState, Fault> {
        if self.depth >= STACK_SIZE {
            Err(Fault::StackOverflow)
        } else {
            Ok(
                MachineState {
                    stack: self.stack.update(self.depth, self.pc),
                    depth: self.depth + 1,
                    pc: addr,
                    ..self
                },
            )
        }
    }

    /// `8xy4`: the sum goes to `Vx` first and the carry to the flag register
    /// after it, so that the carry is what stays if `x` is the flag register.
    pub open spec fn add_carry(self, x: u8, y: u8) -> MachineState {
        let sum = self.reg(x) + self.reg(y);
        self.with_register(x, wrap8(sum)).with_flag(sum > 0xFF).advance(2)
    }

    /// `8xy5`: the difference goes to `Vx` first and "no borrow" to the flag
    /// register after it.
    pub open spec fn sub_borrow(self, x: u8, y: u8) -> MachineState {
        let a = self.reg(x);
        let b = self.reg(y);
        self.with_register(x, wrap8(a - b)).with_flag(!(a < b)).advance(2)
    }

    /// `8xy7`: the difference goes to `Vx` first and "no borrow" to the flag
    /// register after it.
    pub open spec fn reverse_sub(self, x: u8, y: u8) -> MachineState {
        let a = self.reg(x);
        let b = self.reg(y);
        self.with_register(x, wrap8(b - a)).with_flag(!(a > b)).advance(2)
    }

    /// `8xy6`: the low bit of `Vx` goes to the flag register first, and `Vx`
    /// is halved after it. With `x` the flag register itself, it is the flag
    /// that is halved.
    pub open spec fn shift_right(self, x: u8) -> MachineState {
        let flagged = self.with_flag(self.reg(x) % 2 == 1);
        flagged.with_register(x, flagged.reg(x) / 2).advance(2)
    }

    /// `8xyE`: the high bit of `Vx` goes to the flag register first, and
    /// `Vx` is doubled, modulo 256, after it. With `x` the flag register
    /// itself, it is the flag that is doubled.
    pub open spec fn shift_left(self, x: u8) -> MachineState {
        let flagged = self.with_flag(self.reg(x) >= 0x80);
        flagged.with_register(x, wrap8(flagged.reg(x) * 2)).advance(2)
    }

    /// `Dxyn`: the sprite rows must lie in memory. The sprite is drawn by
    /// flipping the pixels it covers; if that turns a lit pixel off the flag
    /// register becomes `1`, and else it keeps its value.
    pub open spec fn draw(self, x: u8, y: u8, rows: u8) -> Result<MachineState, Fault> {
        let left = self.reg(x) as int;
        let top = self.reg(y) as int;
        if rows > 0 && self.index + rows > MEMORY_SIZE {
            Err(Fault::MemoryOutOfBounds)
        } else {
            let index = self.index as int;
            let shown = MachineState {
                display: drawn(self.display, self.memory, index, rows as int, left, top),
                ..self
            };
            Ok(
                if collides(self.display, self.memory, index, rows as int, left, top) {
                    shown.with_flag(true).advance(2)
                } else {
                    shown.advance(2)
                },
            )
        }
    }

    /// `Ex9E` for `want_down`, `ExA1` for `!want_down`: `Vx` must name one of
    /// the sixteen keys. The next instruction is skipped if that key is down
    /// (`want_down`) or up (`!want_down`).
    pub open spec fn skip_on_key(self, x: u8, want_down: bool) -> Result<MachineState, Fault> {
        let key = self.reg(x);
        if key >= KEY_COUNT {
            Err(Fault::KeyOutOfRange)
        } else {
            Ok(self.skip_if(self.keypad[key as int] == want_down))
        }
    }

    /// `Fx0A`: while no key is down the state stays as it is, so that the
    /// instruction runs again on the next cycle. With a key down, its index
    /// goes to `Vx`; with several down, the greatest.
    pub open spec fn wait_key(self, x: u8) -> MachineState {
        let key = highest_pressed(self.keypad, KEY_COUNT as int);
        if key < 0 {
            self
        } else {
            self.with_register(x, key as u8).advance(2)
        }
    }

    /// `Fx33`: the hundreds, tens and ones of `Vx` go to `I`, `I + 1` and
    /// `I + 2`, which must lie in memory.
    pub open spec fn store_bcd(self, x: u8) -> Result<MachineState, Fault> {
        let n = self.reg(x);
        if self.index + 3 > MEMORY_SIZE {
            Err(Fault::MemoryOutOfBounds)
        } else {
            Ok(
                self.with_memory(
                    overlay(
                        self.memory,
                        self.index as int,
                        seq![n / 100, (n / 10) % 10, n % 10],
                    ),
                ).advance(2),
            )
        }
    }

    /// `Fx55`: `V0` to `Vx` go to `I` to `I + x`, which must lie in memory.
    pub open spec fn store_registers(self, x: u8) -> Result<MachineState, Fault> {
        if self.index + x + 1 > MEMORY_SIZE {
            Err(Fault::MemoryOutOfBounds)
        } else {
            Ok(
                self.with_memory(
                    overlay(self.memory, self.index as int, self.registers.take(x + 1)),
                ).advance(2),
            )
        }
    }

    /// `Fx65`: `V0` to `Vx` are read from `I` to `I + x`, which must lie in
    /// memory.
    pub open spec fn load_registers(self, x: u8) -> Result<MachineState, Fault> {
        if self.index + x + 1 > MEMORY_SIZE {
            Err(Fault::MemoryOutOfBounds)
        } else {
            Ok(
                MachineState {
                    registers: Seq::new(
                        REGISTER_COUNT as nat,
                        |r: int|
                            if r <= x {
                                self.memory[self.index + r]
                            } else {
                                self.registers[r]
                            },
                    ),
                    ..self
                }.advance(2),
            )
        }
    }

    /// The state after `instr`, or the fault that `instr` meets. `random` is
    /// the byte that the random-number instruction draws; no other
    /// instruction looks at it.
    pub open spec fn run(self, instr: Instruction, random: u8) -> Result<MachineState, Fault> {
        match instr {
            Instruction::ClearScreen => Ok(self.clear_screen()),
            Instruction::Return => self.ret(),
            Instruction::Jump { addr } => Ok(self.with_pc(addr)),
            Instruction::Call { addr } => self.call(addr),
            Instruction::SkipIfEqual { x, value } => Ok(self.skip_if(self.reg(x) == value)),
            Instruction::SkipIfNotEqual { x, value } => Ok(self.skip_if(self.reg(x) != value)),
            Instruction::SkipIfRegistersEqual { x, y } => Ok(
                self.skip_if(self.reg(x) == self.reg(y)),
            ),
            Instruction::LoadImmediate { x, value } => Ok(self.with_register(x, value).advance(2)),
            Instruction::AddImmediate { x, value } => Ok(
                self.with_register(x, wrap8(self.reg(x) + value)).advance(2),
            ),
            Instruction::Assign { x, y } => Ok(self.with_register(x, self.reg(y)).advance(2)),
            Instruction::Or { x, y } => Ok(
                self.with_register(x, self.reg(x) | self.reg(y)).advance(2),
            ),
            Instruction::And { x, y } => Ok(
                self.with_register(x, self.reg(x) & self.reg(y)).advance(2),
            ),
            Instruction::Xor { x, y } => Ok(
                self.with_register(x, self.reg(x) ^ self.reg(y)).advance(2),
            ),
            Instruction::AddCarry { x, y } => Ok(self.add_carry(x, y)),
            Instruction::SubBorrow { x, y } => Ok(self.sub_borrow(x, y)),
            Instruction::ShiftRight { x, .. } => Ok(self.shift_right(x)),
            Instruction::ReverseSub { x, y } => Ok(self.reverse_sub(x, y)),
            Instruction::ShiftLeft { x, .. } => Ok(self.shift_left(x)),
            Instruction::SkipIfRegistersNotEqual { x, y } => Ok(
                self.skip_if(self.reg(x) != self.reg(y)),
            ),
            Instruction::LoadIndex { addr } => Ok(self.with_index(addr).advance(2)),
            Instruction::JumpOffset { addr } => Ok(self.with_pc(wrap16(addr + self.reg(0)))),
            Instruction::Random { x, value } => Ok(
                self.with_register(x, value & random).advance(2),
            ),
            Instruction::Draw { x, y, rows } => self.draw(x, y, rows),
            Instruction::SkipIfKey { x } => self.skip_on_key(x, true),
            Instruction::SkipIfNotKey { x } => self.skip_on_key(x, false),
            Instruction::LoadDelay { x } => Ok(self.with_register(x, self.delay_timer).advance(2)),
            Instruction::WaitKey { x } => Ok(self.wait_key(x)),
            Instruction::StoreDelay { x } => Ok(
                MachineState { delay_timer: self.reg(x), ..self }.advance(2),
            ),
            Instruction::StoreSound { x } => Ok(
                MachineState { sound_timer: self.reg(x), ..self }.advance(2),
            ),
            Instruction::AddIndex { x } => Ok(
                self.with_index(wrap16(self.index + self.reg(x))).advance(2),
            ),
            Instruction::FontAddress { x } => Ok(
                self.with_index((self.reg(x) * GLYPH_BYTES) as u16).advance(2),
            ),
            Instruction::StoreBcd { x } => self.store_bcd(x),
            Instruction::StoreRegisters { x } => self.store_registers(x),
            Instruction::LoadRegisters { x } => self.load_registers(x),
        }
    }

    /// The state after executing the instruction word `word`, or the fault
    /// met: a word that encodes no instruction is itself a fault.
    pub open spec fn step(self, word: u16, random: u8) -> Result<MachineState, Fault> {
        match spec_decode(word) {
            Some(instr) => self.run(instr, random),
            None => Err(Fault::UnrecognizedOpcode { opcode: word }),
        }
    }

    /// The state after one whole cycle: fetch the word at the program
    /// counter, and execute it.
    pub open spec fn cycle(self, random: u8) -> Result<MachineState, Fault> {
        match fetch(self.memory, self.pc) {
            Ok(word) => self.step(word, random),
            Err(fault) => Err(fault),
        }
    }

    /// The state after one tick of the 60 Hz clock: each timer that is not
    /// zero goes down by one.
    pub open spec fn timers_ticked(self) -> MachineState {
        MachineState {
            delay_timer: if self.delay_timer > 0 {
                (self.delay_timer - 1) as u8
            } else {
                0
            },
            sound_timer: if self.sound_timer > 0 {
                (self.sound_timer - 1) as u8
            } else {
                0
            },
            ..self
        }
    }
}

/// Whether executing `word` draws a random byte.
pub open spec fn draws_random(word: u16) -> bool {
    spec_decode(word) matches Some(Instruction::Random { .. })
}

} // verus!
