//! The mathematical machine state.
//!
//! The state is a record of sequences and integers. Instructions are stated as
//! functions from one such record to the next, built from the handful of
//! transformers defined here.
use vstd::arithmetic::div_mod::{
    lemma_fundamental_div_mod,
    lemma_fundamental_div_mod_converse,
    lemma_mod_multiples_vanish,
    lemma_small_mod,
};
use vstd::prelude::*;
use crate::font::font_data;

verus! {

/// Number of bytes of memory.
pub const MEMORY_SIZE: usize = 4096;

/// Address at which a program is loaded and at which execution starts.
pub const PROGRAM_START: u16 = 0x200;

/// Number of general-purpose registers.
pub const REGISTER_COUNT: usize = 16;

/// Index of the register that instructions overwrite with a carry, borrow or
/// collision flag.
pub const FLAG_REGISTER: u8 = 0xF;

/// Number of return addresses the call stack can hold.
pub const STACK_SIZE: usize = 16;

/// Number of keys on the pad.
pub const KEY_COUNT: usize = 16;

/// Number of pixels in a display row.
pub const DISPLAY_WIDTH: usize = 64;

/// Number of display rows.
pub const DISPLAY_HEIGHT: usize = 32;

/// Number of pixels of the display.
pub const DISPLAY_SIZE: usize = 2048;

/// The value an 8-bit register takes when asked to hold `n`: `n` modulo 256.
pub open spec fn wrap8(n: int) -> u8 {
    (n % 0x100) as u8
}

/// The value a 16-bit register takes when asked to hold `n`: `n` modulo 65536.
pub open spec fn wrap16(n: int) -> u16 {
    (n % 0x1_0000) as u16
}

/// `base` with the bytes of `patch` written over it from position `at` on.
/// Positions of `base` that `patch` does not reach keep their byte.
pub open spec fn overlay(base: Seq<u8>, at: int, patch: Seq<u8>) -> Seq<u8> {
    Seq::new(
        base.len(),
        |i: int|
            if at <= i < at + patch.len() {
                patch[i - at]
            } else {
                base[i]
            },
    )
}

/// A sequence of `len` zero bytes.
pub open spec fn zeros(len: nat) -> Seq<u8> {
    Seq::new(len, |i: int| 0u8)
}

/// A display with every pixel off.
pub open spec fn blank_display() -> Seq<bool> {
    Seq::new(DISPLAY_SIZE as nat, |i: int| false)
}

/// Position in the display buffer of the pixel in column `x` of row `y`. The
/// buffer is row-major. Coordinates past an edge wrap around to the opposite
/// edge.
pub open spec fn pixel_index(x: int, y: int) -> int {
    (x % 64) + (y % 32) * 64
}

/// A column index `q` is `offset` columns right of `origin`, wrapping at the
/// width of the display, exactly if `offset` is what leads from `origin` to
/// `q` modulo the width.
proof fn lemma_wrapped_column(origin: int, offset: int, q: int)
    requires
        0 <= offset < 64,
        0 <= q < 64,
    ensures
        0 <= (origin + offset) % 64 < 64,
        q == (origin + offset) % 64 <==> (q - origin) % 64 == offset,
{
    let x = (origin + offset) % 64;
    let k = (origin + offset) / 64;
    lemma_fundamental_div_mod(origin + offset, 64);
    assert(x - origin == 64 * (-k) + offset);
    lemma_mod_multiples_vanish(-k, offset, 64);
    lemma_small_mod(offset as nat, 64);
    assert((x - origin) % 64 == offset);
    if (q - origin) % 64 == offset {
        let j = (q - origin) / 64;
        lemma_fundamental_div_mod(q - origin, 64);
        assert(origin + offset == 64 * (-j) + q);
        lemma_mod_multiples_vanish(-j, q, 64);
        lemma_small_mod(q as nat, 64);
    }
}

/// A row index `q` is `offset` rows below `origin`, wrapping at the height
/// of the display, exactly if `offset` is what leads from `origin` to `q`
/// modulo the height.
proof fn lemma_wrapped_row(origin: int, offset: int, q: int)
    requires
        0 <= offset < 32,
        0 <= q < 32,
    ensures
        0 <= (origin + offset) % 32 < 32,
        q == (origin + offset) % 32 <==> (q - origin) % 32 == offset,
{
    let y = (origin + offset) % 32;
    let k = (origin + offset) / 32;
    lemma_fundamental_div_mod(origin + offset, 32);
    assert(y - origin == 32 * (-k) + offset);
    lemma_mod_multiples_vanish(-k, offset, 32);
    lemma_small_mod(offset as nat, 32);
    assert((y - origin) % 32 == offset);
    if (q - origin) % 32 == offset {
        let j = (q - origin) / 32;
        lemma_fundamental_div_mod(q - origin, 32);
        assert(origin + offset == 32 * (-j) + q);
        lemma_mod_multiples_vanish(-j, q, 32);
        lemma_small_mod(q as nat, 32);
    }
}

/// The pixel `col` columns right of column `left` and `row` rows below row
/// `top` has one position in the display buffer, and `p` is that position
/// exactly if `col` and `row` lead from `left` and `top` to the column and
/// the row of `p`, modulo the width and the height of the display.
pub proof fn lemma_pixel_index(left: int, top: int, col: int, row: int, p: int)
    requires
        0 <= col < 64,
        0 <= row < 32,
        0 <= p < 2048,
    ensures
        0 <= pixel_index(left + col, top + row) < 2048,
        p == pixel_index(left + col, top + row) <==> (p % 64 - left) % 64 == col && (p / 64 - top)
            % 32 == row,
{
    let x = (left + col) % 64;
    let y = (top + row) % 32;
    lemma_fundamental_div_mod(p, 64);
    assert(0 <= p % 64 < 64 && 0 <= p / 64 < 32);
    lemma_wrapped_column(left, col, p % 64);
    lemma_wrapped_row(top, row, p / 64);
    lemma_fundamental_div_mod_converse(pixel_index(left + col, top + row), 64, y, x);
}

/// The greatest key index below `limit` whose key is down, or `-1` when no key
/// below `limit` is down.
pub open spec fn highest_pressed(keypad: Seq<bool>, limit: int) -> int
    decreases limit,
{
    if limit <= 0 {
        -1
    } else if keypad[limit - 1] {
        limit - 1
    } else {
        highest_pressed(keypad, limit - 1)
    }
}

/// What `highest_pressed` finds: a key that is down with no key down above
/// it, or `-1` exactly if no key below `limit` is down.
pub proof fn lemma_highest_pressed(keypad: Seq<bool>, limit: int)
    requires
        0 <= limit,
    ensures
        -1 <= highest_pressed(keypad, limit) < limit,
        highest_pressed(keypad, limit) >= 0 ==> keypad[highest_pressed(keypad, limit)],
        forall|k: int| highest_pressed(keypad, limit) < k < limit ==> !keypad[k],
    decreases limit,
{
    if limit > 0 && !keypad[limit - 1] {
        lemma_highest_pressed(keypad, limit - 1);
    }
}

/// The whole state of the machine.
#[verifier::ext_equal]
pub struct MachineState {
    /// Main memory, 4096 bytes.
    pub memory: Seq<u8>,
    /// The registers `V0` to `VF`.
    pub registers: Seq<u8>,
    /// The address register `I`.
    pub index: u16,
    /// The program counter.
    pub pc: u16,
    /// The display, 64 by 32 pixels, row-major: pixel `(x, y)` is at
    /// `x + 64 * y`.
    pub display: Seq<bool>,
    /// The keys `0` to `F`; `true` is down.
    pub keypad: Seq<bool>,
    /// The delay timer.
    pub delay_timer: u8,
    /// The sound timer. The buzzer sounds while it is not zero.
    pub sound_timer: u8,
    /// The sixteen slots of the call stack. The slots below `depth` hold the
    /// return addresses of the active calls, oldest first.
    pub stack: Seq<u16>,
    /// Number of active calls.
    pub depth: int,
}

impl MachineState {
    /// The shape every machine state has: the sizes of its parts, and a call
    /// depth of at most sixteen.
    pub open spec fn wf(self) -> bool {
        &&& self.memory.len() == MEMORY_SIZE
        &&& self.registers.len() == REGISTER_COUNT
        &&& self.display.len() == DISPLAY_SIZE
        &&& self.keypad.len() == KEY_COUNT
        &&& self.stack.len() == STACK_SIZE
        &&& 0 <= self.depth <= STACK_SIZE
    }

    /// The state of a machine that was just reset: the font in the first 80
    /// bytes of memory, everything else zero, off or empty, and the program
    /// counter at the program start.
    pub open spec fn initial() -> MachineState {
        MachineState {
            memory: overlay(zeros(MEMORY_SIZE as nat), 0, font_data()),
            registers: zeros(REGISTER_COUNT as nat),
            index: 0,
            pc: PROGRAM_START,
            display: blank_display(),
            keypad: Seq::new(KEY_COUNT as nat, |i: int| false),
            delay_timer: 0,
            sound_timer: 0,
            stack: Seq::new(STACK_SIZE as nat, |i: int| 0u16),
            depth: 0,
        }
    }

    /// The return addresses of the active calls, oldest first.
    pub open spec fn frames(self) -> Seq<u16> {
        self.stack.take(self.depth)
    }

    /// Register `x`.
    pub open spec fn reg(self, x: u8) -> u8 {
        self.registers[x as int]
    }

    /// This state with register `x` holding `value`.
    pub open spec fn with_register(self, x: u8, value: u8) -> MachineState {
        MachineState { registers: self.registers.update(x as int, value), ..self }
    }

    /// This state with the flag register holding `1` if `flag`, else `0`.
    pub open spec fn with_flag(self, flag: bool) -> MachineState {
        self.with_register(
            FLAG_REGISTER,
            if flag {
                1u8
            } else {
                0u8
            },
        )
    }

    /// This state with the address register holding `index`.
    pub open spec fn with_index(self, index: u16) -> MachineState {
        MachineState { index, ..self }
    }

    /// This state with the program counter at `pc`.
    pub open spec fn with_pc(self, pc: u16) -> MachineState {
        MachineState { pc, ..self }
    }

    /// This state with `memory` for its memory.
    pub open spec fn with_memory(self, memory: Seq<u8>) -> MachineState {
        MachineState { memory, ..self }
    }

    /// This state with the program counter moved forward by `by` bytes. The
    /// counter is a 16-bit register and wraps at 65536.
    pub open spec fn advance(self, by: int) -> MachineState {
        self.with_pc(wrap16(self.pc + by))
    }

    /// This state after an instruction that skips the next one if `skip`: the
    /// program counter moves forward by 4 if `skip`, by 2 otherwise.
    pub open spec fn skip_if(self, skip: bool) -> MachineState {
        self.advance(
            if skip {
                4
            } else {
                2
            },
        )
    }
}

} // verus!
