//! The instruction set: decoded instructions, their encoding, and the decoder.
use vstd::prelude::*;

verus! {

/// One instruction of the machine, with its operands taken apart.
///
/// `x` and `y` name registers, `value` is an 8-bit immediate, `addr` a 12-bit
/// address and `rows` a 4-bit sprite height.
#[derive(Clone, Copy, Debug, PartialEq, Eq, Structural)]
pub enum Instruction {
    /// `00E0`: turn every pixel off.
    ClearScreen,
    /// `00EE`: return from the active call.
    Return,
    /// `1nnn`: continue at `addr`.
    Jump { addr: u16 },
    /// `2nnn`: call the routine at `addr`.
    Call { addr: u16 },
    /// `3xnn`: skip the next instruction if `Vx == value`.
    SkipIfEqual { x: u8, value: u8 },
    /// `4xnn`: skip the next instruction if `Vx != value`.
    SkipIfNotEqual { x: u8, value: u8 },
    /// `5xy0`: skip the next instruction if `Vx == Vy`.
    SkipIfRegistersEqual { x: u8, y: u8 },
    /// `6xnn`: `Vx = value`.
    LoadImmediate { x: u8, value: u8 },
    /// `7xnn`: `Vx = Vx + value`, modulo 256; the flag register is left alone.
    AddImmediate { x: u8, value: u8 },
    /// `8xy0`: `Vx = Vy`.
    Assign { x: u8, y: u8 },
    /// `8xy1`: `Vx = Vx | Vy`.
    Or { x: u8, y: u8 },
    /// `8xy2`: `Vx = Vx & Vy`.
    And { x: u8, y: u8 },
    /// `8xy3`: `Vx = Vx ^ Vy`.
    Xor { x: u8, y: u8 },
    /// `8xy4`: `Vx = Vx + Vy`, modulo 256; the flag register tells whether the
    /// sum passed 255.
    AddCarry { x: u8, y: u8 },
    /// `8xy5`: `Vx = Vx - Vy`, modulo 256; the flag register is `0` if a borrow
    /// was needed, else `1`.
    SubBorrow { x: u8, y: u8 },
    /// `8xy6`: the flag register takes the low bit of `Vx`, and `Vx` is halved.
    /// `y` is encoded in the instruction word and otherwise unused.
    ShiftRight { x: u8, y: u8 },
    /// `8xy7`: `Vx = Vy - Vx`, modulo 256; the flag register is `0` if a borrow
    /// was needed, else `1`.
    ReverseSub { x: u8, y: u8 },
    /// `8xyE`: the flag register takes the high bit of `Vx`, and `Vx` is
    /// doubled, modulo 256. `y` is encoded in the instruction word and
    /// otherwise unused.
    ShiftLeft { x: u8, y: u8 },
    /// `9xy0`: skip the next instruction if `Vx != Vy`.
    SkipIfRegistersNotEqual { x: u8, y: u8 },
    /// `Annn`: `I = addr`.
    LoadIndex { addr: u16 },
    /// `Bnnn`: continue at `addr + V0`.
    JumpOffset { addr: u16 },
    /// `Cxnn`: `Vx = value & r` for a random byte `r`.
    Random { x: u8, value: u8 },
    /// `Dxyn`: draw the sprite of `rows` rows found at `I` at column `Vx`, row
    /// `Vy` of the display, by flipping the pixels it covers. A sprite that
    /// passes the right or the bottom edge goes on at the opposite edge.
    Draw { x: u8, y: u8, rows: u8 },
    /// `Ex9E`: skip the next instruction if key `Vx` is down.
    SkipIfKey { x: u8 },
    /// `ExA1`: skip the next instruction if key `Vx` is up.
    SkipIfNotKey { x: u8 },
    /// `Fx07`: `Vx = delay timer`.
    LoadDelay { x: u8 },
    /// `Fx0A`: wait for a key and put its index in `Vx`.
    WaitKey { x: u8 },
    /// `Fx15`: `delay timer = Vx`.
    StoreDelay { x: u8 },
    /// `Fx18`: `sound timer = Vx`.
    StoreSound { x: u8 },
    /// `Fx1E`: `I = I + Vx`, modulo 65536.
    AddIndex { x: u8 },
    /// `Fx29`: `I =` address of the font glyph for the digit in `Vx`.
    FontAddress { x: u8 },
    /// `Fx33`: write the three decimal digits of `Vx` to memory at `I`.
    StoreBcd { x: u8 },
    /// `Fx55`: write `V0` to `Vx` to memory at `I`.
    StoreRegisters { x: u8 },
    /// `Fx65`: read `V0` to `Vx` from memory at `I`.
    LoadRegisters { x: u8 },
}

/// The two-register instruction word `f x y n`, from its four nibbles' worth
/// of parts: `base` gives the first and the last nibble.
pub open spec fn word_xy(base: int, x: u8, y: u8) -> int {
    base + x * 0x100 + y * 0x10
}

/// The one-register instruction word `f x nn`, where `base` gives the first
/// nibble and `low` the low byte.
pub open spec fn word_x(base: int, x: u8, low: int) -> int {
    base + x * 0x100 + low
}

impl Instruction {
    /// Whether every operand fits its field in the instruction word: register
    /// numbers and sprite heights in four bits, addresses in twelve.
    pub open spec fn wf(self) -> bool {
        match self {
            Instruction::ClearScreen | Instruction::Return => true,
            Instruction::Jump { addr }
            | Instruction::Call { addr }
            | Instruction::LoadIndex { addr }
            | Instruction::JumpOffset { addr } => addr < 0x1000,
            Instruction::SkipIfEqual { x, .. }
            | Instruction::SkipIfNotEqual { x, .. }
            | Instruction::LoadImmediate { x, .. }
            | Instruction::AddImmediate { x, .. }
            | Instruction::Random { x, .. }
            | Instruction::SkipIfKey { x }
            | Instruction::SkipIfNotKey { x }
            | Instruction::LoadDelay { x }
            | Instruction::WaitKey { x }
            | Instruction::StoreDelay { x }
            | Instruction::StoreSound { x }
            | Instruction::AddIndex { x }
            | Instruction::FontAddress { x }
            | Instruction::StoreBcd { x }
            | Instruction::StoreRegisters { x }
            | Instruction::LoadRegisters { x } => x < 16,
            Instruction::SkipIfRegistersEqual { x, y }
            | Instruction::Assign { x, y }
            | Instruction::Or { x, y }
            | Instruction::And { x, y }
            | Instruction::Xor { x, y }
            | Instruction::AddCarry { x, y }
            | Instruction::SubBorrow { x, y }
            | Instruction::ShiftRight { x, y }
            | Instruction::ReverseSub { x, y }
            | Instruction::ShiftLeft { x, y }
            | Instruction::SkipIfRegistersNotEqual { x, y } => x < 16 && y < 16,
            Instruction::Draw { x, y, rows } => x < 16 && y < 16 && rows < 16,
        }
    }

    /// The instruction word that stands for this instruction.
    pub open spec fn encode(self) -> int {
        match self {
            Instruction::ClearScreen => 0x00E0,
            Instruction::Return => 0x00EE,
            Instruction::Jump { addr } => 0x1000 + addr,
            Instruction::Call { addr } => 0x2000 + addr,
            Instruction::SkipIfEqual { x, value } => word_x(0x3000, x, value as int),
            Instruction::SkipIfNotEqual { x, value } => word_x(0x4000, x, value as int),
            Instruction::SkipIfRegistersEqual { x, y } => word_xy(0x5000, x, y),
            Instruction::LoadImmediate { x, value } => word_x(0x6000, x, value as int),
            Instruction::AddImmediate { x, value } => word_x(0x7000, x, value as int),
            Instruction::Assign { x, y } => word_xy(0x8000, x, y),
            Instruction::Or { x, y } => word_xy(0x8001, x, y),
            Instruction::And { x, y } => word_xy(0x8002, x, y),
            Instruction::Xor { x, y } => word_xy(0x8003, x, y),
            Instruction::AddCarry { x, y } => word_xy(0x8004, x, y),
            Instruction::SubBorrow { x, y } => word_xy(0x8005, x, y),
            Instruction::ShiftRight { x, y } => word_xy(0x8006, x, y),
            Instruction::ReverseSub { x, y } => word_xy(0x8007, x, y),
            Instruction::ShiftLeft { x, y } => word_xy(0x800E, x, y),
            Instruction::SkipIfRegistersNotEqual { x, y } => word_xy(0x9000, x, y),
            Instruction::LoadIndex { addr } => 0xA000 + addr,
            Instruction::JumpOffset { addr } => 0xB000 + addr,
            Instruction::Random { x, value } => word_x(0xC000, x, value as int),
            Instruction::Draw { x, y, rows } => word_xy(0xD000, x, y) + rows,
            Instruction::SkipIfKey { x } => word_x(0xE000, x, 0x9E),
            Instruction::SkipIfNotKey { x } => word_x(0xE000, x, 0xA1),
            Instruction::LoadDelay { x } => word_x(0xF000, x, 0x07),
            Instruction::WaitKey { x } => word_x(0xF000, x, 0x0A),
            Instruction::StoreDelay { x } => word_x(0xF000, x, 0x15),
            Instruction::StoreSound { x } => word_x(0xF000, x, 0x18),
            Instruction::AddIndex { x } => word_x(0xF000, x, 0x1E),
            Instruction::FontAddress { x } => word_x(0xF000, x, 0x29),
            Instruction::StoreBcd { x } => word_x(0xF000, x, 0x33),
            Instruction::StoreRegisters { x } => word_x(0xF000, x, 0x55),
            Instruction::LoadRegisters { x } => word_x(0xF000, x, 0x65),
        }
    }
}

/// The first nibble of an instruction word, which selects the family.
pub open spec fn family_of(word: u16) -> u16 {
    word / 0x1000
}

/// The second nibble of an instruction word: the register operand `x`.
pub open spec fn x_of(word: u16) -> u8 {
    ((word / 0x100) % 0x10) as u8
}

/// The third nibble of an instruction word: the register operand `y`.
pub open spec fn y_of(word: u16) -> u8 {
    ((word / 0x10) % 0x10) as u8
}

/// The last nibble of an instruction word: the operand `n`.
pub open spec fn n_of(word: u16) -> u8 {
    (word % 0x10) as u8
}

/// The low byte of an instruction word: the operand `nn`.
pub open spec fn nn_of(word: u16) -> u8 {
    (word % 0x100) as u8
}

/// The low twelve bits of an instruction word: the operand `nnn`.
pub open spec fn nnn_of(word: u16) -> u16 {
    word % 0x1000
}

/// The arithmetic instruction `8xyn` that the last nibble `n` selects.
pub open spec fn decode_arithmetic(x: u8, y: u8, n: u8) -> Option<Instruction> {
    if n == 0x0 {
        Some(Instruction::Assign { x, y })
    } else if n == 0x1 {
        Some(Instruction::Or { x, y })
    } else if n == 0x2 {
        Some(Instruction::And { x, y })
    } else if n == 0x3 {
        Some(Instruction::Xor { x, y })
    } else if n == 0x4 {
        Some(Instruction::AddCarry { x, y })
    } else if n == 0x5 {
        Some(Instruction::SubBorrow { x, y })
    } else if n == 0x6 {
        Some(Instruction::ShiftRight { x, y })
    } else if n == 0x7 {
        Some(Instruction::ReverseSub { x, y })
    } else if n == 0xE {
        Some(Instruction::ShiftLeft { x, y })
    } else {
        None
    }
}

/// The instruction `Fxnn` that the low byte `nn` selects.
pub open spec fn decode_misc(x: u8, nn: u8) -> Option<Instruction> {
    if nn == 0x07 {
        Some(Instruction::LoadDelay { x })
    } else if nn == 0x0A {
        Some(Instruction::WaitKey { x })
    } else if nn == 0x15 {
        Some(Instruction::StoreDelay { x })
    } else if nn == 0x18 {
        Some(Instruction::StoreSound { x })
    } else if nn == 0x1E {
        Some(Instruction::AddIndex { x })
    } else if nn == 0x29 {
        Some(Instruction::FontAddress { x })
    } else if nn == 0x33 {
        Some(Instruction::StoreBcd { x })
    } else if nn == 0x55 {
        Some(Instruction::StoreRegisters { x })
    } else if nn == 0x65 {
        Some(Instruction::LoadRegisters { x })
    } else {
        None
    }
}

/// The instruction that `word` stands for, or `None` if it stands for none.
pub open spec fn spec_decode(word: u16) -> Option<Instruction> {
    let family = family_of(word);
    let x = x_of(word);
    let y = y_of(word);
    let n = n_of(word);
    let value = nn_of(word);
    let addr = nnn_of(word);
    if family == 0x0 {
        if word == 0x00E0 {
            Some(Instruction::ClearScreen)
        } else if word == 0x00EE {
            Some(Instruction::Return)
        } else {
            None
        }
    } else if family == 0x1 {
        Some(Instruction::Jump { addr })
    } else if family == 0x2 {
        Some(Instruction::Call { addr })
    } else if family == 0x3 {
        Some(Instruction::SkipIfEqual { x, value })
    } else if family == 0x4 {
        Some(Instruction::SkipIfNotEqual { x, value })
    } else if family == 0x5 {
        if n == 0 {
            Some(Instruction::SkipIfRegistersEqual { x, y })
        } else {
            None
        }
    } else if family == 0x6 {
        Some(Instruction::LoadImmediate { x, value })
    } else if family == 0x7 {
        Some(Instruction::AddImmediate { x, value })
    } else if family == 0x8 {
        decode_arithmetic(x, y, n)
    } else if family == 0x9 {
        if n == 0 {
            Some(Instruction::SkipIfRegistersNotEqual { x, y })
        } else {
            None
        }
    } else if family == 0xA {
        Some(Instruction::LoadIndex { addr })
    } else if family == 0xB {
        Some(Instruction::JumpOffset { addr })
    } else if family == 0xC {
        Some(Instruction::Random { x, value })
    } else if family == 0xD {
        Some(Instruction::Draw { x, y, rows: n })
    } else if family == 0xE {
        if value == 0x9E {
            Some(Instruction::SkipIfKey { x })
        } else if value == 0xA1 {
            Some(Instruction::SkipIfNotKey { x })
        } else {
            None
        }
    } else {
        decode_misc(x, value)
    }
}

/// An instruction word is the sum of its four nibbles, each at its place, and
/// the wider operands are made of the narrower ones.
proof fn lemma_word_parts(word: u16)
    ensures
        word == family_of(word) * 0x1000 + x_of(word) * 0x100 + y_of(word) * 0x10 + n_of(word),
        family_of(word) < 16,
        x_of(word) < 16,
        y_of(word) < 16,
        n_of(word) < 16,
        nn_of(word) == y_of(word) * 0x10 + n_of(word),
        nnn_of(word) == x_of(word) * 0x100 + nn_of(word),
{
    assert(word == (word / 0x1000) * 0x1000 + ((word / 0x100) % 0x10) * 0x100 + ((word / 0x10)
        % 0x10) * 0x10 + word % 0x10) by (bit_vector);
    assert(word % 0x100 == ((word / 0x10) % 0x10) * 0x10 + word % 0x10) by (bit_vector);
    assert(word % 0x1000 == ((word / 0x100) % 0x10) * 0x100 + word % 0x100) by (bit_vector);
    assert(word / 0x1000 < 16) by (bit_vector);
}

/// The word made of four nibbles has those nibbles for its parts.
proof fn lemma_parts_of_word(f: u16, x: u16, y: u16, n: u16)
    requires
        f < 16,
        x < 16,
        y < 16,
        n < 16,
    ensures
        0 <= f * 0x1000 + x * 0x100 + y * 0x10 + n <= u16::MAX,
        ({
            let word = (f * 0x1000 + x * 0x100 + y * 0x10 + n) as u16;
            &&& family_of(word) == f
            &&& x_of(word) == x
            &&& y_of(word) == y
            &&& n_of(word) == n
            &&& nn_of(word) == y * 0x10 + n
            &&& nnn_of(word) == x * 0x100 + y * 0x10 + n
        }),
{
    let word = (f * 0x1000 + x * 0x100 + y * 0x10 + n) as u16;
    assert(word == f * 0x1000 + x * 0x100 + y * 0x10 + n);
    assert(f < 16 && x < 16 && y < 16 && n < 16 && word == f * 0x1000 + x * 0x100 + y * 0x10 + n
        ==> word / 0x1000 == f && (word / 0x100) % 0x10 == x && (word / 0x10) % 0x10 == y && word
        % 0x10 == n && word % 0x100 == y * 0x10 + n && word % 0x1000 == x * 0x100 + y * 0x10 + n)
        by (bit_vector);
}

/// Decoding undoes encoding: the word of a well-formed instruction decodes to
/// that instruction.
#[verifier::rlimit(40)]
pub proof fn lemma_decode_encode(instr: Instruction)
    requires
        instr.wf(),
    ensures
        0 <= instr.encode() <= u16::MAX,
        spec_decode(instr.encode() as u16) == Some(instr),
{
    match instr {
        Instruction::ClearScreen => {
            lemma_parts_of_word(0, 0, 0xE, 0);
        },
        Instruction::Return => {
            lemma_parts_of_word(0, 0, 0xE, 0xE);
        },
        Instruction::Jump { addr } => {
            lemma_parts_of_word(1, addr / 0x100, (addr / 0x10) % 0x10, addr % 0x10);
        },
        Instruction::Call { addr } => {
            lemma_parts_of_word(2, addr / 0x100, (addr / 0x10) % 0x10, addr % 0x10);
        },
        Instruction::SkipIfEqual { x, value } => {
            lemma_parts_of_word(3, x as u16, (value / 0x10) as u16, (value % 0x10) as u16);
        },
        Instruction::SkipIfNotEqual { x, value } => {
            lemma_parts_of_word(4, x as u16, (value / 0x10) as u16, (value % 0x10) as u16);
        },
        Instruction::SkipIfRegistersEqual { x, y } => {
            lemma_parts_of_word(5, x as u16, y as u16, 0);
        },
        Instruction::LoadImmediate { x, value } => {
            lemma_parts_of_word(6, x as u16, (value / 0x10) as u16, (value % 0x10) as u16);
        },
        Instruction::AddImmediate { x, value } => {
            lemma_parts_of_word(7, x as u16, (value / 0x10) as u16, (value % 0x10) as u16);
        },
        Instruction::Assign { x, y } => {
            lemma_parts_of_word(8, x as u16, y as u16, 0x0);
        },
        Instruction::Or { x, y } => {
            lemma_parts_of_word(8, x as u16, y as u16, 0x1);
        },
        Instruction::And { x, y } => {
            lemma_parts_of_word(8, x as u16, y as u16, 0x2);
        },
        Instruction::Xor { x, y } => {
            lemma_parts_of_word(8, x as u16, y as u16, 0x3);
        },
        Instruction::AddCarry { x, y } => {
            lemma_parts_of_word(8, x as u16, y as u16, 0x4);
        },
        Instruction::SubBorrow { x, y } => {
            lemma_parts_of_word(8, x as u16, y as u16, 0x5);
        },
        Instruction::ShiftRight { x, y } => {
            lemma_parts_of_word(8, x as u16, y as u16, 0x6);
        },
        Instruction::ReverseSub { x, y } => {
            lemma_parts_of_word(8, x as u16, y as u16, 0x7);
        },
        Instruction::ShiftLeft { x, y } => {
            lemma_parts_of_word(8, x as u16, y as u16, 0xE);
        },
        Instruction::SkipIfRegistersNotEqual { x, y } => {
            lemma_parts_of_word(9, x as u16, y as u16, 0);
        },
        Instruction::LoadIndex { addr } => {
            lemma_parts_of_word(0xA, addr / 0x100, (addr / 0x10) % 0x10, addr % 0x10);
        },
        Instruction::JumpOffset { addr } => {
            lemma_parts_of_word(0xB, addr / 0x100, (addr / 0x10) % 0x10, addr % 0x10);
        },
        Instruction::Random { x, value } => {
            lemma_parts_of_word(0xC, x as u16, (value / 0x10) as u16, (value % 0x10) as u16);
        },
        Instruction::Draw { x, y, rows } => {
            lemma_parts_of_word(0xD, x as u16, y as u16, rows as u16);
        },
        Instruction::SkipIfKey { x } => {
            lemma_parts_of_word(0xE, x as u16, 0x9, 0xE);
        },
        Instruction::SkipIfNotKey { x } => {
            lemma_parts_of_word(0xE, x as u16, 0xA, 0x1);
        },
        Instruction::LoadDelay { x } => {
            lemma_parts_of_word(0xF, x as u16, 0x0, 0x7);
        },
        Instruction::WaitKey { x } => {
            lemma_parts_of_word(0xF, x as u16, 0x0, 0xA);
        },
        Instruction::StoreDelay { x } => {
            lemma_parts_of_word(0xF, x as u16, 0x1, 0x5);
        },
        Instruction::StoreSound { x } => {
            lemma_parts_of_word(0xF, x as u16, 0x1, 0x8);
        },
        Instruction::AddIndex { x } => {
            lemma_parts_of_word(0xF, x as u16, 0x1, 0xE);
        },
        Instruction::FontAddress { x } => {
            lemma_parts_of_word(0xF, x as u16, 0x2, 0x9);
        },
        Instruction::StoreBcd { x } => {
            lemma_parts_of_word(0xF, x as u16, 0x3, 0x3);
        },
        Instruction::StoreRegisters { x } => {
            lemma_parts_of_word(0xF, x as u16, 0x5, 0x5);
        },
        Instruction::LoadRegisters { x } => {
            lemma_parts_of_word(0xF, x as u16, 0x6, 0x5);
        },
    }
}

/// Encoding undoes decoding: a word that decodes to an instruction is the word
/// of that instruction, and the instruction is well-formed.
pub proof fn lemma_encode_decode(word: u16)
    ensures
        spec_decode(word) matches Some(instr) ==> instr.wf() && instr.encode() == word,
{
    lemma_word_parts(word);
}

/// A word decodes to nothing exactly if no well-formed instruction has it for
/// its encoding.
pub proof fn lemma_unrecognized(word: u16)
    ensures
        spec_decode(word) is None <==> forall|instr: Instruction|
            instr.wf() ==> #[trigger] instr.encode() != word,
{
    lemma_encode_decode(word);
    if spec_decode(word) is None {
        assert forall|instr: Instruction| instr.wf() implies #[trigger] instr.encode()
            != word by {
            lemma_decode_encode(instr);
        }
    }
}

/// Takes an instruction word apart.
///
/// The family is the nibble at bit 12, `x` the nibble at bit 8, `y` the nibble
/// at bit 4, `n` the low nibble, `nn` the low byte and `nnn` the low twelve
/// bits. The result is `None` exactly for the words that encode no
/// instruction; see [`lemma_unrecognized`].
pub fn decode(word: u16) -> (result: Option<Instruction>)
    ensures
        result == spec_decode(word),
        result matches Some(instr) ==> instr.wf() && instr.encode() == word,
{
    proof {
        assert(word >> 12 == word / 0x1000) by (bit_vector);
        assert((word >> 8) & 0xF == (word / 0x100) % 0x10) by (bit_vector);
        assert((word >> 4) & 0xF == (word / 0x10) % 0x10) by (bit_vector);
        assert(word & 0xF == word % 0x10) by (bit_vector);
        assert(word & 0xFF == word % 0x100) by (bit_vector);
        assert(word & 0xFFF == word % 0x1000) by (bit_vector);
        lemma_encode_decode(word);
    }
    let family: u16 = word >> 12;
    let x: u8 = ((word >> 8) & 0xF) as u8;
    let y: u8 = ((word >> 4) & 0xF) as u8;
    let n: u8 = (word & 0xF) as u8;
    let value: u8 = (word & 0xFF) as u8;
    let addr: u16 = word & 0xFFF;
    match family {
        0x0 => match word {
            0x00E0 => Some(Instruction::ClearScreen),
            0x00EE => Some(Instruction::Return),
            _ => None,
        },
        0x1 => Some(Instruction::Jump { addr }),
        0x2 => Some(Instruction::Call { addr }),
        0x3 => Some(Instruction::SkipIfEqual { x, value }),
        0x4 => Some(Instruction::SkipIfNotEqual { x, value }),
        0x5 => match n {
            0x0 => Some(Instruction::SkipIfRegistersEqual { x, y }),
            _ => None,
        },
        0x6 => Some(Instruction::LoadImmediate { x, value }),
        0x7 => Some(Instruction::AddImmediate { x, value }),
        0x8 => match n {
            0x0 => Some(Instruction::Assign { x, y }),
            0x1 => Some(Instruction::Or { x, y }),
            0x2 => Some(Instruction::And { x, y }),
            0x3 => Some(Instruction::Xor { x, y }),
            0x4 => Some(Instruction::AddCarry { x, y }),
            0x5 => Some(Instruction::SubBorrow { x, y }),
            0x6 => Some(Instruction::ShiftRight { x, y }),
            0x7 => Some(Instruction::ReverseSub { x, y }),
            0xE => Some(Instruction::ShiftLeft { x, y }),
            _ => None,
        },
        0x9 => match n {
            0x0 => Some(Instruction::SkipIfRegistersNotEqual { x, y }),
            _ => None,
        },
        0xA => Some(Instruction::LoadIndex { addr }),
        0xB => Some(Instruction::JumpOffset { addr }),
        0xC => Some(Instruction::Random { x, value }),
        0xD => Some(Instruction::Draw { x, y, rows: n }),
        0xE => match value {
            0x9E => Some(Instruction::SkipIfKey { x }),
            0xA1 => Some(Instruction::SkipIfNotKey { x }),
            _ => None,
        },
        _ => match value {
            0x07 => Some(Instruction::LoadDelay { x }),
            0x0A => Some(Instruction::WaitKey { x }),
            0x15 => Some(Instruction::StoreDelay { x }),
            0x18 => Some(Instruction::StoreSound { x }),
            0x1E => Some(Instruction::AddIndex { x }),
            0x29 => Some(Instruction::FontAddress { x }),
            0x33 => Some(Instruction::StoreBcd { x }),
            0x55 => Some(Instruction::StoreRegisters { x }),
            0x65 => Some(Instruction::LoadRegisters { x }),
            _ => None,
        },
    }
}

} // verus!
