//! Laws of the instruction set, proved from the semantics.
//!
//! Each law speaks of [`MachineState::step`], the function that the
//! executable machine is proved to compute, applied to the encoding of an
//! instruction.
use vstd::prelude::*;
use crate::fault::Fault;
use crate::instruction::{lemma_decode_encode, Instruction};
use crate::model::{
    lemma_pixel_index,
    overlay,
    pixel_index,
    wrap16,
    MachineState,
    FLAG_REGISTER,
    MEMORY_SIZE,
    STACK_SIZE,
};
use crate::semantics::{collides, drawn, draws_random, sprite_bit, sprite_covers};

verus! {

/// The instruction word of a well-formed instruction.
pub open spec fn word_of(instr: Instruction) -> u16 {
    instr.encode() as u16
}

/// Executing the word of an instruction is running that instruction.
pub proof fn law_step_runs(s: MachineState, instr: Instruction, random: u8)
    requires
        instr.wf(),
    ensures
        s.step(word_of(instr), random) == s.run(instr, random),
{
    lemma_decode_encode(instr);
}

/// Moving the program counter forward does not wrap while the sum fits in 16
/// bits. In particular it does not wrap after an instruction that was fetched
/// from memory, whose address is below 4095.
pub proof fn law_advance_plain(s: MachineState, by: int)
    requires
        0 <= by,
        s.pc + by <= u16::MAX,
    ensures
        s.advance(by).pc == s.pc + by,
{
}

/// Add-with-carry, `8xy4`: the flag register becomes `1` if the sum of `Vx`
/// and `Vy` is more than 255 and `0` if not, and `Vx`, unless it is the flag
/// register itself, becomes the sum modulo 256. No other register changes,
/// and the program counter moves forward by 2.
pub proof fn law_add_with_carry(s: MachineState, x: u8, y: u8, random: u8)
    requires
        s.wf(),
        x < 16,
        y < 16,
    ensures
        s.step(word_of(Instruction::AddCarry { x, y }), random) matches Ok(next) && {
            let sum = s.reg(x) + s.reg(y);
            &&& next.reg(FLAG_REGISTER) == (if sum > 255 {
                1int
            } else {
                0int
            })
            &&& x != FLAG_REGISTER ==> next.reg(x) == sum % 256
            &&& forall|r: u8| r < 16 && r != x && r != FLAG_REGISTER ==> next.reg(r) == s.reg(r)
            &&& next == MachineState { registers: next.registers, ..s.advance(2) }
        },
{
    law_step_runs(s, Instruction::AddCarry { x, y }, random);
}

/// Subtract-with-borrow, `8xy5`: the flag register becomes `0` if `Vx` is less
/// than `Vy` and `1` if not, and `Vx`, unless it is the flag register itself,
/// becomes the difference modulo 256. No other register changes, and the
/// program counter moves forward by 2.
pub proof fn law_sub_with_borrow(s: MachineState, x: u8, y: u8, random: u8)
    requires
        s.wf(),
        x < 16,
        y < 16,
    ensures
        s.step(word_of(Instruction::SubBorrow { x, y }), random) matches Ok(next) && {
            let a = s.reg(x);
            let b = s.reg(y);
            &&& next.reg(FLAG_REGISTER) == (if a < b {
                0int
            } else {
                1int
            })
            &&& x != FLAG_REGISTER ==> next.reg(x) == (a - b) % 256
            &&& forall|r: u8| r < 16 && r != x && r != FLAG_REGISTER ==> next.reg(r) == s.reg(r)
            &&& next == MachineState { registers: next.registers, ..s.advance(2) }
        },
{
    law_step_runs(s, Instruction::SubBorrow { x, y }, random);
}

/// Reverse subtract-with-borrow, `8xy7`: the flag register becomes `0` if `Vx`
/// is more than `Vy` and `1` if not, and `Vx`, unless it is the flag register
/// itself, becomes `Vy - Vx` modulo 256.
pub proof fn law_reverse_sub_with_borrow(s: MachineState, x: u8, y: u8, random: u8)
    requires
        s.wf(),
        x < 16,
        y < 16,
    ensures
        s.step(word_of(Instruction::ReverseSub { x, y }), random) matches Ok(next) && {
            let a = s.reg(x);
            let b = s.reg(y);
            &&& next.reg(FLAG_REGISTER) == (if a > b {
                0int
            } else {
                1int
            })
            &&& x != FLAG_REGISTER ==> next.reg(x) == (b - a) % 256
            &&& forall|r: u8| r < 16 && r != x && r != FLAG_REGISTER ==> next.reg(r) == s.reg(r)
            &&& next == MachineState { registers: next.registers, ..s.advance(2) }
        },
{
    law_step_runs(s, Instruction::ReverseSub { x, y }, random);
}

/// Shift-right, `8xy6`, on a register other than the flag register: the flag
/// register becomes the low bit that `Vx` had, and `Vx` becomes half of what
/// it was, so the result stays within 8 bits.
pub proof fn law_shift_right(s: MachineState, x: u8, y: u8, random: u8)
    requires
        s.wf(),
        x < 16,
        y < 16,
        x != FLAG_REGISTER,
    ensures
        s.step(word_of(Instruction::ShiftRight { x, y }), random) matches Ok(next) && {
            &&& next.reg(FLAG_REGISTER) == s.reg(x) % 2
            &&& next.reg(x) == s.reg(x) / 2
            &&& forall|r: u8| r < 16 && r != x && r != FLAG_REGISTER ==> next.reg(r) == s.reg(r)
            &&& next == MachineState { registers: next.registers, ..s.advance(2) }
        },
{
    law_step_runs(s, Instruction::ShiftRight { x, y }, random);
}

/// Shift-left, `8xyE`, on a register other than the flag register: the flag
/// register becomes the high bit that `Vx` had, and `Vx` becomes twice what it
/// was modulo 256, so the result stays within 8 bits.
pub proof fn law_shift_left(s: MachineState, x: u8, y: u8, random: u8)
    requires
        s.wf(),
        x < 16,
        y < 16,
        x != FLAG_REGISTER,
    ensures
        s.step(word_of(Instruction::ShiftLeft { x, y }), random) matches Ok(next) && {
            &&& next.reg(FLAG_REGISTER) == s.reg(x) / 128
            &&& next.reg(x) == (s.reg(x) * 2) % 256
            &&& forall|r: u8| r < 16 && r != x && r != FLAG_REGISTER ==> next.reg(r) == s.reg(r)
            &&& next == MachineState { registers: next.registers, ..s.advance(2) }
        },
{
    law_step_runs(s, Instruction::ShiftLeft { x, y }, random);
}

/// Clear-screen, `00E0`: afterwards no pixel is lit, the program counter has
/// moved forward by 2, and nothing else has changed.
pub proof fn law_clear_screen(s: MachineState, random: u8)
    requires
        s.wf(),
    ensures
        s.step(0x00E0, random) matches Ok(next) && {
            &&& forall|p: int| 0 <= p < next.display.len() ==> !next.display[p]
            &&& next.pc == wrap16(s.pc + 2)
            &&& s.pc + 2 <= u16::MAX ==> next.pc == s.pc + 2
            &&& next == MachineState { display: next.display, ..s.advance(2) }
            &&& next.wf()
        },
{
    law_step_runs(s, Instruction::ClearScreen, random);
}

/// Call and return: a call with fewer than sixteen calls active succeeds,
/// and a return right after it brings the program counter to the instruction
/// behind the call and the stack back to the frames it had. With sixteen
/// calls active the call overflows the stack.
pub proof fn law_call_return(s: MachineState, addr: u16, random: u8)
    requires
        s.wf(),
        addr < 0x1000,
    ensures
        s.depth < STACK_SIZE ==> (s.step(word_of(Instruction::Call { addr }), random) matches Ok(
            called,
        ) && called.pc == addr && called.depth == s.depth + 1 && (called.step(0x00EE, random)
            matches Ok(back) && {
            &&& back.pc == wrap16(s.pc + 2)
            &&& s.pc + 2 <= u16::MAX ==> back.pc == s.pc + 2
            &&& back.depth == s.depth
            &&& back.frames() == s.frames()
            &&& back == MachineState { stack: back.stack, ..s.advance(2) }
        })),
        s.depth >= STACK_SIZE ==> s.step(word_of(Instruction::Call { addr }), random) == Err::<
            MachineState,
            Fault,
        >(Fault::StackOverflow),
{
    law_step_runs(s, Instruction::Call { addr }, random);
    if s.depth < STACK_SIZE {
        let called = s.step(word_of(Instruction::Call { addr }), random)->Ok_0;
        law_step_runs(called, Instruction::Return, random);
        let back = called.step(0x00EE, random)->Ok_0;
        assert(back.frames() =~= s.frames());
    }
}

/// Jump, `1nnn`: the program counter becomes `nnn` whatever the state, with
/// no 2 added, and nothing else changes.
pub proof fn law_jump(s: MachineState, addr: u16, random: u8)
    requires
        addr < 0x1000,
    ensures
        s.step(word_of(Instruction::Jump { addr }), random) == Ok::<MachineState, Fault>(
            s.with_pc(addr),
        ),
        word_of(Instruction::Jump { addr }) == 0x1000 + addr,
{
    law_step_runs(s, Instruction::Jump { addr }, random);
}

/// What a skip instruction does to a state: the program counter moves
/// forward by 4 if `condition` holds and by 2 if it does not, and nothing else
/// changes.
pub open spec fn skipped(s: MachineState, condition: bool) -> Result<MachineState, Fault> {
    Ok(
        if condition {
            s.advance(4)
        } else {
            s.advance(2)
        },
    )
}

/// Moving forward by 4 and moving forward by 2 never lead to the same
/// program counter, and where the counter does not wrap they lead to the
/// counter plus 4 and the counter plus 2.
pub proof fn law_skip_or_not(s: MachineState)
    ensures
        s.advance(4).pc != s.advance(2).pc,
        s.pc + 4 <= u16::MAX ==> s.advance(4).pc == s.pc + 4 && s.advance(2).pc == s.pc + 2,
{
}

/// Skip-if-equal, `3xnn`: the program counter moves forward by 4 if `Vx` is
/// `nn`, and by 2 if it is not.
pub proof fn law_skip_if_equal(s: MachineState, x: u8, value: u8, random: u8)
    requires
        s.wf(),
        x < 16,
    ensures
        s.step(word_of(Instruction::SkipIfEqual { x, value }), random) == skipped(
            s,
            s.reg(x) == value,
        ),
{
    law_step_runs(s, Instruction::SkipIfEqual { x, value }, random);
}

/// Skip-if-not-equal, `4xnn`: the program counter moves forward by 4 if `Vx`
/// is not `nn`, and by 2 if it is.
pub proof fn law_skip_if_not_equal(s: MachineState, x: u8, value: u8, random: u8)
    requires
        s.wf(),
        x < 16,
    ensures
        s.step(word_of(Instruction::SkipIfNotEqual { x, value }), random) == skipped(
            s,
            s.reg(x) != value,
        ),
{
    law_step_runs(s, Instruction::SkipIfNotEqual { x, value }, random);
}

/// Skip-if-registers-equal, `5xy0`: the program counter moves forward by 4 if
/// `Vx` is `Vy`, and by 2 if it is not.
pub proof fn law_skip_if_registers_equal(s: MachineState, x: u8, y: u8, random: u8)
    requires
        s.wf(),
        x < 16,
        y < 16,
    ensures
        s.step(word_of(Instruction::SkipIfRegistersEqual { x, y }), random) == skipped(
            s,
            s.reg(x) == s.reg(y),
        ),
{
    law_step_runs(s, Instruction::SkipIfRegistersEqual { x, y }, random);
}

/// Skip-if-registers-not-equal, `9xy0`: the program counter moves forward by
/// 4 if `Vx` is not `Vy`, and by 2 if it is.
pub proof fn law_skip_if_registers_not_equal(s: MachineState, x: u8, y: u8, random: u8)
    requires
        s.wf(),
        x < 16,
        y < 16,
    ensures
        s.step(word_of(Instruction::SkipIfRegistersNotEqual { x, y }), random) == skipped(
            s,
            s.reg(x) != s.reg(y),
        ),
{
    law_step_runs(s, Instruction::SkipIfRegistersNotEqual { x, y }, random);
}

/// Where a sprite lands: the pixel in column `col` of sprite row `row` falls
/// on the display `col` columns right of `left` and `row` rows below `top`,
/// wrapping at the edges, and the sprite covers that position exactly if the
/// pixel is set.
pub proof fn law_sprite_pixel_lands(
    memory: Seq<u8>,
    index: int,
    rows: int,
    left: int,
    top: int,
    row: int,
    col: int,
)
    requires
        0 <= left < 256,
        0 <= top < 256,
        0 <= row < rows <= 32,
        0 <= col < 8,
    ensures
        0 <= pixel_index(left + col, top + row) < 2048,
        sprite_covers(memory, index, rows, left, top, pixel_index(left + col, top + row))
            == sprite_bit(memory[index + row], col as u8),
{
    lemma_pixel_index(left, top, col, row, pixel_index(left + col, top + row));
}

/// A sprite covers nothing but where its set pixels land: a position that
/// the sprite covers is where a set pixel of one of its rows falls.
pub proof fn law_covered_is_landed(
    memory: Seq<u8>,
    index: int,
    rows: int,
    left: int,
    top: int,
    p: int,
)
    requires
        0 <= left < 256,
        0 <= top < 256,
        0 <= p < 2048,
        sprite_covers(memory, index, rows, left, top, p),
    ensures
        ({
            let col = (p % 64 - left) % 64;
            let row = (p / 64 - top) % 32;
            &&& 0 <= row < rows
            &&& 0 <= col < 8
            &&& p == pixel_index(left + col, top + row)
            &&& sprite_bit(memory[index + row], col as u8)
        }),
{
    let col = (p % 64 - left) % 64;
    let row = (p / 64 - top) % 32;
    lemma_pixel_index(left, top, col, row, p);
}

/// Drawing is its own inverse: a sprite drawn twice at one place leaves the
/// display as it was.
pub proof fn law_draw_twice_restores(
    display: Seq<bool>,
    memory: Seq<u8>,
    index: int,
    rows: int,
    left: int,
    top: int,
)
    requires
        display.len() == 2048,
    ensures
        drawn(drawn(display, memory, index, rows, left, top), memory, index, rows, left, top)
            == display,
{
    assert(drawn(drawn(display, memory, index, rows, left, top), memory, index, rows, left, top)
        =~= display);
}

/// The second of two draws of one sprite at one place turns a lit pixel off
/// exactly if the sprite covers a pixel that was off before the first draw.
pub proof fn law_second_draw_collides(
    display: Seq<bool>,
    memory: Seq<u8>,
    index: int,
    rows: int,
    left: int,
    top: int,
)
    requires
        display.len() == 2048,
    ensures
        collides(drawn(display, memory, index, rows, left, top), memory, index, rows, left, top)
            <==> exists|p: int|
            0 <= p < 2048 && !display[p] && #[trigger] sprite_covers(
                memory,
                index,
                rows,
                left,
                top,
                p,
            ),
{
    let once = drawn(display, memory, index, rows, left, top);
    if collides(once, memory, index, rows, left, top) {
        let p = choose|p: int|
            0 <= p < 2048 && once[p] && #[trigger] sprite_covers(
                memory,
                index,
                rows,
                left,
                top,
                p,
            );
        assert(!display[p]);
    }
    if exists|p: int|
        0 <= p < 2048 && !display[p] && #[trigger] sprite_covers(
            memory,
            index,
            rows,
            left,
            top,
            p,
        ) {
        let p = choose|p: int|
            0 <= p < 2048 && !display[p] && #[trigger] sprite_covers(
                memory,
                index,
                rows,
                left,
                top,
                p,
            );
        assert(once[p]);
    }
}

/// The law of drawing twice, for the instruction itself.
proof fn lemma_draw_twice(s: MachineState, x: u8, y: u8, rows: u8)
    requires
        s.wf(),
        x < 16,
        y < 16,
        rows < 16,
        rows == 0 || s.index + rows <= MEMORY_SIZE,
    ensures
        s.draw(x, y, rows) matches Ok(once) && (once.reg(x) == s.reg(x) && once.reg(y) == s.reg(
            y,
        ) ==> (once.draw(x, y, rows) matches Ok(twice) && {
            &&& twice.display == s.display
            &&& twice.pc == wrap16(s.pc + 4)
            &&& (exists|p: int|
                0 <= p < 2048 && !s.display[p] && #[trigger] sprite_covers(
                    s.memory,
                    s.index as int,
                    rows as int,
                    s.reg(x) as int,
                    s.reg(y) as int,
                    p,
                )) ==> twice.reg(FLAG_REGISTER) == 1
        })),
        x != FLAG_REGISTER && y != FLAG_REGISTER ==> (s.draw(x, y, rows) matches Ok(once)
            && once.reg(x) == s.reg(x) && once.reg(y) == s.reg(y)),
{
    let once = s.draw(x, y, rows)->Ok_0;
    if once.reg(x) == s.reg(x) && once.reg(y) == s.reg(y) {
        law_draw_twice_restores(
            s.display,
            s.memory,
            s.index as int,
            rows as int,
            s.reg(x) as int,
            s.reg(y) as int,
        );
        law_second_draw_collides(
            s.display,
            s.memory,
            s.index as int,
            rows as int,
            s.reg(x) as int,
            s.reg(y) as int,
        );
    }
}

/// Draw-sprite, `Dxyn`, executed twice in a state whose sprite rows lie in
/// memory, where the first draw leaves the two position registers as they
/// are: both draws succeed and the display is back to what it was. If the
/// sprite covers a pixel that was off at the start, the second draw sets the
/// flag register to `1`. So a sprite with a set pixel, drawn twice where the
/// display was blank, leaves the display blank and the flag at `1`.
///
/// The first draw leaves the position registers as they are whenever
/// neither of them is the flag register.
pub proof fn law_draw_twice(s: MachineState, x: u8, y: u8, rows: u8, random: u8)
    requires
        s.wf(),
        x < 16,
        y < 16,
        rows < 16,
        rows == 0 || s.index + rows <= MEMORY_SIZE,
    ensures
        s.step(word_of(Instruction::Draw { x, y, rows }), random) matches Ok(once) && (once.reg(x)
            == s.reg(x) && once.reg(y) == s.reg(y) ==> (once.step(
            word_of(Instruction::Draw { x, y, rows }),
            random,
        ) matches Ok(twice) && {
            &&& twice.display == s.display
            &&& twice.pc == wrap16(s.pc + 4)
            &&& (exists|p: int|
                0 <= p < 2048 && !s.display[p] && #[trigger] sprite_covers(
                    s.memory,
                    s.index as int,
                    rows as int,
                    s.reg(x) as int,
                    s.reg(y) as int,
                    p,
                )) ==> twice.reg(FLAG_REGISTER) == 1
        })),
        x != FLAG_REGISTER && y != FLAG_REGISTER ==> (s.step(
            word_of(Instruction::Draw { x, y, rows }),
            random,
        ) matches Ok(once) && once.reg(x) == s.reg(x) && once.reg(y) == s.reg(y)),
{
    let instr = Instruction::Draw { x, y, rows };
    lemma_draw_twice(s, x, y, rows);
    assert(s.step(word_of(instr), random) == s.draw(x, y, rows)) by {
        law_step_runs(s, instr, random);
    }
    let once = s.draw(x, y, rows)->Ok_0;
    assert(once.step(word_of(instr), random) == once.draw(x, y, rows)) by {
        law_step_runs(once, instr, random);
    }
}

/// Register dump and load, `Fx55` and `Fx65`: after `V0` to `Vx` were dumped
/// to memory, loading them from the same address gives them the values they
/// had at the dump, whatever the registers held in between.
pub proof fn law_dump_load(s: MachineState, between: MachineState, x: u8, random: u8)
    requires
        s.wf(),
        x < 16,
        s.index + x + 1 <= MEMORY_SIZE,
        between.wf(),
        s.step(word_of(Instruction::StoreRegisters { x }), random) matches Ok(dumped)
            && between.memory == dumped.memory && between.index == dumped.index,
    ensures
        s.step(word_of(Instruction::StoreRegisters { x }), random) matches Ok(dumped) && {
            &&& dumped == s.with_memory(dumped.memory).advance(2)
            &&& dumped.memory == overlay(s.memory, s.index as int, s.registers.take(x + 1))
        },
        between.step(word_of(Instruction::LoadRegisters { x }), random) matches Ok(loaded) && {
            &&& forall|r: u8| r <= x ==> loaded.reg(r) == s.reg(r)
            &&& forall|r: u8| x < r < 16 ==> loaded.reg(r) == between.reg(r)
            &&& loaded == MachineState { registers: loaded.registers, ..between.advance(2) }
        },
        between.registers == s.registers ==> (between.step(
            word_of(Instruction::LoadRegisters { x }),
            random,
        ) matches Ok(loaded) && loaded.registers == s.registers),
{
    law_step_runs(s, Instruction::StoreRegisters { x }, random);
    law_step_runs(between, Instruction::LoadRegisters { x }, random);
    let loaded = between.step(word_of(Instruction::LoadRegisters { x }), random)->Ok_0;
    if between.registers == s.registers {
        assert(loaded.registers =~= s.registers);
    }
}

/// Every instruction keeps the shape of the state: what `step` reaches from
/// a well-formed state is well-formed, so the call depth never passes
/// sixteen.
pub proof fn law_step_keeps_shape(s: MachineState, word: u16, random: u8)
    requires
        s.wf(),
    ensures
        s.step(word, random) matches Ok(next) ==> next.wf(),
{
}

/// The random byte matters to the random-number instruction alone.
pub proof fn law_random_only_for_random(s: MachineState, word: u16, r1: u8, r2: u8)
    requires
        !draws_random(word),
    ensures
        s.step(word, r1) == s.step(word, r2),
{
}

} // verus!
