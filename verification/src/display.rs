//! Drawing sprites on the display.
//!
//! The sprite is drawn pixel by pixel, row after row. The proof follows the
//! drawing: at every stage the display is the one it started from with the
//! pixels flipped that the sprite covers among those reached so far.
use vstd::prelude::*;
use crate::model::{lemma_pixel_index, pixel_index};
use crate::semantics::{collides, drawn, sprite_bit, sprite_covers};

verus! {

/// Whether the sprite has a set pixel on display position `p` among the
/// pixels that drawing has reached when it stands before column `col` of
/// sprite row `row`: the rows above `row`, and the columns of `row` left of
/// `col`.
spec fn covers_before(
    memory: Seq<u8>,
    index: int,
    row: int,
    col: int,
    left: int,
    top: int,
    p: int,
) -> bool {
    let c = (p % 64 - left) % 64;
    let r = (p / 64 - top) % 32;
    c < 8 && (r < row || (r == row && c < col)) && sprite_bit(memory[index + r], c as u8)
}

/// Whether a lit pixel was turned off among the pixels that drawing has
/// reached when it stands before column `col` of sprite row `row`.
spec fn collides_before(
    display: Seq<bool>,
    memory: Seq<u8>,
    index: int,
    row: int,
    col: int,
    left: int,
    top: int,
) -> bool {
    exists|p: int|
        0 <= p < 2048 && display[p] && #[trigger] covers_before(
            memory,
            index,
            row,
            col,
            left,
            top,
            p,
        )
}

/// Two stages of drawing that have reached the same set pixels have turned
/// off a lit pixel alike.
proof fn lemma_collides_alike(
    display: Seq<bool>,
    memory: Seq<u8>,
    index: int,
    left: int,
    top: int,
    row1: int,
    col1: int,
    row2: int,
    col2: int,
)
    requires
        forall|p: int|
            0 <= p < 2048 ==> covers_before(memory, index, row1, col1, left, top, p)
                == covers_before(memory, index, row2, col2, left, top, p),
    ensures
        collides_before(display, memory, index, row1, col1, left, top) == collides_before(
            display,
            memory,
            index,
            row2,
            col2,
            left,
            top,
        ),
{
    if collides_before(display, memory, index, row1, col1, left, top) {
        let p = choose|p: int|
            0 <= p < 2048 && display[p] && #[trigger] covers_before(
                memory,
                index,
                row1,
                col1,
                left,
                top,
                p,
            );
        assert(covers_before(memory, index, row2, col2, left, top, p));
    }
    if collides_before(display, memory, index, row2, col2, left, top) {
        let p = choose|p: int|
            0 <= p < 2048 && display[p] && #[trigger] covers_before(
                memory,
                index,
                row2,
                col2,
                left,
                top,
                p,
            );
        assert(covers_before(memory, index, row1, col1, left, top, p));
    }
}

/// Drawing one more pixel, the one in column `col` of sprite row `row`, which
/// falls on display position `at`: a lit pixel has been turned off after it
/// exactly if one had been before, or this pixel is set in the sprite and lit
/// on the display.
proof fn lemma_collides_step(
    display: Seq<bool>,
    memory: Seq<u8>,
    index: int,
    left: int,
    top: int,
    row: int,
    col: int,
    at: int,
)
    requires
        0 <= left < 256,
        0 <= top < 256,
        0 <= row < 32,
        0 <= col < 8,
        at == pixel_index(left + col, top + row),
    ensures
        0 <= at < 2048,
        !covers_before(memory, index, row, col, left, top, at),
        forall|p: int|
            0 <= p < 2048 ==> #[trigger] covers_before(memory, index, row, col + 1, left, top, p)
                == (covers_before(memory, index, row, col, left, top, p) || (p == at
                && sprite_bit(memory[index + row], col as u8))),
        collides_before(display, memory, index, row, col + 1, left, top) == (collides_before(
            display,
            memory,
            index,
            row,
            col,
            left,
            top,
        ) || (display[at] && sprite_bit(memory[index + row], col as u8))),
{
    lemma_pixel_index(left, top, col, row, at);
    assert forall|p: int| 0 <= p < 2048 implies #[trigger] covers_before(
        memory,
        index,
        row,
        col + 1,
        left,
        top,
        p,
    ) == (covers_before(memory, index, row, col, left, top, p) || (p == at && sprite_bit(
        memory[index + row],
        col as u8,
    ))) by {
        lemma_pixel_index(left, top, col, row, p);
    }
    if collides_before(display, memory, index, row, col + 1, left, top) {
        let p = choose|p: int|
            0 <= p < 2048 && display[p] && #[trigger] covers_before(
                memory,
                index,
                row,
                col + 1,
                left,
                top,
                p,
            );
        assert(covers_before(memory, index, row, col, left, top, p) || p == at);
    }
    if collides_before(display, memory, index, row, col, left, top) {
        let p = choose|p: int|
            0 <= p < 2048 && display[p] && #[trigger] covers_before(
                memory,
                index,
                row,
                col,
                left,
                top,
                p,
            );
        assert(covers_before(memory, index, row, col + 1, left, top, p));
    }
    if display[at] && sprite_bit(memory[index + row], col as u8) {
        assert(covers_before(memory, index, row, col + 1, left, top, at));
    }
}

/// Draws the sprite of `rows` rows found at `index` in `memory` with its top
/// left corner at column `left`, row `top`, and tells whether a lit pixel was
/// turned off.
pub(crate) fn draw_sprite(
    video: &mut [bool; 2048],
    memory: &[u8; 4096],
    index: u16,
    rows: u8,
    left: u8,
    top: u8,
) -> (hit: bool)
    requires
        rows < 16,
        rows > 0 ==> index + rows <= 4096,
    ensures
        final(video)@ == drawn(
            old(video)@,
            memory@,
            index as int,
            rows as int,
            left as int,
            top as int,
        ),
        hit == collides(
            old(video)@,
            memory@,
            index as int,
            rows as int,
            left as int,
            top as int,
        ),
{
    let ghost before = video@;
    let ghost mem = memory@;
    let ghost base = index as int;
    let ghost l = left as int;
    let ghost t = top as int;
    let mut hit: bool = false;
    let mut row: u8 = 0;
    while row < rows
        invariant
            row <= rows < 16,
            rows > 0 ==> index + rows <= 4096,
            before == old(video)@,
            mem == memory@,
            base == index,
            l == left,
            t == top,
            video@ == Seq::new(
                2048,
                |p: int| before[p] != covers_before(mem, base, row as int, 0, l, t, p),
            ),
            hit == collides_before(before, mem, base, row as int, 0, l, t),
        decreases rows - row,
    {
        let sprite: u8 = memory[index as usize + row as usize];
        let mut col: u8 = 0;
        while col < 8
            invariant
                row < rows < 16,
                col <= 8,
                index + rows <= 4096,
                before == old(video)@,
                mem == memory@,
                base == index,
                l == left,
                t == top,
                sprite == mem[base + row],
                video@ == Seq::new(
                    2048,
                    |p: int| before[p] != covers_before(mem, base, row as int, col as int, l, t, p),
                ),
                hit == collides_before(before, mem, base, row as int, col as int, l, t),
            decreases 8 - col,
        {
            let at: usize = (left as usize + col as usize) % 64 + ((top as usize + row as usize)
                % 32) * 64;
            proof {
                lemma_collides_step(before, mem, base, l, t, row as int, col as int, at as int);
            }
            if sprite & (0x80u8 >> col) != 0 {
                if video[at] {
                    hit = true;
                }
                video[at] = !video[at];
            }
            col = col + 1;
        }
        proof {
            lemma_collides_alike(before, mem, base, l, t, row as int, 8, row + 1, 0);
        }
        row = row + 1;
    }
    proof {
        assert(collides(before, mem, base, rows as int, l, t) == collides_before(
            before,
            mem,
            base,
            rows as int,
            0,
            l,
            t,
        )) by {
            if collides(before, mem, base, rows as int, l, t) {
                let p = choose|p: int|
                    0 <= p < 2048 && before[p] && #[trigger] sprite_covers(
                        mem,
                        base,
                        rows as int,
                        l,
                        t,
                        p,
                    );
                assert(covers_before(mem, base, rows as int, 0, l, t, p));
            }
            if collides_before(before, mem, base, rows as int, 0, l, t) {
                let p = choose|p: int|
                    0 <= p < 2048 && before[p] && #[trigger] covers_before(
                        mem,
                        base,
                        rows as int,
                        0,
                        l,
                        t,
                        p,
                    );
                assert(sprite_covers(mem, base, rows as int, l, t, p));
            }
        }
    }
    hit
}

} // verus!
