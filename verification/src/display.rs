//! The 64 by 32 monochrome screen and the drawing of sprites on it.
//!
//! The screen is stored row by row: the pixel in column `c` of row `r` is
//! cell `64 * r + c`. A sprite is a run of bytes, one per row, whose most
//! significant bit is the leftmost pixel. Drawing XORs the sprite onto the
//! screen and wraps around both edges.

use vstd::prelude::*;

verus! {

/// Pixels in one row of the screen.
pub const SCREEN_WIDTH: usize = 64;

/// Rows of the screen.
pub const SCREEN_HEIGHT: usize = 32;

/// A screen with every pixel off.
pub open spec fn blank_screen() -> Seq<bool> {
    Seq::new(2048, |cell: int| false)
}

/// Whether `byte`, read as a sprite row, has a pixel in `column`. Column 0
/// is the most significant bit.
pub open spec fn sprite_bit(byte: u8, column: int) -> bool {
    0 <= column < 8 && (byte >> ((7 - column) as u8)) & 1 == 1
}

/// Whether the sprite of `height` rows stored at `memory[index..]`, drawn
/// with its top left corner at column `x` and row `y`, has a pixel on the
/// screen cell at (`column`, `row`).
pub open spec fn sprite_covers(
    memory: Seq<u8>,
    index: int,
    height: int,
    x: int,
    y: int,
    column: int,
    row: int,
) -> bool {
    let across = (column - x) % 64;
    let down = (row - y) % 32;
    down < height && sprite_bit(memory[index + down], across)
}

/// The screen after the sprite has been XORed onto `screen`.
pub open spec fn drawn(
    screen: Seq<bool>,
    memory: Seq<u8>,
    index: int,
    height: int,
    x: int,
    y: int,
) -> Seq<bool> {
    Seq::new(
        2048,
        |cell: int| screen[cell] ^ sprite_covers(memory, index, height, x, y, cell % 64, cell / 64),
    )
}

/// Whether drawing the sprite onto `screen` turns some lit pixel off.
pub open spec fn collides(
    screen: Seq<bool>,
    memory: Seq<u8>,
    index: int,
    height: int,
    x: int,
    y: int,
) -> bool {
    exists|cell: int|
        0 <= cell < 2048 && screen[cell] && #[trigger] sprite_covers(
            memory,
            index,
            height,
            x,
            y,
            cell % 64,
            cell / 64,
        )
}

/// The screen cell on which the sprite pixel at (`column`, `row`) lands
/// when the sprite's top left corner is at column `x` and row `y`.
pub open spec fn target_cell(x: int, y: int, column: int, row: int) -> int {
    ((y + row) % 32) * 64 + (x + column) % 64
}

/// Whether the sprite has a pixel on `cell` once `rows` whole rows and the
/// first `columns` pixels of the next row have been drawn.
#[verifier::opaque]
spec fn partly_covers(
    memory: Seq<u8>,
    index: int,
    x: int,
    y: int,
    rows: int,
    columns: int,
    cell: int,
) -> bool {
    let across = (cell % 64 - x) % 64;
    let down = (cell / 64 - y) % 32;
    sprite_bit(memory[index + down], across) && (down < rows || (down == rows && across
        < columns))
}

/// The screen once `rows` whole rows and the first `columns` pixels of the
/// next row have been drawn.
spec fn partly_drawn(
    screen: Seq<bool>,
    memory: Seq<u8>,
    index: int,
    x: int,
    y: int,
    rows: int,
    columns: int,
) -> Seq<bool> {
    Seq::new(
        2048,
        |cell: int| screen[cell] ^ partly_covers(memory, index, x, y, rows, columns, cell),
    )
}

/// Whether the pixels drawn so far have turned a lit pixel off.
spec fn partly_collides(
    screen: Seq<bool>,
    memory: Seq<u8>,
    index: int,
    x: int,
    y: int,
    rows: int,
    columns: int,
) -> bool {
    exists|cell: int|
        0 <= cell < 2048 && screen[cell] && #[trigger] partly_covers(
            memory,
            index,
            x,
            y,
            rows,
            columns,
            cell,
        )
}

/// Before anything is drawn the screen is as it was.
proof fn lemma_nothing_drawn(screen: Seq<bool>, memory: Seq<u8>, index: int, x: int, y: int)
    requires
        screen.len() == 2048,
    ensures
        partly_drawn(screen, memory, index, x, y, 0, 0) == screen,
        !partly_collides(screen, memory, index, x, y, 0, 0),
{
    reveal(partly_covers);
    assert(partly_drawn(screen, memory, index, x, y, 0, 0) =~= screen);
}

/// One more pixel of a row covers at most the cell it lands on, which no
/// earlier pixel has reached.
proof fn lemma_one_more_cell(
    memory: Seq<u8>,
    index: int,
    x: int,
    y: int,
    row: int,
    column: int,
    cell: int,
)
    requires
        0 <= row < 32,
        0 <= column < 8,
        0 <= cell < 2048,
    ensures
        partly_covers(memory, index, x, y, row, column + 1, cell) == (partly_covers(
            memory,
            index,
            x,
            y,
            row,
            column,
            cell,
        ) || (sprite_bit(memory[index + row], column) && cell == target_cell(x, y, column, row))),
        cell == target_cell(x, y, column, row) ==> !partly_covers(
            memory,
            index,
            x,
            y,
            row,
            column,
            cell,
        ),
{
    reveal(partly_covers);
    let across = (cell % 64 - x) % 64;
    let down = (cell / 64 - y) % 32;
    let target = target_cell(x, y, column, row);
    assert(target % 64 == (x + column) % 64);
    assert(target / 64 == (y + row) % 32);
    if cell == target {
        assert(across == column);
        assert(down == row);
    } else if down == row && across == column {
        assert(cell % 64 == (x + column) % 64);
        assert(cell / 64 == (y + row) % 32);
    }
}

/// Drawing one more pixel of a row toggles the cell it lands on if the
/// sprite has that pixel, and collides if that cell was lit.
proof fn lemma_one_more_pixel(
    screen: Seq<bool>,
    memory: Seq<u8>,
    index: int,
    x: int,
    y: int,
    row: int,
    column: int,
)
    requires
        screen.len() == 2048,
        0 <= row < 32,
        0 <= column < 8,
    ensures
        ({
            let so_far = partly_drawn(screen, memory, index, x, y, row, column);
            let target = target_cell(x, y, column, row);
            let lit = sprite_bit(memory[index + row], column);
            &&& 0 <= target < 2048
            &&& partly_drawn(screen, memory, index, x, y, row, column + 1) == if lit {
                so_far.update(target, !so_far[target])
            } else {
                so_far
            }
            &&& partly_collides(screen, memory, index, x, y, row, column + 1) == (partly_collides(
                screen,
                memory,
                index,
                x,
                y,
                row,
                column,
            ) || (lit && so_far[target]))
        }),
{
    let so_far = partly_drawn(screen, memory, index, x, y, row, column);
    let further = partly_drawn(screen, memory, index, x, y, row, column + 1);
    let target = target_cell(x, y, column, row);
    let lit = sprite_bit(memory[index + row], column);
    assert forall|cell: int| 0 <= cell < 2048 implies further[cell] == (if lit && cell == target {
        !so_far[cell]
    } else {
        so_far[cell]
    }) by {
        lemma_one_more_cell(memory, index, x, y, row, column, cell);
    }
    assert(further =~= if lit {
        so_far.update(target, !so_far[target])
    } else {
        so_far
    });
    lemma_one_more_cell(memory, index, x, y, row, column, target);
    if partly_collides(screen, memory, index, x, y, row, column) {
        let cell = choose|cell: int|
            0 <= cell < 2048 && screen[cell] && #[trigger] partly_covers(
                memory,
                index,
                x,
                y,
                row,
                column,
                cell,
            );
        lemma_one_more_cell(memory, index, x, y, row, column, cell);
        assert(partly_covers(memory, index, x, y, row, column + 1, cell));
    }
    if lit && so_far[target] {
        assert(partly_covers(memory, index, x, y, row, column + 1, target));
    }
    if partly_collides(screen, memory, index, x, y, row, column + 1) {
        let cell = choose|cell: int|
            0 <= cell < 2048 && screen[cell] && #[trigger] partly_covers(
                memory,
                index,
                x,
                y,
                row,
                column + 1,
                cell,
            );
        lemma_one_more_cell(memory, index, x, y, row, column, cell);
        if partly_covers(memory, index, x, y, row, column, cell) {
            assert(partly_collides(screen, memory, index, x, y, row, column));
        }
    }
}

/// A row whose eight pixels are drawn is a whole row.
proof fn lemma_row_complete(
    screen: Seq<bool>,
    memory: Seq<u8>,
    index: int,
    x: int,
    y: int,
    row: int,
)
    ensures
        partly_drawn(screen, memory, index, x, y, row, 8) == partly_drawn(
            screen,
            memory,
            index,
            x,
            y,
            row + 1,
            0,
        ),
        partly_collides(screen, memory, index, x, y, row, 8) == partly_collides(
            screen,
            memory,
            index,
            x,
            y,
            row + 1,
            0,
        ),
{
    reveal(partly_covers);
    assert forall|cell: int|
        partly_covers(memory, index, x, y, row, 8, cell) == partly_covers(
            memory,
            index,
            x,
            y,
            row + 1,
            0,
            cell,
        ) by {}
    assert(partly_drawn(screen, memory, index, x, y, row, 8) =~= partly_drawn(
        screen,
        memory,
        index,
        x,
        y,
        row + 1,
        0,
    ));
    if partly_collides(screen, memory, index, x, y, row, 8) {
        let cell = choose|cell: int|
            0 <= cell < 2048 && screen[cell] && #[trigger] partly_covers(
                memory,
                index,
                x,
                y,
                row,
                8,
                cell,
            );
        assert(partly_covers(memory, index, x, y, row + 1, 0, cell));
    }
    if partly_collides(screen, memory, index, x, y, row + 1, 0) {
        let cell = choose|cell: int|
            0 <= cell < 2048 && screen[cell] && #[trigger] partly_covers(
                memory,
                index,
                x,
                y,
                row + 1,
                0,
                cell,
            );
        assert(partly_covers(memory, index, x, y, row, 8, cell));
    }
}

/// Once every row is drawn the whole sprite is on the screen.
proof fn lemma_sprite_complete(
    screen: Seq<bool>,
    memory: Seq<u8>,
    index: int,
    x: int,
    y: int,
    height: int,
)
    ensures
        partly_drawn(screen, memory, index, x, y, height, 0) == drawn(
            screen,
            memory,
            index,
            height,
            x,
            y,
        ),
        partly_collides(screen, memory, index, x, y, height, 0) == collides(
            screen,
            memory,
            index,
            height,
            x,
            y,
        ),
{
    reveal(partly_covers);
    assert forall|cell: int|
        partly_covers(memory, index, x, y, height, 0, cell) == sprite_covers(
            memory,
            index,
            height,
            x,
            y,
            cell % 64,
            cell / 64,
        ) by {}
    assert(partly_drawn(screen, memory, index, x, y, height, 0) =~= drawn(
        screen,
        memory,
        index,
        height,
        x,
        y,
    ));
    if partly_collides(screen, memory, index, x, y, height, 0) {
        let cell = choose|cell: int|
            0 <= cell < 2048 && screen[cell] && #[trigger] partly_covers(
                memory,
                index,
                x,
                y,
                height,
                0,
                cell,
            );
        assert(sprite_covers(memory, index, height, x, y, cell % 64, cell / 64));
    }
    if collides(screen, memory, index, height, x, y) {
        let cell = choose|cell: int|
            0 <= cell < 2048 && screen[cell] && #[trigger] sprite_covers(
                memory,
                index,
                height,
                x,
                y,
                cell % 64,
                cell / 64,
            );
        assert(partly_covers(memory, index, x, y, height, 0, cell));
    }
}

/// Tests one pixel of a sprite row.
fn sprite_bit_set(byte: u8, column: u8) -> (set: bool)
    requires
        column < 8,
    ensures
        set == sprite_bit(byte, column as int),
{
    (byte >> (7 - column)) & 1 == 1
}

/// Turns every pixel of `screen` off.
pub fn clear_screen(screen: &mut [bool; 2048])
    ensures
        final(screen)@ == blank_screen(),
{
    let mut cell: usize = 0;
    while cell < 2048
        invariant
            cell <= 2048,
            forall|done: int| 0 <= done < cell ==> screen@[done] == false,
        decreases 2048 - cell,
    {
        screen[cell] = false;
        cell += 1;
    }
}

/// XORs the sprite of `height` rows stored at `memory[index..]` onto
/// `screen`, with its top left corner at column `x` and row `y`, wrapping
/// around both edges. Returns whether a lit pixel was turned off.
pub fn draw_sprite(
    screen: &mut [bool; 2048],
    memory: &[u8; 4096],
    index: usize,
    height: u8,
    x: u8,
    y: u8,
) -> (collision: bool)
    requires
        height <= 32,
        index + height <= 4096,
    ensures
        final(screen)@ == drawn(
            old(screen)@,
            memory@,
            index as int,
            height as int,
            x as int,
            y as int,
        ),
        collision == collides(
            old(screen)@,
            memory@,
            index as int,
            height as int,
            x as int,
            y as int,
        ),
{
    let ghost before = screen@;
    let ghost sprite = memory@;
    let ghost at = index as int;
    let ghost left = x as int;
    let ghost top = y as int;
    let mut collision = false;
    let mut row: u8 = 0;
    proof {
        lemma_nothing_drawn(before, sprite, at, left, top);
    }
    while row < height
        invariant
            row <= height <= 32,
            index + height <= 4096,
            sprite == memory@,
            at == index,
            left == x,
            top == y,
            before.len() == 2048,
            screen@ == partly_drawn(before, sprite, at, left, top, row as int, 0),
            collision == partly_collides(before, sprite, at, left, top, row as int, 0),
        decreases height - row,
    {
        let byte: u8 = memory[index + row as usize];
        let line: usize = (y as usize + row as usize) % SCREEN_HEIGHT;
        let mut column: u8 = 0;
        while column < 8
            invariant
                column <= 8,
                row < height <= 32,
                before.len() == 2048,
                byte == sprite[at + row],
                line == (top + row) % 32,
                left == x,
                screen@ == partly_drawn(before, sprite, at, left, top, row as int, column as int),
                collision == partly_collides(
                    before,
                    sprite,
                    at,
                    left,
                    top,
                    row as int,
                    column as int,
                ),
            decreases 8 - column,
        {
            proof {
                lemma_one_more_pixel(before, sprite, at, left, top, row as int, column as int);
            }
            if sprite_bit_set(byte, column) {
                let target: usize = line * SCREEN_WIDTH + (x as usize + column as usize)
                    % SCREEN_WIDTH;
                collision = collision || screen[target];
                screen[target] = !screen[target];
            }
            column += 1;
        }
        proof {
            lemma_row_complete(before, sprite, at, left, top, row as int);
        }
        row += 1;
    }
    proof {
        lemma_sprite_complete(before, sprite, at, left, top, height as int);
    }
    collision
}

} // verus!
