use vstd::prelude::*;
use vstd::string::StringExecFns;
use crate::error::Error;
use crate::tiles::pixel_of;
use crate::Tile;
use crate::PATTAB_TILES;
use crate::PX_SCALE;
use crate::TILE_SIZE_PX;

verus! {

/// The side of a tile on the screen.
pub const TILE_SIDE: i32 = 24;

/// The tiles in one row of a pattern table half.
pub const TILES_ACROSS: usize = 16;

/// A square on the screen that shows one pixel of a tile.
#[derive(Clone, Copy, PartialEq, Eq, Structural, Debug)]
pub struct Dot {
    pub x: i32,
    pub y: i32,
    pub side: u32,
    /// The color number of the pixel.
    pub color: u32,
}

/// Where a tile of a pattern table goes on the screen.
#[derive(Clone, Copy, PartialEq, Eq, Structural, Debug)]
pub struct Placement {
    /// The number of the tile among all tiles.
    pub tile: usize,
    pub x: i32,
    pub y: i32,
}

/// The square for the pixel in row `row` that holds the bits number `col`
/// of a tile drawn at `(x, y)`: the highest bits are the leftmost pixel.
pub open spec fn dot_of(tile: Tile, x: i32, y: i32, row: int, col: int) -> Dot {
    Dot {
        x: (x + (7 - col) * 3) as i32,
        y: (y + row * 3) as i32,
        side: 3,
        color: pixel_of(tile@[row], col as u32),
    }
}

/// The place of the tile in row `row` and column `col` of one half of the
/// pattern table that starts at tile `first`. The left half holds the
/// first 256 tiles, the right half the others.
pub open spec fn placement_of(first: int, right: bool, row: int, col: int) -> Placement {
    Placement {
        tile: (first + row * 16 + col + if right {
            256int
        } else {
            0int
        }) as usize,
        x: (col * 24 + if right {
            384int
        } else {
            0int
        }) as i32,
        y: (row * 24) as i32,
    }
}

/// The color number of one pixel of a tile.
pub fn pixel_color(tile: &Tile, row: usize, col: usize) -> (color: u32)
    requires
        row < 8,
        col < 8,
    ensures
        color == pixel_of(tile@[row as int], col as u32),
        color < 16,
{
    let bits: u32 = tile[row];
    let shift: u32 = col as u32 * 4;
    assert((bits >> shift) & 0xf < 16) by (bit_vector);
    (bits >> shift) & 0xf
}

/// The squares that show a tile drawn with its upper left corner at
/// `(x, y)`: row after row from the top, each from left to right.
pub fn tile_dots(tile: &Tile, x: i32, y: i32) -> (dots: Vec<Dot>)
    requires
        x + 21 <= i32::MAX,
        y + 21 <= i32::MAX,
    ensures
        dots@.len() == 64,
        forall|row: int, col: int|
            0 <= row < 8 && 0 <= col < 8 ==> #[trigger] dots@[row * 8 + (7 - col)] == dot_of(
                *tile,
                x,
                y,
                row,
                col,
            ),
{
    let mut dots: Vec<Dot> = Vec::with_capacity(64);
    let mut row: usize = 0;
    while row < TILE_SIZE_PX
        invariant
            row <= 8,
            x + 21 <= i32::MAX,
            y + 21 <= i32::MAX,
            dots@.len() == row * 8,
            forall|r: int, c: int|
                0 <= r < row && 0 <= c < 8 ==> #[trigger] dots@[r * 8 + (7 - c)] == dot_of(
                    *tile,
                    x,
                    y,
                    r,
                    c,
                ),
        decreases 8 - row,
    {
        let mut left: usize = 0;
        while left < TILE_SIZE_PX
            invariant
                row < 8,
                left <= 8,
                x + 21 <= i32::MAX,
                y + 21 <= i32::MAX,
                dots@.len() == row * 8 + left,
                forall|r: int, c: int|
                    0 <= r < row && 0 <= c < 8 ==> #[trigger] dots@[r * 8 + (7 - c)] == dot_of(
                        *tile,
                        x,
                        y,
                        r,
                        c,
                    ),
                forall|c: int|
                    8 - left <= c < 8 ==> #[trigger] dots@[row * 8 + (7 - c)] == dot_of(
                        *tile,
                        x,
                        y,
                        row as int,
                        c,
                    ),
            decreases 8 - left,
        {
            let col: usize = TILE_SIZE_PX - left - 1;
            let across: usize = left * PX_SCALE;
            let down: usize = row * PX_SCALE;
            let dot = Dot {
                x: x + across as i32,
                y: y + down as i32,
                side: PX_SCALE as u32,
                color: pixel_color(tile, row, col),
            };
            dots.push(dot);
            left += 1;
        }
        row += 1;
    }
    dots
}

/// Where the tiles of pattern table number `table_id` go, of `n_tiles`
/// tiles in whole tables of 512: sixteen rows, in each the sixteen tiles of
/// the left half and the sixteen of the right half by turns. A table that
/// the tiles do not reach is refused.
pub fn table_layout(n_tiles: usize, table_id: usize) -> (r: Result<Vec<Placement>, Error>)
    requires
        n_tiles % 512 == 0,
    ensures
        r is Ok <==> table_id * 512 < n_tiles,
        r matches Ok(places) ==> {
            &&& places@.len() == 512
            &&& forall|row: int, col: int|
                0 <= row < 16 && 0 <= col < 16 ==> {
                    &&& #[trigger] places@[(row * 16 + col) * 2] == placement_of(
                        table_id * 512,
                        false,
                        row,
                        col,
                    )
                    &&& places@[(row * 16 + col) * 2 + 1] == placement_of(
                        table_id * 512,
                        true,
                        row,
                        col,
                    )
                }
        },
        r matches Err(error) ==> error@ == "invalid pattern table"@,
{
    if table_id >= n_tiles / PATTAB_TILES {
        return Err(Error::new(String::from_str("invalid pattern table")));
    }
    let first: usize = table_id * PATTAB_TILES;
    let mut places: Vec<Placement> = Vec::with_capacity(512);
    let mut row: usize = 0;
    while row < TILES_ACROSS
        invariant
            row <= 16,
            first == table_id * 512,
            first + 512 <= n_tiles,
            places@.len() == row * 32,
            forall|r: int, c: int|
                0 <= r < row && 0 <= c < 16 ==> {
                    &&& #[trigger] places@[(r * 16 + c) * 2] == placement_of(
                        first as int,
                        false,
                        r,
                        c,
                    )
                    &&& places@[(r * 16 + c) * 2 + 1] == placement_of(first as int, true, r, c)
                },
        decreases 16 - row,
    {
        let mut col: usize = 0;
        while col < TILES_ACROSS
            invariant
                row < 16,
                col <= 16,
                first == table_id * 512,
                first + 512 <= n_tiles,
                places@.len() == row * 32 + col * 2,
                forall|r: int, c: int|
                    0 <= r < row && 0 <= c < 16 ==> {
                        &&& #[trigger] places@[(r * 16 + c) * 2] == placement_of(
                            first as int,
                            false,
                            r,
                            c,
                        )
                        &&& places@[(r * 16 + c) * 2 + 1] == placement_of(
                            first as int,
                            true,
                            r,
                            c,
                        )
                    },
                forall|c: int|
                    0 <= c < col ==> {
                        &&& #[trigger] places@[(row * 16 + c) * 2] == placement_of(
                            first as int,
                            false,
                            row as int,
                            c,
                        )
                        &&& places@[(row * 16 + c) * 2 + 1] == placement_of(
                            first as int,
                            true,
                            row as int,
                            c,
                        )
                    },
            decreases 16 - col,
        {
            let x: i32 = (col * 24) as i32;
            let y: i32 = (row * 24) as i32;
            let index: usize = first + row * TILES_ACROSS + col;
            places.push(Placement { tile: index, x, y });
            places.push(Placement { tile: index + PATTAB_TILES / 2, x: x + 16 * TILE_SIDE, y });
            col += 1;
        }
        row += 1;
    }
    Ok(places)
}

/// The pattern table that follows `table_id` of `n_tables`; after the last
/// comes the first.
pub fn next_table(table_id: usize, n_tables: usize) -> (next: usize)
    requires
        table_id < n_tables,
    ensures
        next == if table_id + 1 == n_tables {
            0
        } else {
            table_id + 1
        },
        next < n_tables,
{
    if table_id == n_tables - 1 {
        0
    } else {
        table_id + 1
    }
}

/// The pattern table that goes before `table_id` of `n_tables`; before the
/// first comes the last.
pub fn previous_table(table_id: usize, n_tables: usize) -> (previous: usize)
    requires
        table_id < n_tables,
    ensures
        previous == if table_id == 0 {
            n_tables - 1
        } else {
            table_id - 1
        },
        previous < n_tables,
{
    if table_id == 0 {
        n_tables - 1
    } else {
        table_id - 1
    }
}

} // verus!
