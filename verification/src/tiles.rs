use vstd::prelude::*;
use crate::ines::Ines;
use crate::Tile;

verus! {

/// Bit number `col` of one plane of a tile row.
pub open spec fn plane_bit(byte: u8, col: u32) -> u32 {
    (byte as u32 >> col) & 1
}

/// The four bits that a tile row holds for its pixel number `col`.
pub open spec fn pixel_of(row: u32, col: u32) -> u32 {
    (row >> (4 * col)) & 0xf
}

/// The color number of pixel `col` of a row whose two planes are `lo` and
/// `hi`: the bit of the high plane counts two, that of the low plane one.
pub open spec fn color_of(lo: u8, hi: u8, col: u32) -> u32 {
    (2 * plane_bit(hi, col) + plane_bit(lo, col)) as u32
}

/// What putting the color `color` at pixel `col` does to a row that holds
/// nothing from that pixel on.
proof fn lemma_place_pixel(row: u32, col: u32, color: u32, other: u32)
    requires
        col < 8,
        other < 8,
        color < 4,
        row >> (4 * col) == 0,
    ensures
        other < col ==> pixel_of(row | color << (4 * col), other) == pixel_of(row, other),
        other == col ==> pixel_of(row | color << (4 * col), other) == color,
        col < 7 ==> (row | color << (4 * col)) >> (4 * (col + 1)) == 0,
{
    assert(other < col ==> ((row | color << (4 * col)) >> (4 * other)) & 0xf == (row >> (4
        * other)) & 0xf) by (bit_vector)
        requires
            col < 8,
            other < 8,
            color < 4,
            row >> (4 * col) == 0,
    ;
    assert(other == col ==> ((row | color << (4 * col)) >> (4 * other)) & 0xf == color)
        by (bit_vector)
        requires
            col < 8,
            other < 8,
            color < 4,
            row >> (4 * col) == 0,
    ;
    assert(col < 7 ==> (row | color << (4 * col)) >> (4 * (col + 1)) == 0) by (bit_vector)
        requires
            col < 8,
            color < 4,
            row >> (4 * col) == 0,
    ;
}

/// The color number that two plane bytes give pixel `col`.
pub fn color_index(lo: u8, hi: u8, col: u32) -> (color: u32)
    requires
        col < 8,
    ensures
        color == color_of(lo, hi, col),
        color < 4,
{
    let hi_wide: u32 = hi as u32;
    let lo_wide: u32 = lo as u32;
    let hi_bit: u32 = (hi_wide >> col) & 1;
    let lo_bit: u32 = (lo_wide >> col) & 1;
    assert((hi_wide >> col) & 1 < 2 && (lo_wide >> col) & 1 < 2) by (bit_vector);
    assert((hi_bit << 1) | lo_bit == 2 * hi_bit + lo_bit && (hi_bit << 1) | lo_bit < 4)
        by (bit_vector)
        requires
            hi_bit < 2,
            lo_bit < 2,
    ;
    (hi_bit << 1) | lo_bit
}

/// Merges the two planes of a row: each pixel gets four bits, which hold
/// its color number.
pub fn tile_row(lo: u8, hi: u8) -> (row: u32)
    ensures
        forall|col: u32| col < 8 ==> #[trigger] pixel_of(row, col) == color_of(lo, hi, col),
{
    let mut row: u32 = 0;
    let mut col: u32 = 0;
    assert(0u32 >> 0u32 == 0) by (bit_vector);
    while col < 8
        invariant
            col <= 8,
            col < 8 ==> row >> (4 * col) == 0,
            forall|k: u32| k < col ==> #[trigger] pixel_of(row, k) == color_of(lo, hi, k),
        decreases 8 - col,
    {
        let color = color_index(lo, hi, col);
        let ghost before = row;
        row |= color << (col * 4);
        assert forall|k: u32| k < col + 1 implies #[trigger] pixel_of(row, k) == color_of(
            lo,
            hi,
            k,
        ) by {
            lemma_place_pixel(before, col, color, k);
        }
        proof {
            lemma_place_pixel(before, col, color, col);
        }
        col += 1;
    }
    row
}

/// What a tile has to hold to show the sixteen bytes at `bytes[start]`:
/// the first eight are the low plane of its rows, the last eight the high
/// plane.
pub open spec fn shows(tile: Tile, bytes: Seq<u8>, start: int) -> bool {
    forall|i: int, col: u32|
        0 <= i < 8 && col < 8 ==> #[trigger] pixel_of(tile@[i], col) == color_of(
            bytes[start + i],
            bytes[start + i + 8],
            col,
        )
}

/// Builds the tile that the sixteen bytes at `bytes[start]` describe.
pub fn make_tile(bytes: &[u8], start: usize) -> (tile: Tile)
    requires
        start + 16 <= bytes.len(),
    ensures
        shows(tile, bytes@, start as int),
{
    let mut tile: Tile = [0;8];
    let mut i: usize = 0;
    while i < 8
        invariant
            i <= 8,
            start + 16 <= bytes.len(),
            forall|r: int, col: u32|
                0 <= r < i && col < 8 ==> #[trigger] pixel_of(tile@[r], col) == color_of(
                    bytes@[start + r],
                    bytes@[start + r + 8],
                    col,
                ),
        decreases 8 - i,
    {
        tile[i] = tile_row(bytes[start + i], bytes[start + i + 8]);
        i += 1;
    }
    tile
}

/// Builds the tiles of a character ROM, one from every sixteen bytes, in
/// the order of the ROM.
pub fn make_tiles(rom: &Ines) -> (tiles: Vec<Tile>)
    requires
        rom.chrrom@.len() % 16 == 0,
    ensures
        tiles@.len() == rom.chrrom@.len() / 16,
        forall|t: int| 0 <= t < tiles@.len() ==> shows(#[trigger] tiles@[t], rom.chrrom@, 16 * t),
{
    let n: usize = rom.chrrom.len() / 16;
    assert(n * 16 == rom.chrrom@.len());
    let mut tiles: Vec<Tile> = Vec::with_capacity(n);
    let mut t: usize = 0;
    while t < n
        invariant
            t <= n,
            n * 16 == rom.chrrom@.len(),
            n * 16 <= usize::MAX,
            tiles@.len() == t,
            forall|k: int| 0 <= k < t ==> shows(#[trigger] tiles@[k], rom.chrrom@, 16 * k),
        decreases n - t,
    {
        let tile = make_tile(rom.chrrom.as_slice(), t * 16);
        tiles.push(tile);
        t += 1;
    }
    tiles
}

} // verus!
