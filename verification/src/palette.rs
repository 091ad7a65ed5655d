use vstd::prelude::*;
use vstd::string::StringExecFns;
use crate::error::Error;

verus! {

/// The colors of one palette.
pub const NCOLOR: usize = 16;

/// The palettes of one file.
pub const NPALETTE: usize = 4;

/// The bytes of one palette: three for each color.
pub const PALETTE_SIZE: usize = 48;

/// A color by its red, green and blue parts.
#[derive(Clone, Copy, PartialEq, Eq, Structural, Debug)]
pub struct Rgb {
    pub r: u8,
    pub g: u8,
    pub b: u8,
}

pub type Palette = [Rgb; 16];

pub type PaletteSet = [Palette; 4];

/// The color number `color` of palette number `palette` in the bytes of a
/// palette file: its three bytes stand one after another, color after
/// color, palette after palette.
pub open spec fn color_at(bytes: Seq<u8>, palette: int, color: int) -> Rgb {
    Rgb {
        r: bytes[palette * 48 + color * 3],
        g: bytes[palette * 48 + color * 3 + 1],
        b: bytes[palette * 48 + color * 3 + 2],
    }
}

/// Reads the palette that begins at `bytes[start]`.
pub fn palette_at(bytes: &[u8], start: usize) -> (pal: Palette)
    requires
        start + 48 <= bytes.len(),
    ensures
        forall|j: int|
            0 <= j < 16 ==> #[trigger] pal@[j] == (Rgb {
                r: bytes@[start + j * 3],
                g: bytes@[start + j * 3 + 1],
                b: bytes@[start + j * 3 + 2],
            }),
{
    let mut pal: Palette = [Rgb { r: 255, g: 255, b: 255 };16];
    let mut j: usize = 0;
    while j < NCOLOR
        invariant
            j <= 16,
            start + 48 <= bytes.len(),
            forall|k: int|
                0 <= k < j ==> #[trigger] pal@[k] == (Rgb {
                    r: bytes@[start + k * 3],
                    g: bytes@[start + k * 3 + 1],
                    b: bytes@[start + k * 3 + 2],
                }),
        decreases 16 - j,
    {
        let at: usize = start + j * 3;
        pal[j] = Rgb { r: bytes[at], g: bytes[at + 1], b: bytes[at + 2] };
        j += 1;
    }
    pal
}

/// Reads four palettes of sixteen colors from the first 192 bytes. Bytes
/// behind those are not looked at; fewer bytes are refused.
pub fn palette_from_bytes(bytes: &[u8]) -> (r: Result<PaletteSet, Error>)
    ensures
        r is Ok <==> bytes@.len() >= 192,
        r matches Ok(set) ==> forall|i: int, j: int|
            0 <= i < 4 && 0 <= j < 16 ==> #[trigger] set@[i]@[j] == color_at(bytes@, i, j),
        r matches Err(error) ==> error@ == "failed to fill whole buffer"@,
{
    if bytes.len() < NPALETTE * PALETTE_SIZE {
        return Err(Error::new(String::from_str("failed to fill whole buffer")));
    }
    let mut set: PaletteSet = [[Rgb { r: 255, g: 255, b: 255 };16];4];
    let mut i: usize = 0;
    while i < NPALETTE
        invariant
            i <= 4,
            bytes.len() >= 192,
            forall|p: int, j: int|
                0 <= p < i && 0 <= j < 16 ==> #[trigger] set@[p]@[j] == color_at(bytes@, p, j),
        decreases 4 - i,
    {
        let pal = palette_at(bytes, i * PALETTE_SIZE);
        set[i] = pal;
        i += 1;
    }
    Ok(set)
}

} // verus!
