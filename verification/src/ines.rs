use vstd::prelude::*;
use vstd::string::StringExecFns;
use crate::error::Error;

verus! {

/// The bytes of a header.
pub const HEADER_SIZE: usize = 11;

/// The bytes of one unit of program ROM.
pub const PRG_UNIT: usize = 16384;

/// The bytes of one unit of character ROM.
pub const CHR_UNIT: usize = 8192;

/// The header of a ROM image.
#[derive(Clone, Copy, PartialEq, Eq, Structural, Debug)]
pub struct Header {
    /// Size of the program ROM in units of 16 KB.
    pub n_prgrom: u8,
    /// Size of the character ROM in units of 8 KB.
    pub n_chrrom: u8,
    pub flag6: u8,
    pub flag7: u8,
    /// Size of the program RAM in units of 8 KB.
    pub n_prgram: u8,
    pub flag9: u8,
    pub flag10: u8,
}

/// A ROM image: the header and the two ROMs that it announces.
#[derive(Debug)]
pub struct Ines {
    pub header: Header,
    pub prgrom: Vec<u8>,
    pub chrrom: Vec<u8>,
}

/// Whether the bytes begin with the four bytes that mark a ROM image.
pub open spec fn has_magic(bytes: Seq<u8>) -> bool {
    &&& bytes.len() >= 4
    &&& bytes[0] == 0x4e
    &&& bytes[1] == 0x45
    &&& bytes[2] == 0x53
    &&& bytes[3] == 0x1a
}

/// The header that stands in the first eleven bytes.
pub open spec fn header_of(bytes: Seq<u8>) -> Header
    recommends
        bytes.len() >= 11,
{
    Header {
        n_prgrom: bytes[4],
        n_chrrom: bytes[5],
        flag6: bytes[6],
        flag7: bytes[7],
        n_prgram: bytes[8],
        flag9: bytes[9],
        flag10: bytes[10],
    }
}

/// The length of the program ROM that a header announces.
pub open spec fn prg_len(header: Header) -> int {
    header.n_prgrom * 16384
}

/// The length of the character ROM that a header announces.
pub open spec fn chr_len(header: Header) -> int {
    header.n_chrrom * 8192
}

/// Whether the bytes hold all that their header announces.
pub open spec fn is_complete(bytes: Seq<u8>) -> bool {
    &&& bytes.len() >= 11
    &&& bytes.len() >= 11 + prg_len(header_of(bytes)) + chr_len(header_of(bytes))
}

/// What is said of bytes that end too early.
pub open spec fn too_short() -> Seq<char> {
    "failed to fill whole buffer"@
}

/// What is said of bytes that do not begin as a ROM image does.
pub open spec fn not_a_rom() -> Seq<char> {
    "not a NES file"@
}

/// Copies `bytes[from..to]` into a vector.
pub fn copy_range(bytes: &[u8], from: usize, to: usize) -> (copy: Vec<u8>)
    requires
        from <= to <= bytes.len(),
    ensures
        copy@ == bytes@.subrange(from as int, to as int),
{
    let mut copy: Vec<u8> = Vec::new();
    let mut i: usize = from;
    while i < to
        invariant
            from <= i <= to <= bytes.len(),
            copy@ == bytes@.subrange(from as int, i as int),
        decreases to - i,
    {
        copy.push(bytes[i]);
        i += 1;
        assert(copy@ =~= bytes@.subrange(from as int, i as int));
    }
    copy
}

impl Ines {
    /// Both ROMs have the length that the header announces.
    pub open spec fn wf(&self) -> bool {
        &&& self.prgrom@.len() == prg_len(self.header)
        &&& self.chrrom@.len() == chr_len(self.header)
    }

    /// Reads a ROM image: the header in eleven bytes, behind it the program
    /// ROM and then the character ROM. Bytes behind those are not looked at.
    /// Bytes that end before the header or the ROMs do are refused, and so
    /// are bytes that do not begin with the mark of a ROM image.
    pub fn from_bytes(bytes: &[u8]) -> (r: Result<Ines, Error>)
        ensures
            r is Ok <==> has_magic(bytes@) && is_complete(bytes@),
            r matches Ok(rom) ==> {
                &&& rom.wf()
                &&& rom.header == header_of(bytes@)
                &&& rom.prgrom@ == bytes@.subrange(11, 11 + prg_len(rom.header))
                &&& rom.chrrom@ == bytes@.subrange(
                    11 + prg_len(rom.header),
                    11 + prg_len(rom.header) + chr_len(rom.header),
                )
            },
            r matches Err(error) ==> error@ == if bytes@.len() >= 11 && !has_magic(bytes@) {
                not_a_rom()
            } else {
                too_short()
            },
    {
        if bytes.len() < HEADER_SIZE {
            return Err(Error::new(String::from_str("failed to fill whole buffer")));
        }
        if bytes[0] != 0x4e || bytes[1] != 0x45 || bytes[2] != 0x53 || bytes[3] != 0x1a {
            return Err(Error::new(String::from_str("not a NES file")));
        }
        let header = Header {
            n_prgrom: bytes[4],
            n_chrrom: bytes[5],
            flag6: bytes[6],
            flag7: bytes[7],
            n_prgram: bytes[8],
            flag9: bytes[9],
            flag10: bytes[10],
        };
        let prg_end: usize = HEADER_SIZE + header.n_prgrom as usize * PRG_UNIT;
        let chr_end: usize = prg_end + header.n_chrrom as usize * CHR_UNIT;
        if bytes.len() < chr_end {
            return Err(Error::new(String::from_str("failed to fill whole buffer")));
        }
        let prgrom = copy_range(bytes, HEADER_SIZE, prg_end);
        let chrrom = copy_range(bytes, prg_end, chr_end);
        Ok(Ines { header, prgrom, chrrom })
    }
}

} // verus!
