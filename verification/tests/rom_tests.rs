use redwhite::error::{Error, ResultContext};
use redwhite::ines::{copy_range, Header, Ines};
use redwhite::palette::{palette_at, palette_from_bytes, Rgb};

fn rom_bytes(n_prg: u8, n_chr: u8) -> Vec<u8> {
    let mut bytes = vec![0x4e, 0x45, 0x53, 0x1a, n_prg, n_chr, 0x61, 0x72, 0x03, 0x94, 0xa5];
    for i in 0..(n_prg as usize * 16384) {
        bytes.push((i % 251) as u8);
    }
    for i in 0..(n_chr as usize * 8192) {
        bytes.push((i % 241) as u8 ^ 0xff);
    }
    bytes
}

#[test]
fn error_keeps_its_message() {
    let error = Error::new("boom".to_string());
    assert_eq!(error.message(), "boom");
}

#[test]
fn context_goes_in_front_of_the_message() {
    let failed: Result<u8, Error> = Err(Error::new("no such file".to_string()));
    let with_context = failed.context("open rom".to_string());
    assert_eq!(with_context.unwrap_err().message(), "open rom: no such file");
}

#[test]
fn context_leaves_a_value_alone() {
    let fine: Result<u8, Error> = Ok(7);
    assert_eq!(fine.context("open rom".to_string()).unwrap(), 7);
}

#[test]
fn rom_image_is_split_into_header_and_roms() {
    let bytes = rom_bytes(2, 1);
    let rom = Ines::from_bytes(&bytes).unwrap();
    assert_eq!(
        rom.header,
        Header {
            n_prgrom: 2,
            n_chrrom: 1,
            flag6: 0x61,
            flag7: 0x72,
            n_prgram: 0x03,
            flag9: 0x94,
            flag10: 0xa5,
        }
    );
    assert_eq!(rom.prgrom.len(), 32768);
    assert_eq!(rom.chrrom.len(), 8192);
    assert_eq!(&rom.prgrom[..], &bytes[11..11 + 32768]);
    assert_eq!(&rom.chrrom[..], &bytes[11 + 32768..]);
}

#[test]
fn rom_image_without_roms() {
    let bytes = rom_bytes(0, 0);
    let rom = Ines::from_bytes(&bytes).unwrap();
    assert!(rom.prgrom.is_empty());
    assert!(rom.chrrom.is_empty());
}

#[test]
fn rom_image_ignores_what_follows() {
    let mut bytes = rom_bytes(1, 1);
    bytes.extend_from_slice(&[1, 2, 3]);
    let rom = Ines::from_bytes(&bytes).unwrap();
    assert_eq!(rom.prgrom.len(), 16384);
    assert_eq!(rom.chrrom.len(), 8192);
    assert_eq!(rom.chrrom[8191], bytes[11 + 16384 + 8191]);
}

#[test]
fn rom_image_with_a_wrong_mark_is_refused() {
    let mut bytes = rom_bytes(1, 1);
    bytes[3] = 0x1b;
    assert_eq!(Ines::from_bytes(&bytes).unwrap_err().message(), "not a NES file");
    let mut bytes = rom_bytes(1, 1);
    bytes[0] = b'M';
    assert_eq!(Ines::from_bytes(&bytes).unwrap_err().message(), "not a NES file");
}

#[test]
fn rom_image_that_ends_early_is_refused() {
    let bytes = rom_bytes(1, 1);
    assert_eq!(
        Ines::from_bytes(&bytes[..bytes.len() - 1]).unwrap_err().message(),
        "failed to fill whole buffer"
    );
    assert_eq!(
        Ines::from_bytes(&bytes[..10]).unwrap_err().message(),
        "failed to fill whole buffer"
    );
    assert_eq!(Ines::from_bytes(&[]).unwrap_err().message(), "failed to fill whole buffer");
    assert!(Ines::from_bytes(&bytes[..11]).is_err());
}

#[test]
fn ranges_are_copied() {
    let bytes = [1u8, 2, 3, 4, 5];
    assert_eq!(copy_range(&bytes, 1, 4), vec![2, 3, 4]);
    assert_eq!(copy_range(&bytes, 0, 5), vec![1, 2, 3, 4, 5]);
    assert_eq!(copy_range(&bytes, 2, 2), Vec::<u8>::new());
}

#[test]
fn palettes_are_read_color_by_color() {
    let bytes: Vec<u8> = (0..192u16).map(|i| i as u8).collect();
    let set = palette_from_bytes(&bytes).unwrap();
    assert_eq!(set[0][0], Rgb { r: 0, g: 1, b: 2 });
    assert_eq!(set[0][15], Rgb { r: 45, g: 46, b: 47 });
    assert_eq!(set[1][0], Rgb { r: 48, g: 49, b: 50 });
    assert_eq!(set[3][15], Rgb { r: 189, g: 190, b: 191 });
    for i in 0..4 {
        for j in 0..16 {
            let at = (i * 48 + j * 3) as u8;
            assert_eq!(set[i][j], Rgb { r: at, g: at + 1, b: at + 2 });
        }
    }
}

#[test]
fn palettes_ignore_what_follows() {
    let bytes = vec![9u8; 200];
    let set = palette_from_bytes(&bytes).unwrap();
    assert_eq!(set[3][15], Rgb { r: 9, g: 9, b: 9 });
}

#[test]
fn palette_file_that_ends_early_is_refused() {
    let bytes = vec![0u8; 191];
    assert_eq!(
        palette_from_bytes(&bytes).unwrap_err().message(),
        "failed to fill whole buffer"
    );
    assert!(palette_from_bytes(&[]).is_err());
}

#[test]
fn one_palette_read_from_the_middle() {
    let bytes: Vec<u8> = (0..60u8).collect();
    let palette = palette_at(&bytes, 12);
    assert_eq!(palette[0], Rgb { r: 12, g: 13, b: 14 });
    assert_eq!(palette[15], Rgb { r: 57, g: 58, b: 59 });
}
