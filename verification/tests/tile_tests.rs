use redwhite::ines::{Header, Ines};
use redwhite::layout::{
    next_table, pixel_color, previous_table, table_layout, tile_dots, Dot, Placement,
};
use redwhite::tiles::{color_index, make_tile, make_tiles, tile_row};
use redwhite::{Tile, PATTAB_TILES, PX_SCALE, TILE_SIZE_PX};

fn rom_with(chrrom: Vec<u8>) -> Ines {
    Ines {
        header: Header {
            n_prgrom: 0,
            n_chrrom: (chrrom.len() / 8192) as u8,
            flag6: 0,
            flag7: 0,
            n_prgram: 0,
            flag9: 0,
            flag10: 0,
        },
        prgrom: Vec::new(),
        chrrom,
    }
}

#[test]
fn constants() {
    assert_eq!(PX_SCALE, 3);
    assert_eq!(TILE_SIZE_PX, 8);
    assert_eq!(PATTAB_TILES, 512);
}

#[test]
fn color_index_joins_the_two_planes() {
    assert_eq!(color_index(0x00, 0x00, 0), 0);
    assert_eq!(color_index(0x01, 0x00, 0), 1);
    assert_eq!(color_index(0x00, 0x01, 0), 2);
    assert_eq!(color_index(0x01, 0x01, 0), 3);
    assert_eq!(color_index(0x80, 0x00, 7), 1);
    assert_eq!(color_index(0x7f, 0x80, 7), 2);
    assert_eq!(color_index(0x10, 0x10, 3), 0);
    assert_eq!(color_index(0x10, 0x10, 4), 3);
}

#[test]
fn tile_row_gives_each_pixel_four_bits() {
    assert_eq!(tile_row(0x00, 0x00), 0x0000_0000);
    assert_eq!(tile_row(0xff, 0x00), 0x1111_1111);
    assert_eq!(tile_row(0x00, 0xff), 0x2222_2222);
    assert_eq!(tile_row(0xff, 0xff), 0x3333_3333);
    assert_eq!(tile_row(0x01, 0x01), 0x0000_0003);
    assert_eq!(tile_row(0x80, 0x80), 0x3000_0000);
    assert_eq!(tile_row(0xa5, 0x0f), 0x1010_2323);
}

#[test]
fn tile_takes_its_planes_eight_bytes_apart() {
    let mut bytes = vec![0u8; 20];
    bytes[2] = 0xff;
    bytes[2 + 7] = 0x01;
    bytes[2 + 8] = 0x80;
    bytes[2 + 15] = 0x01;
    let tile = make_tile(&bytes, 2);
    assert_eq!(tile[0], 0x2111_1111 | 0x1000_0000);
    assert_eq!(tile[7], 0x0000_0003);
    for row in 1..7 {
        assert_eq!(tile[row], 0);
    }
}

#[test]
fn tiles_come_in_the_order_of_the_rom() {
    let mut chrrom = vec![0u8; 48];
    chrrom[0] = 0x01;
    chrrom[16 + 8] = 0x01;
    chrrom[32 + 7] = 0x80;
    chrrom[32 + 15] = 0x80;
    let tiles = make_tiles(&rom_with(chrrom));
    assert_eq!(tiles.len(), 3);
    assert_eq!(tiles[0], [1, 0, 0, 0, 0, 0, 0, 0]);
    assert_eq!(tiles[1], [2, 0, 0, 0, 0, 0, 0, 0]);
    assert_eq!(tiles[2], [0, 0, 0, 0, 0, 0, 0, 0x3000_0000]);
}

#[test]
fn no_bytes_give_no_tiles() {
    assert!(make_tiles(&rom_with(Vec::new())).is_empty());
}

#[test]
fn a_whole_character_rom_gives_512_tiles() {
    let tiles = make_tiles(&rom_with(vec![0xffu8; 8192]));
    assert_eq!(tiles.len(), 512);
    assert_eq!(tiles[511], [0x3333_3333; 8]);
}

#[test]
fn pixel_color_reads_four_bits() {
    let tile: Tile = [0x7654_3210, 0, 0, 0, 0, 0, 0, 0xf000_000a];
    assert_eq!(pixel_color(&tile, 0, 0), 0);
    assert_eq!(pixel_color(&tile, 0, 3), 3);
    assert_eq!(pixel_color(&tile, 0, 7), 7);
    assert_eq!(pixel_color(&tile, 7, 0), 0xa);
    assert_eq!(pixel_color(&tile, 7, 7), 0xf);
    assert_eq!(pixel_color(&tile, 3, 5), 0);
}

#[test]
fn dots_go_row_by_row_from_the_left() {
    let tile: Tile = [0x7654_3210, 0x0000_0001, 0, 0, 0, 0, 0, 0x2000_0000];
    let dots = tile_dots(&tile, 10, 20);
    assert_eq!(dots.len(), 64);
    assert_eq!(dots[0], Dot { x: 10, y: 20, side: 3, color: 7 });
    assert_eq!(dots[1], Dot { x: 13, y: 20, side: 3, color: 6 });
    assert_eq!(dots[7], Dot { x: 31, y: 20, side: 3, color: 0 });
    assert_eq!(dots[8], Dot { x: 10, y: 23, side: 3, color: 0 });
    assert_eq!(dots[15], Dot { x: 31, y: 23, side: 3, color: 1 });
    assert_eq!(dots[56], Dot { x: 10, y: 41, side: 3, color: 2 });
    assert_eq!(dots[63], Dot { x: 31, y: 41, side: 3, color: 0 });
}

#[test]
fn dots_at_a_negative_corner() {
    let tile: Tile = [0; 8];
    let dots = tile_dots(&tile, -100, -7);
    assert_eq!(dots[0], Dot { x: -100, y: -7, side: 3, color: 0 });
    assert_eq!(dots[63], Dot { x: -79, y: 14, side: 3, color: 0 });
}

#[test]
fn table_layout_puts_the_halves_side_by_side() {
    let places = table_layout(1024, 1).unwrap();
    assert_eq!(places.len(), 512);
    assert_eq!(places[0], Placement { tile: 512, x: 0, y: 0 });
    assert_eq!(places[1], Placement { tile: 768, x: 384, y: 0 });
    assert_eq!(places[2], Placement { tile: 513, x: 24, y: 0 });
    assert_eq!(places[3], Placement { tile: 769, x: 408, y: 0 });
    assert_eq!(places[30], Placement { tile: 527, x: 360, y: 0 });
    assert_eq!(places[32], Placement { tile: 528, x: 0, y: 24 });
    assert_eq!(places[511], Placement { tile: 1023, x: 744, y: 360 });
    let first = table_layout(1024, 0).unwrap();
    assert_eq!(first[0], Placement { tile: 0, x: 0, y: 0 });
    assert_eq!(first[511], Placement { tile: 511, x: 744, y: 360 });
}

#[test]
fn table_layout_refuses_a_table_that_is_not_there() {
    assert_eq!(table_layout(1024, 2).unwrap_err().message(), "invalid pattern table");
    assert_eq!(table_layout(0, 0).unwrap_err().message(), "invalid pattern table");
    assert_eq!(table_layout(512, usize::MAX).unwrap_err().message(), "invalid pattern table");
    assert!(table_layout(512, 0).is_ok());
}

#[test]
fn tables_go_round() {
    assert_eq!(next_table(0, 3), 1);
    assert_eq!(next_table(1, 3), 2);
    assert_eq!(next_table(2, 3), 0);
    assert_eq!(next_table(0, 1), 0);
    assert_eq!(previous_table(0, 3), 2);
    assert_eq!(previous_table(2, 3), 1);
    assert_eq!(previous_table(1, 3), 0);
    assert_eq!(previous_table(0, 1), 0);
}
