use machine::mmu::MMU;
use machine::ppu::colour::Colour;
use machine::ppu::colour::Colour::{Black, DarkGrey, LightGrey, White};
use machine::ppu::lcdc::{ObjectSize, TileData, TileMap, LCDC};
use machine::ppu::oam::{ObjPaletteType, Sprite, SpriteAttr, OAM};
use machine::ppu::palette::{BgWinPalette, ObjPalette};
use machine::ppu::screen::Screen;
use machine::ppu::status::{PpuMode, Status};
use machine::ppu::PPU;
use machine::util::Addr;

fn bus() -> MMU {
    MMU::new(None, vec![0u8; 0x8000]).unwrap()
}

/// Runs the bus until line `ly` has been drawn.
fn draw_line(mmu: &mut MMU, ly: u64) {
    mmu.tick(ly * 456 + 252);
}

fn put_sprite(mmu: &mut MMU, n: u16, y: u8, x: u8, tile: u8, attr: u8) {
    mmu.writeu8(Addr(0xfe00 + 4 * n), y);
    mmu.writeu8(Addr(0xfe00 + 4 * n + 1), x);
    mmu.writeu8(Addr(0xfe00 + 4 * n + 2), tile);
    mmu.writeu8(Addr(0xfe00 + 4 * n + 3), attr);
}

fn row(mmu: &MMU, y: u8, from: u8, n: u8) -> Vec<Colour> {
    (from..from + n).map(|x| mmu.ppu().screen().get(y, x)).collect()
}

#[test]
fn lcdc_round_trip() {
    for v in 0..=255u8 {
        assert_eq!(u8::from(LCDC::from(v)), v);
    }
    let l = LCDC::from(0b1001_0101);
    assert!(l.ppu_enable);
    assert_eq!(l.window_tile_map, TileMap::Low);
    assert!(!l.window_enable);
    assert_eq!(l.bg_window_tile_data, TileData::Low);
    assert_eq!(l.bg_tile_map, TileMap::Low);
    assert_eq!(l.object_size, ObjectSize::Long);
    assert!(!l.object_enable);
    assert!(l.bg_window_enable);
    assert_eq!(LCDC::default(), LCDC::from(0));
    assert_eq!(TileMap::High.addr(), Addr(0x9c00));
    assert_eq!(TileMap::Low.addr(), Addr(0x9800));
    assert_eq!(ObjectSize::Short.height(), 8);
    assert_eq!(ObjectSize::Long.height(), 16);
}

#[test]
fn palette_round_trip() {
    for v in 0..=255u8 {
        assert_eq!(u8::from(BgWinPalette::from(v)), v);
        assert_eq!(u8::from(ObjPalette::from(v)), v);
    }
    let p = BgWinPalette::from(0b00_01_10_11);
    assert_eq!(p.map(0), Ok(Colour::Black));
    assert_eq!(p.map(1), Ok(Colour::DarkGrey));
    assert_eq!(p.map(2), Ok(Colour::LightGrey));
    assert_eq!(p.map(3), Ok(Colour::White));
    assert_eq!(p.map(4), Err(4));
    let o = ObjPalette::from(0b00_01_10_11);
    assert_eq!(o.map(0), Ok(Colour::Transparent));
    assert_eq!(o.map(1), Ok(Colour::DarkGrey));
    assert_eq!(o.map(3), Ok(Colour::White));
    assert_eq!(o.map(200), Err(200));
    assert_eq!(BgWinPalette::default(), BgWinPalette::from(0));
    assert_eq!(ObjPalette::default(), ObjPalette::from(0));
}

#[test]
fn colours() {
    assert_eq!(Colour::try_from(0), Ok(Colour::White));
    assert_eq!(Colour::try_from(3), Ok(Colour::Black));
    assert_eq!(Colour::try_from(4), Ok(Colour::Transparent));
    assert_eq!(Colour::try_from(5), Err(()));
    assert_eq!(Colour::DarkGrey.index(), 2);
    assert_eq!(Colour::White.to_u32(), 0x00ff_ffff);
    assert_eq!(Colour::LightGrey.to_u32(), 0x00c0_c0c0);
    assert_eq!(Colour::DarkGrey.to_u32(), 0x0060_6060);
    assert_eq!(Colour::Black.to_u32(), 0);
    assert_eq!(Colour::Transparent.bitor(Colour::DarkGrey), Colour::DarkGrey);
    assert_eq!(Colour::Black.bitor(Colour::White), Colour::Black);
    assert_eq!(Colour::from_bits(true, false), Colour::DarkGrey);
}

#[test]
fn status_and_modes() {
    assert_eq!(PpuMode::try_from(2), Ok(PpuMode::OAMSearch));
    assert_eq!(PpuMode::try_from(4), Err(()));
    assert_eq!(PpuMode::VBlank.number(), 1);
    assert_eq!(PpuMode::OAMSearch.ticks() + PpuMode::PixelTransfer.ticks() + PpuMode::HBlank.ticks(), 456);
    assert_eq!(PpuMode::VBlank.ticks(), 456);
    let s = Status::from(0b0110_1011);
    assert!(s.lyc_int && s.oam_int && !s.vblank_int && s.hblank_int && !s.lyc_equal);
    assert_eq!(s.mode, PpuMode::PixelTransfer);
    assert_eq!(u8::from(s), 0b0110_1011);
    assert_eq!(u8::from(Status::default()), 0x02);
}

#[test]
fn tile_data_addressing() {
    assert_eq!(TileData::Low.get_tile_data_addr(0), Addr(0x8000));
    assert_eq!(TileData::Low.get_tile_data_addr(1), Addr(0x8010));
    assert_eq!(TileData::Low.get_tile_data_addr(255), Addr(0x8ff0));
    assert_eq!(TileData::High.get_tile_data_addr(0), Addr(0x9000));
    assert_eq!(TileData::High.get_tile_data_addr(127), Addr(0x97f0));
    assert_eq!(TileData::High.get_tile_data_addr(128), Addr(0x8800));
    assert_eq!(TileData::High.get_tile_data_addr(255), Addr(0x8ff0));
}

#[test]
fn sprite_attributes() {
    let a = SpriteAttr::from(0b1011_0110);
    assert!(a.bg_win_over_obj && !a.y_flip && a.x_flip);
    assert_eq!(a.palette, ObjPaletteType::OBP1);
    assert_eq!(u8::from(a), 0b1011_0000);
    assert_eq!(ObjPaletteType::try_from(1), Ok(ObjPaletteType::OBP1));
    assert_eq!(ObjPaletteType::try_from(2), Err(()));
    let s = Sprite::new(16, 8, 3, 0x40);
    assert!(s.covers_line(0, 8) && s.covers_line(7, 8) && !s.covers_line(8, 8) && s.covers_line(15, 16));
    assert!(s.covers_column(0) && s.covers_column(7) && !s.covers_column(8));
    assert!(!Sprite::new(0, 0, 0, 0).covers_line(0, 16));
    assert!(Sprite::new(1, 0, 0, 0).covers_line(0, 16) && !Sprite::new(1, 0, 0, 0).covers_line(0, 8));
}

#[test]
fn oam_scan_takes_the_first_ten() {
    let mut oam = OAM::new();
    // Fifteen objects on line 40, then some elsewhere.
    for n in 0..15u16 {
        oam.writeu8(Addr(0xfe00 + 4 * n), 56);
        oam.writeu8(Addr(0xfe00 + 4 * n + 1), 10 + n as u8);
        oam.writeu8(Addr(0xfe00 + 4 * n + 2), n as u8);
    }
    for n in 15..40u16 {
        oam.writeu8(Addr(0xfe00 + 4 * n), 100);
    }
    let found = oam.row(40, ObjectSize::Short);
    assert_eq!(found.len(), 10);
    for (i, s) in found.iter().enumerate() {
        assert_eq!(s.ti, i as u8);
    }
    assert_eq!(oam.row(47, ObjectSize::Short).len(), 10);
    assert_eq!(oam.row(48, ObjectSize::Short).len(), 0);
    assert_eq!(oam.row(48, ObjectSize::Long).len(), 10);
    assert_eq!(oam.row(84, ObjectSize::Short).len(), 10);
    assert_eq!(oam.row(39, ObjectSize::Long).len(), 0);
    assert_eq!(oam.sprite(14).x_pos, 24);
    for y in 0..=255u8 {
        assert!(oam.row(y, ObjectSize::Long).len() <= 10);
    }
}

#[test]
fn screen_starts_white() {
    let mut s = Screen::new();
    let pixels = s.as_u32();
    assert_eq!(pixels.len(), 160 * 144);
    assert!(pixels.iter().all(|p| *p == 0x00ff_ffff));
    s.set(143, 159, Colour::Black);
    s.set(1, 0, Colour::DarkGrey);
    assert_eq!(s.get(143, 159), Colour::Black);
    let pixels = s.as_u32();
    assert_eq!(pixels[160 * 144 - 1], 0);
    assert_eq!(pixels[160], 0x0060_6060);
    assert_eq!(pixels[159], 0x00ff_ffff);
}

#[test]
fn mode_schedule_of_a_line() {
    let mut ppu = PPU::new();
    assert_eq!(ppu.mode(), PpuMode::OAMSearch);
    ppu.tick(79);
    assert_eq!(ppu.mode(), PpuMode::OAMSearch);
    ppu.tick(1);
    assert_eq!(ppu.mode(), PpuMode::PixelTransfer);
    ppu.tick(171);
    assert_eq!(ppu.mode(), PpuMode::PixelTransfer);
    ppu.tick(1);
    assert_eq!(ppu.mode(), PpuMode::HBlank);
    assert_eq!(ppu.get_curr_scanline(), 0);
    ppu.tick(203);
    assert_eq!(ppu.mode(), PpuMode::HBlank);
    ppu.tick(1);
    assert_eq!(ppu.mode(), PpuMode::OAMSearch);
    assert_eq!(ppu.get_curr_scanline(), 1);
    // Several modes in one go.
    ppu.tick(456 * 2 + 100);
    assert_eq!(ppu.get_curr_scanline(), 3);
    assert_eq!(ppu.mode(), PpuMode::PixelTransfer);
}

#[test]
fn frame_takes_70224_cycles() {
    let mut ppu = PPU::new();
    ppu.tick(144 * 456 - 1);
    assert!(!ppu.vblank_requested());
    assert_eq!(ppu.get_curr_scanline(), 143);
    ppu.tick(1);
    assert!(ppu.vblank_requested());
    assert_eq!(ppu.get_curr_scanline(), 144);
    assert_eq!(ppu.mode(), PpuMode::VBlank);
    for _ in 0..3 {
        ppu.set_vblank_interrupt(false);
        let mut cycles = 0u64;
        while !ppu.vblank_requested() {
            ppu.tick(4);
            cycles += 4;
        }
        assert_eq!(cycles, 70224);
        assert_eq!(ppu.get_curr_scanline(), 144);
    }
    // The last line of the vertical blank is 153; then line 0 begins.
    ppu.tick(10 * 456 - 1);
    assert_eq!(ppu.get_curr_scanline(), 153);
    assert_eq!(ppu.mode(), PpuMode::VBlank);
    ppu.tick(1);
    assert_eq!(ppu.get_curr_scanline(), 0);
    assert_eq!(ppu.mode(), PpuMode::OAMSearch);
}

#[test]
fn vblank_request_shows_in_if() {
    let mut mmu = bus();
    mmu.tick(65663);
    assert_eq!(mmu.readu8(Addr(0xff0f)) & 1, 0);
    assert_eq!(mmu.readu8(Addr(0xff44)), 143);
    assert_eq!(mmu.readu8(Addr(0xff41)) & 3, 0);
    mmu.tick(1);
    assert_eq!(mmu.readu8(Addr(0xff0f)) & 1, 1);
    assert_eq!(mmu.readu8(Addr(0xff44)), 144);
    assert_eq!(mmu.readu8(Addr(0xff41)) & 3, 1);
}

#[test]
fn background_off_is_white() {
    let mut mmu = bus();
    mmu.writeu8(Addr(0xff40), 0x80);
    mmu.writeu8(Addr(0xff47), 0xff);
    mmu.writeu8(Addr(0x9000), 0xff);
    mmu.writeu8(Addr(0x9001), 0xff);
    draw_line(&mut mmu, 0);
    assert!(row(&mmu, 0, 0, 160).iter().all(|c| *c == Colour::White));
}

#[test]
fn background_pixels_scroll_and_map() {
    let mut mmu = bus();
    mmu.writeu8(Addr(0xff40), 0x91);
    mmu.writeu8(Addr(0xff47), 0xe4);
    // Tile 1, row 0: indices 0 1 2 3 3 2 1 0.
    mmu.writeu8(Addr(0x8010), 0b0101_1010);
    mmu.writeu8(Addr(0x8011), 0b0011_1100);
    // The map names tile 1 for the second tile of the first row.
    mmu.writeu8(Addr(0x9801), 1);
    mmu.writeu8(Addr(0xff43), 3);
    draw_line(&mut mmu, 0);
    assert_eq!(row(&mmu, 0, 0, 5), vec![White; 5]);
    assert_eq!(
        row(&mmu, 0, 5, 8),
        vec![White, LightGrey, DarkGrey, Black, Black, DarkGrey, LightGrey, White]
    );
    assert_eq!(row(&mmu, 0, 13, 3), vec![White; 3]);
}

#[test]
fn background_wraps_and_uses_signed_tiles() {
    let mut mmu = bus();
    // Tile data from 0x9000 with signed indices, map at 0x9c00.
    mmu.writeu8(Addr(0xff40), 0x89);
    mmu.writeu8(Addr(0xff47), 0xe4);
    // Tile -1 stands at 0x8ff0; its row 7 is all index 3.
    mmu.writeu8(Addr(0x8ffe), 0xff);
    mmu.writeu8(Addr(0x8fff), 0xff);
    // Row 31 of the map, column 31.
    mmu.writeu8(Addr(0x9c00 + 31 * 32 + 31), 0xff);
    mmu.writeu8(Addr(0xff42), 255);
    mmu.writeu8(Addr(0xff43), 250);
    draw_line(&mut mmu, 0);
    assert_eq!(row(&mmu, 0, 0, 6), vec![Colour::Black; 6]);
    assert_eq!(row(&mmu, 0, 6, 2), vec![Colour::White; 2]);
}

#[test]
fn window_covers_the_background() {
    let mut mmu = bus();
    // Window on, window map at 0x9c00, background map at 0x9800.
    mmu.writeu8(Addr(0xff40), 0xf1);
    mmu.writeu8(Addr(0xff47), 0xe4);
    // Tile 2: row 0 all index 1, row 1 all index 2.
    mmu.writeu8(Addr(0x8020), 0xff);
    mmu.writeu8(Addr(0x8023), 0xff);
    mmu.writeu8(Addr(0x9c00), 2);
    mmu.writeu8(Addr(0xff4a), 1);
    mmu.writeu8(Addr(0xff4b), 7 + 4);
    draw_line(&mut mmu, 0);
    assert_eq!(row(&mmu, 0, 0, 16), vec![Colour::White; 16]);
    // On line 1 the window begins, with its own line 0.
    mmu.tick(456);
    assert_eq!(row(&mmu, 1, 0, 4), vec![Colour::White; 4]);
    assert_eq!(row(&mmu, 1, 4, 8), vec![Colour::LightGrey; 8]);
    assert_eq!(row(&mmu, 1, 12, 4), vec![Colour::White; 4]);
    // Line 2 shows line 1 of the window.
    mmu.tick(456);
    assert_eq!(row(&mmu, 2, 4, 8), vec![Colour::DarkGrey; 8]);
}

#[test]
fn sprites_flips_and_palettes() {
    let mut mmu = bus();
    mmu.writeu8(Addr(0xff40), 0x83);
    mmu.writeu8(Addr(0xff47), 0xe4);
    mmu.writeu8(Addr(0xff48), 0xe4);
    mmu.writeu8(Addr(0xff49), 0x1b);
    // Tile 4: row 0 is 3 0 0 0 0 0 0 1, row 7 is all 2.
    mmu.writeu8(Addr(0x8040), 0b1000_0001);
    mmu.writeu8(Addr(0x8041), 0b1000_0000);
    mmu.writeu8(Addr(0x804f), 0xff);
    put_sprite(&mut mmu, 0, 16, 8, 4, 0x00);
    put_sprite(&mut mmu, 1, 16, 24, 4, 0x20);
    put_sprite(&mut mmu, 2, 16, 40, 4, 0x40);
    put_sprite(&mut mmu, 3, 16, 56, 4, 0x10);
    draw_line(&mut mmu, 0);
    assert_eq!(row(&mmu, 0, 0, 8), vec![Black, White, White, White, White, White, White, LightGrey]);
    assert_eq!(row(&mmu, 0, 16, 8), vec![LightGrey, White, White, White, White, White, White, Black]);
    assert_eq!(row(&mmu, 0, 32, 8), vec![DarkGrey; 8]);
    assert_eq!(row(&mmu, 0, 48, 8), vec![White, White, White, White, White, White, White, DarkGrey]);
    assert_eq!(row(&mmu, 0, 8, 8), vec![White; 8]);
}

#[test]
fn sprite_priority() {
    let mut mmu = bus();
    mmu.writeu8(Addr(0xff40), 0x93);
    mmu.writeu8(Addr(0xff47), 0xe4);
    mmu.writeu8(Addr(0xff48), 0xe4);
    // Tile 1 all index 1, tile 2 all index 2, tile 3 all index 3 in row 0.
    mmu.writeu8(Addr(0x8010), 0xff);
    mmu.writeu8(Addr(0x8021), 0xff);
    mmu.writeu8(Addr(0x8030), 0xff);
    mmu.writeu8(Addr(0x8031), 0xff);
    // The lower x wins, whatever the order in memory.
    put_sprite(&mut mmu, 0, 16, 12, 1, 0x00);
    put_sprite(&mut mmu, 1, 16, 8, 2, 0x00);
    // Of two at the same x the first in memory wins.
    put_sprite(&mut mmu, 2, 16, 40, 3, 0x00);
    put_sprite(&mut mmu, 3, 16, 40, 1, 0x00);
    // One behind the background: tile 1 of the background is under it at
    // columns 64 to 71, and nothing at 72 to 79.
    mmu.writeu8(Addr(0x9808), 1);
    put_sprite(&mut mmu, 4, 16, 76, 3, 0x80);
    draw_line(&mut mmu, 0);
    assert_eq!(row(&mmu, 0, 0, 8), vec![DarkGrey; 8]);
    assert_eq!(row(&mmu, 0, 8, 4), vec![LightGrey; 4]);
    assert_eq!(row(&mmu, 0, 32, 8), vec![Black; 8]);
    assert_eq!(row(&mmu, 0, 64, 4), vec![LightGrey; 4]);
    assert_eq!(row(&mmu, 0, 68, 4), vec![LightGrey; 4]);
    assert_eq!(row(&mmu, 0, 72, 4), vec![Black; 4]);
}

#[test]
fn tall_sprites_ignore_bit_0_of_the_tile() {
    let mut mmu = bus();
    mmu.writeu8(Addr(0xff40), 0x86);
    mmu.writeu8(Addr(0xff48), 0xe4);
    // Tile 6, row 0: index 1. Tile 7, row 0: index 3.
    mmu.writeu8(Addr(0x8060), 0xff);
    mmu.writeu8(Addr(0x8070), 0xff);
    mmu.writeu8(Addr(0x8071), 0xff);
    put_sprite(&mut mmu, 0, 16, 8, 7, 0x00);
    draw_line(&mut mmu, 0);
    assert_eq!(row(&mmu, 0, 0, 8), vec![Colour::LightGrey; 8]);
    mmu.tick(8 * 456);
    assert_eq!(row(&mmu, 8, 0, 8), vec![Colour::Black; 8]);
    // Flipped upside down, line 0 shows row 15, which is empty, and line 15
    // shows row 0.
    let mut mmu = bus();
    mmu.writeu8(Addr(0xff40), 0x86);
    mmu.writeu8(Addr(0xff48), 0xe4);
    mmu.writeu8(Addr(0x8060), 0xff);
    put_sprite(&mut mmu, 0, 16, 8, 6, 0x40);
    draw_line(&mut mmu, 15);
    assert_eq!(row(&mmu, 0, 0, 8), vec![Colour::White; 8]);
    assert_eq!(row(&mmu, 15, 0, 8), vec![Colour::LightGrey; 8]);
}

#[test]
fn at_most_ten_sprites_are_drawn_on_a_line() {
    let mut mmu = bus();
    mmu.writeu8(Addr(0xff40), 0x82);
    mmu.writeu8(Addr(0xff48), 0xe4);
    mmu.writeu8(Addr(0x8010), 0xff);
    mmu.writeu8(Addr(0x8011), 0xff);
    for n in 0..12u16 {
        put_sprite(&mut mmu, n, 16, 8 + 8 * n as u8, 1, 0x00);
    }
    draw_line(&mut mmu, 0);
    assert_eq!(row(&mmu, 0, 0, 80), vec![Colour::Black; 80]);
    assert_eq!(row(&mmu, 0, 80, 16), vec![Colour::White; 16]);
}
