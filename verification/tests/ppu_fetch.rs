use gameboy::ppu::{Colour, Fetch, Fifo, Palette, Pixel, Ppu, Stage, TileRow};

#[test]
fn tile_row_decode_low_bits() {
    // Low byte 0xFF, high byte 0x00: colour index 0b01 everywhere.
    let row = TileRow::from([0xFF, 0x00]).0;
    for i in 0usize..8 {
        assert_eq!(row[i], Pixel { colour: Colour::C1, palette: Palette::BgWin });
    }
}

#[test]
fn tile_row_decode_left_to_right() {
    // Low 0xF0, high 0x0F: the left four pixels take the low bits, the
    // right four the high bits.
    let row = TileRow::from([0xF0, 0x0F]).0;
    for i in 0usize..4 {
        assert_eq!(row[i].colour, Colour::C1);
    }
    for i in 4usize..8 {
        assert_eq!(row[i].colour, Colour::C2);
    }
}

#[test]
fn tile_row_decode_all_indices() {
    // Bit 7 of both bytes set: left-most pixel is C3, the rest C0.
    let row = TileRow::from([0x80, 0x80]).0;
    assert_eq!(row[0].colour, Colour::C3);
    for i in 1usize..8 {
        assert_eq!(row[i].colour, Colour::C0);
    }
}

fn scanline_ppu() -> Ppu {
    let mut ppu = Ppu::new();
    // Tile 0's first row decodes to eight C1 pixels.
    ppu.vram.write(0x0000, 0xFF);
    ppu.vram.write(0x0001, 0x00);
    // Unsigned tile addressing from base 0; tile-map entries are zero.
    ppu.lcdc = 0x10;
    ppu
}

#[test]
fn fetch_pipeline_pushes_a_row() {
    let mut ppu = scanline_ppu();
    let mut fifo = Fifo::new();
    let mut fetch = Fetch::default();
    // ReadTile, ReadData0, ReadData1, Push: one row per four cycles.
    for _ in 0..4 {
        fetch.exec(&mut fifo, &mut ppu);
    }
    assert_eq!(fifo.len(), 8);
    let first = fifo.shift().unwrap();
    assert_eq!(first, Pixel { colour: Colour::C1, palette: Palette::BgWin });
}

#[test]
fn fetch_stalls_on_full_fifo() {
    let mut ppu = scanline_ppu();
    let mut fifo = Fifo::new();
    let mut fetch = Fetch::default();
    for _ in 0..8 {
        fetch.exec(&mut fifo, &mut ppu);
    }
    assert_eq!(fifo.len(), 16);
    // A third row is fetched but cannot be pushed: backpressure.
    for _ in 0..8 {
        fetch.exec(&mut fifo, &mut ppu);
    }
    assert_eq!(fifo.len(), 16);
    assert!(matches!(fetch.stage, Stage::Push(_)));
    // Draining below the threshold lets the stalled row through.
    for _ in 0..8 {
        fifo.shift();
    }
    fetch.exec(&mut fifo, &mut ppu);
    assert_eq!(fifo.len(), 16);
}

#[test]
fn fetch_advances_x_position() {
    let mut ppu = scanline_ppu();
    // Mark tile-map entry 1 (address 0x1801) with tile id 1, whose first
    // row is at 0x0010 and decodes to C2 pixels.
    ppu.vram.write(0x1801, 0x01);
    ppu.vram.write(0x0010, 0x00);
    ppu.vram.write(0x0011, 0xFF);
    let mut fifo = Fifo::new();
    let mut fetch = Fetch::default();
    for _ in 0..8 {
        fetch.exec(&mut fifo, &mut ppu);
    }
    assert_eq!(fifo.len(), 16);
    for _ in 0..8 {
        assert_eq!(fifo.shift().unwrap().colour, Colour::C1);
    }
    for _ in 0..8 {
        assert_eq!(fifo.shift().unwrap().colour, Colour::C2);
    }
}

#[test]
fn fifo_shift_drains_in_order() {
    let mut fifo = Fifo::new();
    assert!(fifo.shift().is_none());
    assert_eq!(fifo.len(), 0);
}
