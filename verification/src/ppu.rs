//! The picture unit's background tile fetcher and pixel FIFO.
//!
//! The fetcher walks the background tile map one 8-pixel tile row at a
//! time: it reads the tile id, then the row's two data bytes, decodes
//! them into eight pixels and pushes the row into the FIFO whenever the
//! FIFO has room (at most eight pixels queued); otherwise it stalls in
//! the push stage. Each stage consumes one fetch cycle.
//!
//! Pixel decode: for bit position `i`, the colour index is
//! `((high >> i) & 1) << 1 | ((low >> i) & 1)`, where `low` is the byte
//! at the row's data address and `high` the byte after it. Pixels enter
//! the FIFO from highest bit to lowest, so the left-most on-screen pixel
//! is drained first.

use vstd::prelude::*;

use crate::dev::Ram;

verus! {

/// A pixel's colour index, lightest to darkest.
#[derive(Clone, Copy, PartialEq, Eq, Structural, Debug)]
pub enum Colour {
    C0,
    C1,
    C2,
    C3,
}

impl Default for Colour {
    fn default() -> (r: Self)
        ensures
            r == Colour::C0,
    {
        Colour::C0
    }
}

/// The palette a pixel is looked up through.
#[derive(Clone, Copy, PartialEq, Eq, Structural, Debug)]
pub enum Palette {
    BgWin,
    Obj0,
    Obj1,
}

/// One picture element: a colour index and the palette it goes through.
#[derive(Clone, Copy, PartialEq, Eq, Structural, Debug)]
pub struct Pixel {
    pub colour: Colour,
    pub palette: Palette,
}

/// The colour for a two-bit colour index.
pub open spec fn colour_code(c: int) -> Colour {
    if c == 0 {
        Colour::C0
    } else if c == 1 {
        Colour::C1
    } else if c == 2 {
        Colour::C2
    } else {
        Colour::C3
    }
}

/// The background pixel decoded from bit `bit` of a tile row's two data
/// bytes (`lo` first in memory, `hi` second).
pub open spec fn pixel_at(lo: u8, hi: u8, bit: u8) -> Pixel {
    Pixel {
        colour: colour_code((((hi >> bit) & 1) * 2 + ((lo >> bit) & 1)) as int),
        palette: Palette::BgWin,
    }
}

/// The eight pixels of a tile row, left-most (bit 7) first.
pub open spec fn tile_row_spec(lo: u8, hi: u8) -> Seq<Pixel> {
    Seq::new(8, |j: int| pixel_at(lo, hi, (7 - j) as u8))
}

/// A decoded tile row: eight pixels, left-most first.
#[derive(Clone, Copy, Debug)]
pub struct TileRow(pub [Pixel; 8]);

impl TileRow {
    /// Decodes a tile row from its two data bytes, low byte first.
    pub fn from(bytes: [u8; 2]) -> (r: TileRow)
        ensures
            r.0@ == tile_row_spec(bytes[0], bytes[1]),
    {
        let lo = bytes[0];
        let hi = bytes[1];
        let row: [Pixel; 8] = [
            decode_pixel(lo, hi, 7),
            decode_pixel(lo, hi, 6),
            decode_pixel(lo, hi, 5),
            decode_pixel(lo, hi, 4),
            decode_pixel(lo, hi, 3),
            decode_pixel(lo, hi, 2),
            decode_pixel(lo, hi, 1),
            decode_pixel(lo, hi, 0),
        ];
        proof {
            assert(row@ =~= tile_row_spec(lo, hi));
        }
        TileRow(row)
    }
}

/// Decodes the pixel at one bit position of a tile row's data bytes.
fn decode_pixel(lo: u8, hi: u8, bit: u8) -> (p: Pixel)
    requires
        bit < 8,
    ensures
        p == pixel_at(lo, hi, bit),
{
    proof {
        assert((hi >> bit) & 1 <= 1 && (lo >> bit) & 1 <= 1) by (bit_vector);
    }
    let c = ((hi >> bit) & 1) * 2 + ((lo >> bit) & 1);
    let colour = if c == 0 {
        Colour::C0
    } else if c == 1 {
        Colour::C1
    } else if c == 2 {
        Colour::C2
    } else {
        Colour::C3
    };
    Pixel { colour, palette: Palette::BgWin }
}

/// The pixel FIFO between the fetcher and the shifter.
pub struct Fifo {
    pixels: Vec<Pixel>,
}

impl View for Fifo {
    type V = Seq<Pixel>;

    closed spec fn view(&self) -> Seq<Pixel> {
        self.pixels@
    }
}

impl Fifo {
    pub fn new() -> (r: Fifo)
        ensures
            r@ == Seq::<Pixel>::empty(),
    {
        let r = Fifo { pixels: Vec::new() };
        proof {
            assert(r@ =~= Seq::<Pixel>::empty());
        }
        r
    }

    pub fn len(&self) -> (r: usize)
        ensures
            r == self@.len(),
    {
        self.pixels.len()
    }

    /// Drains the left-most queued pixel, as the shifter does.
    pub fn shift(&mut self) -> (r: Option<Pixel>)
        ensures
            old(self)@.len() == 0 ==> r is None && final(self)@ == old(self)@,
            old(self)@.len() > 0 ==> r == Some(old(self)@[0]) && final(self)@ == old(
                self,
            )@.drop_first(),
    {
        if self.pixels.len() == 0 {
            None
        } else {
            let p = self.pixels.remove(0);
            proof {
                assert(self@ =~= old(self)@.drop_first());
            }
            Some(p)
        }
    }

    /// Appends a fetched tile row, left-most pixel first.
    fn push_row(&mut self, row: &[Pixel; 8])
        ensures
            final(self)@ == old(self)@ + row@,
    {
        let mut i: usize = 0;
        while i < 8
            invariant
                i <= 8,
                self@ == old(self)@ + row@.take(i as int),
            decreases 8 - i,
        {
            self.pixels.push(row[i]);
            proof {
                assert(self@ =~= old(self)@ + row@.take(i + 1));
            }
            i += 1;
        }
        proof {
            assert(self@ =~= old(self)@ + row@);
        }
    }
}

/// The picture unit as the fetcher sees it: its video RAM and the
/// scanline registers.
pub struct Ppu {
    pub vram: Ram,
    pub lcdc: u8,
    pub scy: u8,
    pub scx: u8,
    pub ly: u8,
}

impl Ppu {
    /// The canonical video RAM size.
    pub open spec fn wf(self) -> bool {
        self.vram@.len() == 0x2000
    }

    pub fn new() -> (r: Ppu)
        ensures
            r.wf(),
            r.vram@ == Seq::new(0x2000, |i: int| 0u8),
            r.lcdc == 0 && r.scy == 0 && r.scx == 0 && r.ly == 0,
    {
        Ppu { vram: Ram::zeroed(0x2000), lcdc: 0, scy: 0, scx: 0, ly: 0 }
    }

    /// The byte the fetcher observes at a video RAM index.
    pub open spec fn vram_at(self, index: int) -> u8 {
        if 0 <= index < self.vram@.len() {
            self.vram@[index]
        } else {
            0xFF
        }
    }
}

/// The tile-map index the fetcher reads for the current scanline and
/// x-tile position.
pub open spec fn tile_index_spec(ppu: Ppu, xpos: u8) -> int {
    let base: int = if ppu.lcdc & 0x08 != 0 {
        0x1C00
    } else {
        0x1800
    };
    let ypos = ((ppu.scy + ppu.ly) % 256) / 8;
    let xp = ((ppu.scx / 8 + xpos) % 256) % 32;
    base + 32 * ypos + xp
}

/// The video RAM address of the current row of tile `tile_id`: unsigned
/// ids from base 0x0000 when LCDC selects the low data area, signed ids
/// around base 0x0800 otherwise, plus two bytes per row within the tile.
pub open spec fn tile_data_addr_spec(ppu: Ppu, tile_id: u8) -> int {
    let yoff = ((ppu.scy + ppu.ly) % 256) % 8;
    if ppu.lcdc & 0x10 != 0 {
        16 * tile_id + 2 * yoff
    } else if tile_id < 128 {
        0x0800 + 16 * tile_id + 2 * yoff
    } else {
        16 * tile_id - 0x0800 + 2 * yoff
    }
}

/// The fetcher's stage for one tile row, each stage one fetch cycle.
#[derive(Clone, Copy, Debug)]
pub enum Stage {
    ReadTile,
    ReadData0 { tile: u16 },
    ReadData1 { tile: u16, data0: u8 },
    Push([Pixel; 8]),
}

impl Default for Stage {
    fn default() -> (r: Self)
        ensures
            r == Stage::ReadTile,
    {
        Stage::ReadTile
    }
}

/// The background tile fetcher: its stage and x-tile position.
#[derive(Clone, Copy, Debug)]
pub struct Fetch {
    pub stage: Stage,
    pub xpos: u8,
}

impl Default for Fetch {
    fn default() -> (r: Self)
        ensures
            r == (Fetch { stage: Stage::ReadTile, xpos: 0 }),
    {
        Fetch { stage: Stage::ReadTile, xpos: 0 }
    }
}

impl Fetch {
    /// Advances the fetcher by one fetch cycle: executes the current
    /// stage and stores the next.
    pub fn exec(&mut self, fifo: &mut Fifo, ppu: &mut Ppu)
        requires
            old(ppu).wf(),
        ensures
            *final(ppu) == *old(ppu),
            final(self).xpos == (if old(self).stage is ReadTile {
                ((old(self).xpos + 1) % 256) as u8
            } else {
                old(self).xpos
            }),
            stage_post(old(self).stage, old(self).xpos, old(fifo)@, *old(ppu), final(self).stage,
            final(fifo)@),
    {
        let st = self.stage;
        self.stage = st.exec(self, fifo, ppu);
    }
}

/// Relates a stage and the FIFO before a fetch cycle to the stage and
/// FIFO after it.
pub open spec fn stage_post(
    st: Stage,
    xpos: u8,
    fifo: Seq<Pixel>,
    ppu: Ppu,
    next: Stage,
    fifo2: Seq<Pixel>,
) -> bool {
    match st {
        Stage::ReadTile => {
            let tile_id = ppu.vram_at(tile_index_spec(ppu, xpos));
            &&& next == (Stage::ReadData0 { tile: tile_data_addr_spec(ppu, tile_id) as u16 })
            &&& fifo2 == fifo
        },
        Stage::ReadData0 { tile } => {
            &&& next == (Stage::ReadData1 { tile, data0: ppu.vram_at(tile as int) })
            &&& fifo2 == fifo
        },
        Stage::ReadData1 { tile, data0 } => {
            &&& next matches Stage::Push(row) && row@ == tile_row_spec(
                data0,
                ppu.vram_at(tile + 1),
            )
            &&& fifo2 == fifo
        },
        Stage::Push(row) => {
            if fifo.len() <= 8 {
                next == Stage::ReadTile && fifo2 == fifo + row@
            } else {
                next == st && fifo2 == fifo
            }
        },
    }
}

impl Stage {
    /// Executes one fetch cycle of this stage and returns the next stage.
    /// Only the read-tile stage advances the fetcher's x position; only
    /// the push stage changes the FIFO, and only when it has room.
    pub fn exec(self, fetch: &mut Fetch, fifo: &mut Fifo, ppu: &mut Ppu) -> (next: Stage)
        requires
            old(ppu).wf(),
        ensures
            *final(ppu) == *old(ppu),
            final(fetch).xpos == (if self is ReadTile {
                ((old(fetch).xpos + 1) % 256) as u8
            } else {
                old(fetch).xpos
            }),
            final(fetch).stage == old(fetch).stage,
            stage_post(self, old(fetch).xpos, old(fifo)@, *old(ppu), next, final(fifo)@),
    {
        match self {
            Stage::ReadTile => {
                let lcdc = ppu.lcdc;
                let scy = ppu.scy;
                let scx = ppu.scx;
                let ly = ppu.ly;

                // Index of the tile within the selected background map.
                let base: u16 = if lcdc & 0x08 != 0 {
                    0x1C00
                } else {
                    0x1800
                };
                let ypos: u16 = ((scy as u16 + ly as u16) % 256) / 8;
                let xp: u16 = ((scx as u16 / 8 + fetch.xpos as u16) % 256) % 32;
                let idx: u16 = base + 32 * ypos + xp;

                // Next fetch works on the tile to the right.
                fetch.xpos = ((fetch.xpos as u16 + 1) % 256) as u8;

                // The id selects the tile, the data-area flag its address.
                let tile_id = ppu.vram.read(idx as usize);
                let yoff: u16 = ((scy as u16 + ly as u16) % 256) % 8;
                let tile: u16 = if lcdc & 0x10 != 0 {
                    16 * (tile_id as u16) + 2 * yoff
                } else if tile_id < 128 {
                    0x0800 + 16 * (tile_id as u16) + 2 * yoff
                } else {
                    16 * (tile_id as u16) - 0x0800 + 2 * yoff
                };
                Stage::ReadData0 { tile }
            },
            Stage::ReadData0 { tile } => {
                let data0 = ppu.vram.read(tile as usize);
                Stage::ReadData1 { tile, data0 }
            },
            Stage::ReadData1 { tile, data0 } => {
                let data1 = ppu.vram.read(tile as usize + 1);
                let row = TileRow::from([data0, data1]).0;
                Stage::Push(row)
            },
            Stage::Push(row) => {
                if fifo.len() <= 8 {
                    fifo.push_row(&row);
                    Stage::ReadTile
                } else {
                    Stage::Push(row)
                }
            },
        }
    }
}

} // verus!
