//! The pixel-processing unit: a time-sliced state machine that advances
//! scanline modes over a running cycle counter, raises LCD and VBlank
//! interrupts, and composes the framebuffer from tile data and sprites.
use crate::bus::{read8, wf_view, write8, Bus, BusView};
use crate::lcd::{
    lcd_control_contains, stat_with_bit, stat_with_mode, LcdControlOption, LcdStatusRegister, Mode,
    LCDC, LY, LYC, STAT,
};
use vstd::prelude::*;

verus! {

/// One palette byte as four 2-bit color IDs.
#[derive(Debug, Clone, Copy, Default)]
pub struct ColorIds {
    pub backing: u8,
}

impl ColorIds {
    pub fn new(backing: u8) -> (r: ColorIds)
        ensures
            r.backing == backing,
    {
        ColorIds { backing }
    }

    pub fn id_0(&self) -> (r: u8)
        ensures
            r == self.backing % 4,
    {
        self.backing % 4
    }

    pub fn id_1(&self) -> (r: u8)
        ensures
            r == self.backing / 4 % 4,
    {
        self.backing / 4 % 4
    }

    pub fn id_2(&self) -> (r: u8)
        ensures
            r == self.backing / 16 % 4,
    {
        self.backing / 16 % 4
    }

    pub fn id_3(&self) -> (r: u8)
        ensures
            r == self.backing / 64,
    {
        self.backing / 64
    }
}

/// The attribute byte of one OAM entry.
#[derive(Debug, Clone, Copy, Default)]
pub struct SpriteAttributeFlag(pub u8);

impl SpriteAttributeFlag {
    /// The low nibble, meaningful only on the later color hardware.
    pub fn _gbc(&self) -> (r: u8)
        ensures
            r == self.0 % 16,
    {
        self.0 % 16
    }

    /// OBP1 rather than OBP0.
    pub fn dmg_palette(&self) -> (r: bool)
        ensures
            r == (self.0 & 0x10 != 0),
    {
        self.0 & 0x10 != 0
    }

    pub fn x_flip(&self) -> (r: bool)
        ensures
            r == (self.0 & 0x20 != 0),
    {
        self.0 & 0x20 != 0
    }

    pub fn y_flip(&self) -> (r: bool)
        ensures
            r == (self.0 & 0x40 != 0),
    {
        self.0 & 0x40 != 0
    }

    /// Background priority: when set, the sprite only shows over
    /// background color 0.
    pub fn priority(&self) -> (r: bool)
        ensures
            r == (self.0 & 0x80 != 0),
    {
        self.0 & 0x80 != 0
    }
}

/// An RGBA pixel buffer of fixed dimensions, drawn tile by tile.
pub struct Layer {
    pub desired_tiles_per_row: u32,
    pub width: u32,
    pub height: u32,
    pub data: Vec<u8>,
}

impl Layer {
    /// Dimensions agree: a row of tiles spans the width, and the buffer
    /// holds four bytes per pixel.
    pub open spec fn wf(&self) -> bool {
        &&& self.width == self.desired_tiles_per_row * 8
        &&& self.data@.len() == self.width * self.height * 4
        &&& self.desired_tiles_per_row >= 1
        &&& 8 <= self.width <= 1024
        &&& 8 <= self.height <= 1024
    }

    pub fn new(width: u32, height: u32, desired_tiles_per_row: u32) -> (r: Layer)
        requires
            width == desired_tiles_per_row * 8,
            8 <= width <= 1024,
            8 <= height <= 1024,
            desired_tiles_per_row >= 1,
        ensures
            r.wf(),
            r.width == width,
            r.height == height,
            r.desired_tiles_per_row == desired_tiles_per_row,
            forall|i: int| 0 <= i < r.data@.len() ==> r.data@[i] == 0,
    {
        proof {
            assert(width * height <= 1024 * 1024) by (nonlinear_arith)
                requires
                    width <= 1024,
                    height <= 1024,
            ;
        }
        let length = (width * height * 4) as usize;
        let mut data: Vec<u8> = Vec::new();
        while data.len() < length
            invariant
                data@.len() <= length,
                forall|i: int| 0 <= i < data@.len() ==> data@[i] == 0,
            decreases length - data@.len(),
        {
            data.push(0);
        }
        Layer { width, height, data, desired_tiles_per_row }
    }
}

/// Which base address tile pixel data is fetched from.
#[derive(Debug, Clone, Copy, PartialEq, Eq, Structural)]
pub enum TileFetchMode {
    /// By LCDC bit 4: the unsigned 0x8000 method or the signed 0x9000
    /// method.
    DefaultBehavior,
    /// Always the unsigned 0x8000 method, as sprites use.
    Unsigned8000,
    /// Always the signed 0x9000 method.
    Signed8800,
}

/// Which palette register colors a tile.
#[derive(Debug, Clone, Copy, PartialEq, Eq, Structural)]
pub enum Palette {
    Bgp,
    Obp0,
    Obp1,
}

/// The base of tile `t` under the signed fetch method: tile IDs at and
/// above 128 reach below 0x9000.
pub open spec fn spec_signed_tile_base(t: u8) -> u16 {
    if t < 128 {
        (0x9000 + 16 * t) as u16
    } else {
        (0x9000 + 16 * t - 4096) as u16
    }
}

/// The base address of tile `t`'s sixteen bytes of pixel data.
pub open spec fn spec_tile_base(v: BusView, t: u8, mode: TileFetchMode) -> u16 {
    match mode {
        TileFetchMode::DefaultBehavior => {
            if read8(v, 0xFF40) & 0x10 != 0 {
                (0x8000 + 16 * t) as u16
            } else {
                spec_signed_tile_base(t)
            }
        },
        TileFetchMode::Unsigned8000 => (0x8000 + 16 * t) as u16,
        TileFetchMode::Signed8800 => spec_signed_tile_base(t),
    }
}

/// The MMIO address of a palette register.
pub open spec fn spec_palette_address(p: Palette) -> u16 {
    match p {
        Palette::Bgp => 0xFF47,
        Palette::Obp0 => 0xFF48,
        Palette::Obp1 => 0xFF49,
    }
}

/// The 2-bit color ID of pixel `x` (leftmost 0) in a tile row whose two
/// planes are `b1` and `b2`.
pub open spec fn spec_pixel_color_id(b1: u8, b2: u8, x: int) -> u8 {
    (((b2 >> (7 - x) as u8) & 1) * 2 + ((b1 >> (7 - x) as u8) & 1)) as u8
}

/// A color ID mapped through a palette byte: four 2-bit shades.
pub open spec fn spec_palette_shade(pal: u8, id: u8) -> u8 {
    if id % 4 == 0 {
        pal % 4
    } else if id % 4 == 1 {
        pal / 4 % 4
    } else if id % 4 == 2 {
        pal / 16 % 4
    } else {
        pal / 64
    }
}

/// Channel `ch` of the RGBA color of a shade, on the fixed four-color
/// ramp white, light gray, dark gray, black.
pub open spec fn spec_shade_channel(shade: u8, ch: int) -> u8 {
    if ch == 3 {
        255
    } else if shade % 4 == 0 {
        255
    } else if shade % 4 == 1 {
        200
    } else if shade % 4 == 2 {
        80
    } else {
        0
    }
}

/// Channel `ch` of pixel (x, y) of the tile at `base`, colored through
/// palette byte `pal`.
pub open spec fn spec_tile_pixel(v: BusView, base: u16, pal: u8, y: int, x: int, ch: int) -> u8 {
    spec_shade_channel(
        spec_palette_shade(
            pal,
            spec_pixel_color_id(
                read8(v, (base + 2 * y) as u16),
                read8(v, (base + 2 * y + 1) as u16),
                x,
            ),
        ),
        ch,
    )
}

/// Byte `i` of a decoded 256-byte tile: the tile's pixels row-major,
/// four channel bytes per pixel.
pub open spec fn spec_tile_byte(v: BusView, base: u16, pal: u8, i: int) -> u8 {
    spec_tile_pixel(v, base, pal, i / 32, i % 32 / 4, i % 4)
}

/// The RGBA value of one shade's channel.
fn shade_channel_value(shade: u8, ch: u8) -> (r: u8)
    ensures
        r == spec_shade_channel(shade, ch as int),
{
    if ch == 3 {
        255
    } else if shade % 4 == 0 {
        255
    } else if shade % 4 == 1 {
        200
    } else if shade % 4 == 2 {
        80
    } else {
        0
    }
}

/// The base address tile `t`'s pixel data is read from under `mode`.
fn tile_base(bus: &Bus, t: u8, mode: TileFetchMode) -> (r: u16)
    requires
        bus.wf(),
    ensures
        r == spec_tile_base(bus@, t, mode),
        0x8000 <= r <= 0x97F0,
{
    let unsigned_base: u16 = 0x8000 + 16 * (t as u16);
    let signed_base: u16 = if t < 128 {
        0x9000 + 16 * (t as u16)
    } else {
        0x9000 + 16 * (t as u16) - 4096
    };
    match mode {
        TileFetchMode::DefaultBehavior => {
            if lcd_control_contains(bus.read(LCDC), LcdControlOption::BgWindowTileDataSelect) {
                unsigned_base
            } else {
                signed_base
            }
        },
        TileFetchMode::Unsigned8000 => unsigned_base,
        TileFetchMode::Signed8800 => signed_base,
    }
}

/// The 2-bit color ID of pixel `x` in the row with planes `b1`, `b2`.
fn pixel_color_id(b1: u8, b2: u8, x: u8) -> (r: u8)
    requires
        x < 8,
    ensures
        r == spec_pixel_color_id(b1, b2, x as int),
        r < 4,
{
    let shift: u8 = 7 - x;
    let low = (b1 >> shift) & 1;
    let high = (b2 >> shift) & 1;
    proof {
        let s = shift;
        assert((b1 >> s) & 1 <= 1 && (b2 >> s) & 1 <= 1) by (bit_vector);
    }
    high * 2 + low
}

/// A color ID mapped through a palette byte.
fn palette_shade(pal: u8, id: u8) -> (r: u8)
    ensures
        r == spec_palette_shade(pal, id),
        r < 4,
{
    if id % 4 == 0 {
        pal % 4
    } else if id % 4 == 1 {
        pal / 4 % 4
    } else if id % 4 == 2 {
        pal / 16 % 4
    } else {
        pal / 64
    }
}

/// The 8 by 8 RGBA pixels of one tile, fetched under `mode` and colored
/// through the named palette register: row-major, four bytes per pixel.
pub fn get_tile_data(
    bus: &Bus,
    tile_number: u8,
    force_tile_fetch_method: TileFetchMode,
    palette: Palette,
) -> (r: Vec<u8>)
    requires
        bus.wf(),
    ensures
        r@.len() == 256,
        ({
            let base = spec_tile_base(bus@, tile_number, force_tile_fetch_method);
            let pal = read8(bus@, spec_palette_address(palette));
            &&& (forall|i: int| 0 <= i < 256 ==> #[trigger] r@[i] == spec_tile_byte(bus@, base, pal, i))
            &&& (forall|y: int, x: int, ch: int|
                0 <= y < 8 && 0 <= x < 8 && 0 <= ch < 4 ==> r@[(8 * y + x) * 4 + ch]
                    == spec_tile_pixel(bus@, base, pal, y, x, ch))
        }),
{
    let base = tile_base(bus, tile_number, force_tile_fetch_method);
    let color_address: u16 = match palette {
        Palette::Bgp => 0xFF47,
        Palette::Obp0 => 0xFF48,
        Palette::Obp1 => 0xFF49,
    };
    let pal = bus.read(color_address);
    let mut tile_data: Vec<u8> = Vec::new();
    let mut y: u8 = 0;
    while y < 8
        invariant
            bus.wf(),
            y <= 8,
            0x8000 <= base <= 0x97F0,
            base == spec_tile_base(bus@, tile_number, force_tile_fetch_method),
            pal == read8(bus@, spec_palette_address(palette)),
            tile_data@.len() == 32 * y,
            forall|i: int|
                0 <= i < 32 * y ==> #[trigger] tile_data@[i] == spec_tile_byte(bus@, base, pal, i),
        decreases 8 - y,
    {
        let b1 = bus.read(base + 2 * (y as u16));
        let b2 = bus.read(base + 2 * (y as u16) + 1);
        let mut x: u8 = 0;
        while x < 8
            invariant
                bus.wf(),
                y < 8,
                x <= 8,
                0x8000 <= base <= 0x97F0,
                base == spec_tile_base(bus@, tile_number, force_tile_fetch_method),
                pal == read8(bus@, spec_palette_address(palette)),
                b1 == read8(bus@, (base + 2 * y) as u16),
                b2 == read8(bus@, (base + 2 * y + 1) as u16),
                tile_data@.len() == 32 * y + 4 * x,
                forall|i: int|
                    0 <= i < 32 * y + 4 * x ==> #[trigger] tile_data@[i] == spec_tile_byte(
                        bus@,
                        base,
                        pal,
                        i,
                    ),
            decreases 8 - x,
        {
            let id = pixel_color_id(b1, b2, x);
            let shade = palette_shade(pal, id);
            tile_data.push(shade_channel_value(shade, 0));
            tile_data.push(shade_channel_value(shade, 1));
            tile_data.push(shade_channel_value(shade, 2));
            tile_data.push(shade_channel_value(shade, 3));
            x = x + 1;
        }
        y = y + 1;
    }
    proof {
        let base_g = spec_tile_base(bus@, tile_number, force_tile_fetch_method);
        let pal_g = read8(bus@, spec_palette_address(palette));
        assert forall|py: int, px: int, ch: int|
            0 <= py < 8 && 0 <= px < 8 && 0 <= ch < 4 implies tile_data@[(8 * py + px) * 4 + ch]
            == spec_tile_pixel(bus@, base_g, pal_g, py, px, ch) by {
            let i = (8 * py + px) * 4 + ch;
            assert(tile_data@[i] == spec_tile_byte(bus@, base_g, pal_g, i));
            assert(i / 32 == py && i % 32 / 4 == px && i % 4 == ch);
        }
    }
    tile_data
}


/// Two layers hold the same dimensions and pixels.
pub open spec fn same_layer(a: Layer, b: Layer) -> bool {
    &&& b.width == a.width
    &&& b.height == a.height
    &&& b.desired_tiles_per_row == a.desired_tiles_per_row
    &&& b.data@ == a.data@
}

/// Store one RGBA pixel's four bytes at `idx`, touching nothing else.
fn store_pixel(data: &mut Vec<u8>, idx: usize, p0: u8, p1: u8, p2: u8, p3: u8)
    requires
        idx + 4 <= old(data)@.len(),
    ensures
        final(data)@.len() == old(data)@.len(),
        final(data)@[idx as int] == p0,
        final(data)@[idx + 1] == p1,
        final(data)@[idx + 2] == p2,
        final(data)@[idx + 3] == p3,
        forall|j: int|
            0 <= j < old(data)@.len() && !(idx <= j < idx + 4) ==> #[trigger] final(data)@[j]
                == old(data)@[j],
{
    let length = data.len();
    data.set(idx, p0);
    data.set(idx + 1, p1);
    data.set(idx + 2, p2);
    data.set(idx + 3, p3);
}

/// The layer offset of byte `i` of a tile drawn at tile position
/// (row, col) on a surface `w` pixels wide.
pub open spec fn blit_offset(w: int, row: int, col: int, i: int) -> int {
    (w * (row * 8 + i / 32) + (col * 8 + i % 32 / 4)) * 4 + i % 4
}

/// After one pixel of a tile is stored, every tile byte stored so far is
/// still in place.
proof fn lemma_blit_prefix_preserved(
    old_data: Seq<u8>,
    new_data: Seq<u8>,
    v: BusView,
    base: u16,
    pal: u8,
    w: int,
    h: int,
    row: int,
    col: int,
    ty: int,
    tx: int,
)
    requires
        0 <= ty < 8,
        0 <= tx < 8,
        0 <= col,
        col * 8 + 8 <= w,
        0 <= row,
        (row + 1) * 8 <= h,
        old_data.len() == w * h * 4,
        new_data.len() == old_data.len(),
        forall|j: int|
            0 <= j < old_data.len() && !(blit_offset(w, row, col, 32 * ty + 4 * tx) <= j
                < blit_offset(w, row, col, 32 * ty + 4 * tx) + 4) ==> #[trigger] new_data[j]
                == old_data[j],
        forall|k: int|
            0 <= k < 4 ==> #[trigger] new_data[blit_offset(w, row, col, 32 * ty + 4 * tx) + k]
                == spec_tile_byte(v, base, pal, 32 * ty + 4 * tx + k),
        forall|i: int|
            0 <= i < 32 * ty + 4 * tx ==> #[trigger] old_data[blit_offset(w, row, col, i)]
                == spec_tile_byte(v, base, pal, i),
    ensures
        forall|i: int|
            0 <= i < 32 * ty + 4 * tx + 4 ==> #[trigger] new_data[blit_offset(w, row, col, i)]
                == spec_tile_byte(v, base, pal, i),
{
    let fb = blit_offset(w, row, col, 32 * ty + 4 * tx);
    assert((32 * ty + 4 * tx) / 32 == ty && (32 * ty + 4 * tx) % 32 / 4 == tx && (32 * ty + 4 * tx)
        % 4 == 0);
    assert forall|i: int| 0 <= i < 32 * ty + 4 * tx + 4 implies #[trigger] new_data[blit_offset(
        w,
        row,
        col,
        i,
    )] == spec_tile_byte(v, base, pal, i) by {
        let py = row * 8 + i / 32;
        let px = col * 8 + i % 32 / 4;
        assert(0 <= i / 32 < 8 && 0 <= i % 32 / 4 < 8 && 0 <= i % 4 < 4);
        if i >= 32 * ty + 4 * tx {
            assert(i / 32 == ty && i % 32 / 4 == tx);
            assert(blit_offset(w, row, col, i) == fb + i % 4);
        } else {
            assert(0 <= blit_offset(w, row, col, i) < old_data.len()) by (nonlinear_arith)
                requires
                    blit_offset(w, row, col, i) == (w * py + px) * 4 + i % 4,
                    0 <= px < w,
                    0 <= py,
                    py + 1 <= h,
                    0 <= i % 4 < 4,
                    old_data.len() == w * h * 4,
                    w >= 8,
            ;
            if fb <= blit_offset(w, row, col, i) < fb + 4 {
                let fpy = row * 8 + ty;
                let fpx = col * 8 + tx;
                assert((w * py + px) * 4 + i % 4 == (w * fpy + fpx) * 4 + (32 * ty + 4 * tx) % 4
                    + (blit_offset(w, row, col, i) - fb));
                assert(w * py + px == w * fpy + fpx && i % 4 == blit_offset(w, row, col, i) - fb);
                assert(py == fpy && px == fpx) by (nonlinear_arith)
                    requires
                        0 <= px < w,
                        0 <= fpx < w,
                        w * py + px == w * fpy + fpx,
                ;
                assert(i / 32 == ty && i % 32 / 4 == tx);
                assert(false);
            }
        }
    }
}

/// After one pixel of a tile is stored, every pixel outside the tile's
/// rectangle still holds its original byte.
proof fn lemma_blit_outside_preserved(
    orig: Seq<u8>,
    old_data: Seq<u8>,
    new_data: Seq<u8>,
    w: int,
    h: int,
    row: int,
    col: int,
    ty: int,
    tx: int,
)
    requires
        0 <= ty < 8,
        0 <= tx < 8,
        0 <= col,
        col * 8 + 8 <= w,
        0 <= row,
        (row + 1) * 8 <= h,
        orig.len() == w * h * 4,
        old_data.len() == orig.len(),
        new_data.len() == orig.len(),
        forall|j: int|
            0 <= j < old_data.len() && !(blit_offset(w, row, col, 32 * ty + 4 * tx) <= j
                < blit_offset(w, row, col, 32 * ty + 4 * tx) + 4) ==> #[trigger] new_data[j]
                == old_data[j],
        forall|py: int, px: int, ch: int|
            0 <= py < h && 0 <= px < w && 0 <= ch < 4 && !(row * 8 <= py < row * 8 + 8 && col * 8
                <= px < col * 8 + 8) ==> #[trigger] old_data[(w * py + px) * 4 + ch] == orig[(w
                * py + px) * 4 + ch],
    ensures
        forall|py: int, px: int, ch: int|
            0 <= py < h && 0 <= px < w && 0 <= ch < 4 && !(row * 8 <= py < row * 8 + 8 && col * 8
                <= px < col * 8 + 8) ==> #[trigger] new_data[(w * py + px) * 4 + ch] == orig[(w
                * py + px) * 4 + ch],
{
    let fb = blit_offset(w, row, col, 32 * ty + 4 * tx);
    let fpy = row * 8 + ty;
    let fpx = col * 8 + tx;
    assert((32 * ty + 4 * tx) / 32 == ty && (32 * ty + 4 * tx) % 32 / 4 == tx && (32 * ty + 4 * tx)
        % 4 == 0);
    assert forall|py: int, px: int, ch: int|
        0 <= py < h && 0 <= px < w && 0 <= ch < 4 && !(row * 8 <= py < row * 8 + 8 && col * 8 <= px
            < col * 8 + 8) implies #[trigger] new_data[(w * py + px) * 4 + ch] == orig[(w * py
        + px) * 4 + ch] by {
        let j = (w * py + px) * 4 + ch;
        assert(0 <= j < orig.len()) by (nonlinear_arith)
            requires
                j == (w * py + px) * 4 + ch,
                0 <= px < w,
                0 <= py,
                py + 1 <= h,
                0 <= ch < 4,
                orig.len() == w * h * 4,
                w >= 8,
        ;
        if fb <= j < fb + 4 {
            assert(w * py + px == w * fpy + fpx);
            assert(py == fpy && px == fpx) by (nonlinear_arith)
                requires
                    0 <= px < w,
                    0 <= fpx < w,
                    w * py + px == w * fpy + fpx,
            ;
            assert(false);
        }
    }
}

/// Copy one tile into a layer at tile position (row, column), and step
/// the position one tile forward, wrapping to the next row at the end of
/// a tile row. The copied rectangle takes exactly the decoded tile's
/// bytes and every pixel outside it holds still.
#[verifier::rlimit(100)]
pub fn blit_tile_on_to_layer(
    bus: &mut Bus,
    layer: &mut Layer,
    tile_num: u32,
    tile_framebuffer_current_tile_row: u32,
    tile_framebuffer_current_tile_column: u32,
    force_tile_fetch_method: TileFetchMode,
) -> (next: (u32, u32))
    requires
        old(bus).wf(),
        old(layer).wf(),
        tile_framebuffer_current_tile_column < old(layer).desired_tiles_per_row,
        (tile_framebuffer_current_tile_row + 1) * 8 <= old(layer).height,
    ensures
        final(bus)@ == old(bus)@,
        final(layer).wf(),
        final(layer).width == old(layer).width,
        final(layer).height == old(layer).height,
        final(layer).desired_tiles_per_row == old(layer).desired_tiles_per_row,
        final(layer).data@.len() == old(layer).data@.len(),
        ({
            let w = old(layer).width as int;
            let row = tile_framebuffer_current_tile_row as int;
            let col = tile_framebuffer_current_tile_column as int;
            let base = spec_tile_base(old(bus)@, (tile_num % 256) as u8, force_tile_fetch_method);
            let pal = read8(old(bus)@, 0xFF47);
            &&& (forall|i: int|
                0 <= i < 256 ==> #[trigger] final(layer).data@[blit_offset(w, row, col, i)]
                    == spec_tile_byte(old(bus)@, base, pal, i))
            &&& (forall|py: int, px: int, ch: int|
                0 <= py < old(layer).height && 0 <= px < w && 0 <= ch < 4 && !(row * 8 <= py < row
                    * 8 + 8 && col * 8 <= px < col * 8 + 8) ==> #[trigger] final(layer).data@[(w
                    * py + px) * 4 + ch] == old(layer).data@[(w * py + px) * 4 + ch])
        }),
        next.1 == (if tile_framebuffer_current_tile_column + 1 >= old(
            layer,
        ).desired_tiles_per_row {
            0int
        } else {
            tile_framebuffer_current_tile_column + 1
        }),
        next.0 == (if tile_framebuffer_current_tile_column + 1 >= old(
            layer,
        ).desired_tiles_per_row {
            tile_framebuffer_current_tile_row + 1
        } else {
            tile_framebuffer_current_tile_row as int
        }),
{
    let tile_data = get_tile_data(
        bus,
        (tile_num % 256) as u8,
        force_tile_fetch_method,
        Palette::Bgp,
    );
    let w = layer.desired_tiles_per_row * 8;
    let ghost base = spec_tile_base(bus@, (tile_num % 256) as u8, force_tile_fetch_method);
    let ghost pal = read8(bus@, 0xFF47);
    let ghost wi = old(layer).width as int;
    let ghost hv = old(layer).height as int;
    let ghost row = tile_framebuffer_current_tile_row as int;
    let ghost col = tile_framebuffer_current_tile_column as int;
    proof {
        assert(wi * hv <= 1024 * 1024) by (nonlinear_arith)
            requires
                0 <= wi <= 1024,
                0 <= hv <= 1024,
        ;
    }
    let mut ty: u32 = 0;
    while ty < 8
        invariant
            ty <= 8,
            bus.wf(),
            bus@ == old(bus)@,
            layer.wf(),
            layer.width == old(layer).width,
            layer.height == old(layer).height,
            layer.desired_tiles_per_row == old(layer).desired_tiles_per_row,
            layer.data@.len() == old(layer).data@.len(),
            wi == old(layer).width,
            hv == old(layer).height,
            row == tile_framebuffer_current_tile_row,
            col == tile_framebuffer_current_tile_column,
            w == wi,
            col * 8 + 8 <= wi,
            (row + 1) * 8 <= hv,
            wi * hv * 4 == old(layer).data@.len(),
            wi * hv <= 1024 * 1024,
            base == spec_tile_base(old(bus)@, (tile_num % 256) as u8, force_tile_fetch_method),
            pal == read8(old(bus)@, 0xFF47),
            tile_data@.len() == 256,
            forall|i: int|
                0 <= i < 256 ==> #[trigger] tile_data@[i] == spec_tile_byte(
                    old(bus)@,
                    base,
                    pal,
                    i,
                ),
            forall|i: int|
                0 <= i < 32 * ty ==> #[trigger] layer.data@[blit_offset(wi, row, col, i)]
                    == spec_tile_byte(old(bus)@, base, pal, i),
            forall|py: int, px: int, ch: int|
                0 <= py < hv && 0 <= px < wi && 0 <= ch < 4 && !(row * 8 <= py < row * 8 + 8 && col
                    * 8 <= px < col * 8 + 8) ==> #[trigger] layer.data@[(wi * py + px) * 4 + ch]
                    == old(layer).data@[(wi * py + px) * 4 + ch],
        decreases 8 - ty,
    {
        let fy = tile_framebuffer_current_tile_row * 8 + ty;
        let mut tx: u32 = 0;
        while tx < 8
            invariant
                ty < 8,
                tx <= 8,
                bus.wf(),
                bus@ == old(bus)@,
                layer.wf(),
                layer.width == old(layer).width,
                layer.height == old(layer).height,
                layer.desired_tiles_per_row == old(layer).desired_tiles_per_row,
                layer.data@.len() == old(layer).data@.len(),
                wi == old(layer).width,
                hv == old(layer).height,
                row == tile_framebuffer_current_tile_row,
                col == tile_framebuffer_current_tile_column,
                w == wi,
                fy == row * 8 + ty,
                col * 8 + 8 <= wi,
                (row + 1) * 8 <= hv,
                wi * hv * 4 == old(layer).data@.len(),
            wi * hv <= 1024 * 1024,
                wi * hv <= 1024 * 1024,
                base == spec_tile_base(old(bus)@, (tile_num % 256) as u8, force_tile_fetch_method),
                pal == read8(old(bus)@, 0xFF47),
                tile_data@.len() == 256,
                forall|i: int|
                    0 <= i < 256 ==> #[trigger] tile_data@[i] == spec_tile_byte(
                        old(bus)@,
                        base,
                        pal,
                        i,
                    ),
                forall|i: int|
                    0 <= i < 32 * ty + 4 * tx ==> #[trigger] layer.data@[blit_offset(
                        wi,
                        row,
                        col,
                        i,
                    )] == spec_tile_byte(old(bus)@, base, pal, i),
                forall|py: int, px: int, ch: int|
                    0 <= py < hv && 0 <= px < wi && 0 <= ch < 4 && !(row * 8 <= py < row * 8 + 8
                        && col * 8 <= px < col * 8 + 8) ==> #[trigger] layer.data@[(wi * py + px)
                        * 4 + ch] == old(layer).data@[(wi * py + px) * 4 + ch],
            decreases 8 - tx,
        {
            let ghost data_before = layer.data@;
            let fx = tile_framebuffer_current_tile_column * 8 + tx;
            proof {
                let fyi = fy as int;
                let fxi = fx as int;
                assert((32 * ty + 4 * tx) / 32 == ty && (32 * ty + 4 * tx) % 32 / 4 == tx && (32
                    * ty + 4 * tx) % 4 == 0);
                assert(wi * fyi + fxi < wi * hv) by (nonlinear_arith)
                    requires
                        0 <= fxi < wi,
                        fyi + 1 <= hv,
                        wi >= 1,
                ;
                assert(blit_offset(wi, row, col, 32 * ty + 4 * tx) == (wi * fyi + fxi) * 4);
            }
            let fb_index = ((w * fy + fx) * 4) as usize;
            let tile_index = ((8 * ty + tx) * 4) as usize;
            let p0 = tile_data[tile_index];
            let p1 = tile_data[tile_index + 1];
            let p2 = tile_data[tile_index + 2];
            let p3 = tile_data[tile_index + 3];
            store_pixel(&mut layer.data, fb_index, p0, p1, p2, p3);
            proof {
                assert(tile_index as int == 32 * ty + 4 * tx);
                lemma_blit_prefix_preserved(
                    data_before,
                    layer.data@,
                    old(bus)@,
                    base,
                    pal,
                    wi,
                    hv,
                    row,
                    col,
                    ty as int,
                    tx as int,
                );
                lemma_blit_outside_preserved(
                    old(layer).data@,
                    data_before,
                    layer.data@,
                    wi,
                    hv,
                    row,
                    col,
                    ty as int,
                    tx as int,
                );
            }
            tx = tx + 1;
        }
        ty = ty + 1;
    }
    let mut next_column = tile_framebuffer_current_tile_column + 1;
    let mut next_row = tile_framebuffer_current_tile_row;
    if next_column >= layer.desired_tiles_per_row {
        next_column = 0;
        next_row = next_row + 1;
    }
    (next_row, next_column)
}


/// The PPU's whole state: a free-running cycle counter within the
/// current scanline, four off-screen viewing layers and the visible
/// framebuffer.
pub struct Ppu {
    pub cycles: usize,
    pub tiles: Layer,
    /// Tile map 1, 0x9800..0x9BFF.
    pub background_tile_map_1: Layer,
    /// Tile map 2, 0x9C00..0x9FFF.
    pub background_tile_map_2: Layer,
    pub oam_map: Layer,
    pub screen: Layer,
}

impl Ppu {
    /// Every layer is consistent and has its fixed dimensions.
    pub open spec fn wf(&self) -> bool {
        &&& self.tiles.wf()
        &&& self.tiles.desired_tiles_per_row == 16
        &&& self.tiles.height == 288
        &&& self.background_tile_map_1.wf()
        &&& self.background_tile_map_1.desired_tiles_per_row == 32
        &&& self.background_tile_map_1.height == 256
        &&& self.background_tile_map_2.wf()
        &&& self.background_tile_map_2.desired_tiles_per_row == 32
        &&& self.background_tile_map_2.height == 256
        &&& self.oam_map.wf()
        &&& self.oam_map.desired_tiles_per_row == 8
        &&& self.oam_map.height == 64
        &&& self.screen.wf()
        &&& self.screen.desired_tiles_per_row == 20
        &&& self.screen.height == 144
    }

    pub fn new() -> (r: Ppu)
        ensures
            r.wf(),
            r.cycles == 0,
            forall|i: int| 0 <= i < r.tiles.data@.len() ==> r.tiles.data@[i] == 0,
            forall|i: int|
                0 <= i < r.background_tile_map_1.data@.len() ==> r.background_tile_map_1.data@[i]
                    == 0,
            forall|i: int|
                0 <= i < r.background_tile_map_2.data@.len() ==> r.background_tile_map_2.data@[i]
                    == 0,
            forall|i: int| 0 <= i < r.oam_map.data@.len() ==> r.oam_map.data@[i] == 0,
            forall|i: int| 0 <= i < r.screen.data@.len() ==> r.screen.data@[i] == 0,
    {
        let tiles = Layer::new(crate::GAMEBOY_SCREEN_WIDTH - 32, crate::GAMEBOY_SCREEN_HEIGHT * 2, 16);
        let background_tile_map_1 = Layer::new(256, 256, 32);
        let background_tile_map_2 = Layer::new(256, 256, 32);
        let oam_map = Layer::new(64, 64, 8);
        let screen = Layer::new(
            crate::GAMEBOY_SCREEN_WIDTH,
            crate::GAMEBOY_SCREEN_HEIGHT,
            crate::GAMEBOY_SCREEN_WIDTH / 8,
        );
        Ppu { cycles: 0, tiles, background_tile_map_1, background_tile_map_2, oam_map, screen }
    }
}

/// The bus after a step with the display disabled: LY forced to 0, mode
/// HBlank, the LY = LYC compare refreshed, and the LCD interrupt raised.
pub open spec fn ppu_lcd_off_view(v: BusView) -> BusView {
    let stat0 = read8(v, 0xFF41);
    let iff0 = read8(v, 0xFF0F);
    let eq = 0 == read8(v, 0xFF45);
    let iff1 = if eq {
        iff0 | 0x02
    } else {
        iff0
    };
    let iff2 = iff1 | 0x02;
    let stat1 = stat_with_bit(stat0, 0x40, eq);
    let stat2 = stat_with_bit(stat1, 0x04, stat1 & 0x40 != 0);
    let stat3 = stat_with_mode(stat2, Mode::HBlank);
    let stat4 = stat_with_bit(stat3, 0x08, true);
    let stat5 = stat_with_bit(stat4, 0x10, false);
    let stat6 = stat_with_bit(stat5, 0x20, false);
    write8(write8(write8(v, 0xFF44, 0), 0xFF0F, iff2), 0xFF41, stat6)
}

/// The scanline the PPU shows after a step with the display enabled: LY
/// advances at each line end and wraps past 153.
pub open spec fn ppu_next_ly(v: BusView, cycles: int) -> u8 {
    let ly0 = read8(v, 0xFF44);
    if cycles >= 1824 {
        if ly0 + 1 > 153 {
            0
        } else {
            (ly0 + 1) as u8
        }
    } else {
        ly0
    }
}

/// The bus after a step with the display enabled: at a line end LY
/// advances and VBlank or OAM scan is entered, raising the interrupts
/// the mode asks for — VBlank itself exactly once per frame, on the
/// transition past line 144; within a line the mode follows the cycle
/// thresholds; and the LY = LYC compare bits and interrupt close the
/// step.
pub open spec fn ppu_on_view(v: BusView, cycles: int) -> BusView {
    let stat0 = read8(v, 0xFF41);
    let iff0 = read8(v, 0xFF0F);
    let line_end = cycles >= 1824;
    let ly1 = ppu_next_ly(v, cycles);
    let v1 = if line_end {
        write8(v, 0xFF44, ly1)
    } else {
        v
    };
    let stat1 = if line_end {
        if ly1 > 144 {
            stat_with_bit(
                stat_with_bit(stat_with_bit(stat_with_mode(stat0, Mode::VBlank), 0x10, true), 0x08, false),
                0x20,
                false,
            )
        } else if ly1 < 144 {
            stat_with_bit(
                stat_with_bit(
                    stat_with_bit(stat_with_mode(stat0, Mode::SearchingOam), 0x20, true),
                    0x10,
                    false,
                ),
                0x08,
                false,
            )
        } else {
            stat0
        }
    } else if cycles >= 1476 {
        stat_with_bit(
            stat_with_bit(stat_with_bit(stat_with_mode(stat0, Mode::HBlank), 0x08, true), 0x10, false),
            0x20,
            false,
        )
    } else if cycles >= 320 {
        stat_with_bit(
            stat_with_bit(
                stat_with_bit(stat_with_mode(stat0, Mode::DataTransferToLcd), 0x20, false),
                0x10,
                false,
            ),
            0x08,
            false,
        )
    } else {
        stat0
    };
    let iff1 = if line_end {
        if ly1 == 145 {
            (iff0 | 0x02) | 0x01
        } else if ly1 > 144 {
            iff0 | 0x02
        } else if ly1 < 144 {
            iff0 | 0x02
        } else {
            iff0
        }
    } else if cycles >= 1476 {
        iff0 | 0x02
    } else {
        iff0
    };
    let eq = ly1 == read8(v1, 0xFF45);
    let stat2 = stat_with_bit(stat1, 0x40, eq);
    let stat3 = stat_with_bit(stat2, 0x04, stat2 & 0x40 != 0);
    let iff2 = if eq {
        iff1 | 0x02
    } else {
        iff1
    };
    write8(write8(v1, 0xFF0F, iff2), 0xFF41, stat3)
}

/// The bus after one PPU step.
pub open spec fn ppu_step_view(v: BusView, cycles: int) -> BusView {
    if read8(v, 0xFF40) & 0x80 == 0 {
        ppu_lcd_off_view(v)
    } else {
        ppu_on_view(v, cycles)
    }
}

/// The cycle counter after one PPU step: reset and re-seeded at a line
/// end, advanced past the mode thresholds within a line.
pub open spec fn ppu_next_cycles(v: BusView, cycles: int) -> int {
    if read8(v, 0xFF40) & 0x80 == 0 {
        cycles
    } else if cycles >= 1824 {
        let ly1 = ppu_next_ly(v, cycles);
        if ly1 > 144 {
            1140
        } else if ly1 < 144 {
            20
        } else {
            0
        }
    } else if cycles >= 1476 {
        cycles + 51
    } else if cycles >= 320 {
        cycles + 72
    } else {
        cycles
    }
}

/// Byte `j` (0 to 639) of scanline `ly`'s background strip: the line's
/// tile-map row is walked tile by tile, each tile fetched by the default
/// method and colored through the background palette.
pub open spec fn bg_line_byte(v: BusView, ly: u8, j: int) -> u8 {
    let x = j / 4;
    let tile_id = read8(v, (0x9800 + 32 * (ly / 8) + x / 8) as u16);
    spec_tile_pixel(
        v,
        spec_tile_base(v, tile_id, TileFetchMode::DefaultBehavior),
        read8(v, 0xFF47),
        (ly % 8) as int,
        x % 8,
        j % 4,
    )
}

/// Whether the OAM entry `s` covers column `x` of scanline `ly`: the
/// sprite's stored coordinates place an 8 by 8 tile over it.
pub open spec fn sprite_covers(v: BusView, s: int, ly: u8, x: int) -> bool {
    let sy = (read8(v, (0xFE00 + 4 * s) as u16) + 240) % 0x100;
    let sx = (read8(v, (0xFE00 + 4 * s + 1) as u16) + 248) % 0x100;
    &&& sy <= ly < sy + 8
    &&& sx <= x < sx + 8
}

/// Whether no OAM entry at all covers column `x` of scanline `ly`.
pub open spec fn no_sprite_covers(v: BusView, ly: u8, x: int) -> bool {
    forall|s: int| 0 <= s < 40 ==> !sprite_covers(v, s, ly, x)
}

/// The 2-bit color ID of background pixel `x` on scanline `ly`, which
/// decides sprite priority.
pub open spec fn bg_color_id(v: BusView, ly: u8, x: int) -> u8 {
    let tile_id = read8(v, (0x9800 + 32 * (ly / 8) + x / 8) as u16);
    let base = spec_tile_base(v, tile_id, TileFetchMode::DefaultBehavior);
    spec_pixel_color_id(
        read8(v, (base + 2 * (ly % 8)) as u16),
        read8(v, (base + 2 * (ly % 8) + 1) as u16),
        x % 8,
    )
}

/// The 2-bit color ID sprite `s` shows at column `x` of scanline `ly`,
/// its flips applied; 0 is transparent. Meaningful where the sprite
/// covers the pixel.
pub open spec fn sprite_pixel_id(v: BusView, s: int, ly: u8, x: int) -> u8 {
    let flags = read8(v, (0xFE00 + 4 * s + 3) as u16);
    let sy = (read8(v, (0xFE00 + 4 * s) as u16) + 240) % 0x100;
    let sx = (read8(v, (0xFE00 + 4 * s + 1) as u16) + 248) % 0x100;
    let row = if flags & 0x40 != 0 {
        7 - (ly - sy)
    } else {
        ly - sy
    };
    let bit_x = if flags & 0x20 != 0 {
        7 - (x - sx)
    } else {
        x - sx
    };
    let base = 0x8000 + 16 * read8(v, (0xFE00 + 4 * s + 2) as u16);
    spec_pixel_color_id(
        read8(v, (base + 2 * row) as u16),
        read8(v, (base + 2 * row + 1) as u16),
        bit_x,
    )
}

/// Whether sprite `s` shows a pixel at column `x` of scanline `ly`: it
/// covers it, the pixel is not transparent, and a priority-flagged
/// sprite only shows over background color 0.
pub open spec fn sprite_draws(v: BusView, s: int, ly: u8, x: int) -> bool {
    &&& sprite_covers(v, s, ly, x)
    &&& sprite_pixel_id(v, s, ly, x) != 0
    &&& !(read8(v, (0xFE00 + 4 * s + 3) as u16) & 0x80 != 0 && bg_color_id(v, ly, x) != 0)
}

/// Channel `ch` of the color sprite `s` shows at (x, ly), through the
/// object palette its flags select.
pub open spec fn sprite_pixel_byte(v: BusView, s: int, ly: u8, x: int, ch: int) -> u8 {
    let flags = read8(v, (0xFE00 + 4 * s + 3) as u16);
    let pal = read8(
        v,
        if flags & 0x10 != 0 {
            0xFF49
        } else {
            0xFF48
        },
    );
    spec_shade_channel(spec_palette_shade(pal, sprite_pixel_id(v, s, ly, x)), ch)
}

impl Ppu {
    /// Draw the background strip of scanline `ly`: each of its 160
    /// pixels takes exactly the rasterization `bg_line_byte` names.
    #[verifier::rlimit(100)]
    fn render_background_line(&mut self, bus: &Bus, ly: u8)
        requires
            bus.wf(),
            old(self).wf(),
            ly < 144,
        ensures
            final(self).wf(),
            final(self).cycles == old(self).cycles,
            same_layer(old(self).tiles, final(self).tiles),
            same_layer(old(self).background_tile_map_1, final(self).background_tile_map_1),
            same_layer(old(self).background_tile_map_2, final(self).background_tile_map_2),
            same_layer(old(self).oam_map, final(self).oam_map),
            final(self).screen.width == old(self).screen.width,
            final(self).screen.height == old(self).screen.height,
            final(self).screen.desired_tiles_per_row == old(self).screen.desired_tiles_per_row,
            final(self).screen.data@.len() == old(self).screen.data@.len(),
            forall|i: int|
                0 <= i < old(self).screen.data@.len() && !(ly * 640 <= i < ly * 640 + 640)
                    ==> #[trigger] final(self).screen.data@[i] == old(self).screen.data@[i],
            forall|i: int|
                ly * 640 <= i < ly * 640 + 640 ==> #[trigger] final(self).screen.data@[i]
                    == bg_line_byte(bus@, ly, i - ly * 640),
    {
        let mut tile_col: u32 = 0;
        while tile_col < 20
            invariant
                tile_col <= 20,
                bus.wf(),
                ly < 144,
                self.wf(),
                self.cycles == old(self).cycles,
                same_layer(old(self).tiles, self.tiles),
                same_layer(old(self).background_tile_map_1, self.background_tile_map_1),
                same_layer(old(self).background_tile_map_2, self.background_tile_map_2),
                same_layer(old(self).oam_map, self.oam_map),
                self.screen.width == old(self).screen.width,
                self.screen.height == old(self).screen.height,
                self.screen.desired_tiles_per_row == old(self).screen.desired_tiles_per_row,
                self.screen.data@.len() == old(self).screen.data@.len(),
                forall|i: int|
                    0 <= i < old(self).screen.data@.len() && !(ly * 640 <= i < ly * 640 + 640)
                        ==> #[trigger] self.screen.data@[i] == old(self).screen.data@[i],
                forall|i: int|
                    ly * 640 <= i < ly * 640 + 32 * tile_col ==> #[trigger] self.screen.data@[i]
                        == bg_line_byte(bus@, ly, i - ly * 640),
            decreases 20 - tile_col,
        {
            let bg_tile_map_address: u16 = 0x9800 + 32 * ((ly / 8) as u16) + tile_col as u16;
            let tile_map_index = bus.read(bg_tile_map_address);
            let tile_data = get_tile_data(
                bus,
                tile_map_index,
                TileFetchMode::DefaultBehavior,
                Palette::Bgp,
            );
            let ghost base = spec_tile_base(bus@, tile_map_index, TileFetchMode::DefaultBehavior);
            let ghost pal = read8(bus@, 0xFF47);
            let tile_y = (ly % 8) as usize;
            let screen_base = ((ly as usize) * 160 + (tile_col as usize) * 8) * 4;
            let mut k: usize = 0;
            while k < 32
                invariant
                    k <= 32,
                    bus.wf(),
                    ly < 144,
                    tile_col < 20,
                    tile_y == ly % 8,
                    screen_base == ly * 640 + tile_col * 32,
                    tile_data@.len() == 256,
                    tile_map_index == read8(bus@, (0x9800 + 32 * (ly / 8) + tile_col) as u16),
                    base == spec_tile_base(bus@, tile_map_index, TileFetchMode::DefaultBehavior),
                    pal == read8(bus@, 0xFF47),
                    forall|i: int|
                        0 <= i < 256 ==> #[trigger] tile_data@[i] == spec_tile_byte(
                            bus@,
                            base,
                            pal,
                            i,
                        ),
                    self.wf(),
                    self.cycles == old(self).cycles,
                    same_layer(old(self).tiles, self.tiles),
                    same_layer(old(self).background_tile_map_1, self.background_tile_map_1),
                    same_layer(old(self).background_tile_map_2, self.background_tile_map_2),
                    same_layer(old(self).oam_map, self.oam_map),
                    self.screen.width == old(self).screen.width,
                    self.screen.height == old(self).screen.height,
                    self.screen.desired_tiles_per_row == old(self).screen.desired_tiles_per_row,
                    self.screen.data@.len() == old(self).screen.data@.len(),
                    forall|i: int|
                        0 <= i < old(self).screen.data@.len() && !(ly * 640 <= i < ly * 640 + 640)
                            ==> #[trigger] self.screen.data@[i] == old(self).screen.data@[i],
                    forall|i: int|
                        ly * 640 <= i < ly * 640 + 32 * tile_col + k ==> #[trigger] self.screen.data@[i]
                            == bg_line_byte(bus@, ly, i - ly * 640),
                decreases 32 - k,
            {
                let byte = tile_data[tile_y * 32 + k];
                proof {
                    let j = tile_col * 32 + k as int;
                    assert(j / 4 == tile_col * 8 + k as int / 4 && j % 4 == k as int % 4);
                    assert((tile_col * 8 + k as int / 4) / 8 == tile_col && (tile_col * 8
                        + k as int / 4) % 8 == k as int / 4);
                    let t = (ly % 8) * 32 + k as int;
                    assert(t / 32 == ly % 8 && t % 32 / 4 == k as int / 4 && t % 4 == k as int
                        % 4);
                    assert(spec_tile_byte(bus@, base, pal, t) == bg_line_byte(bus@, ly, j));
                }
                self.screen.data.set(screen_base + k, byte);
                k = k + 1;
            }
            tile_col = tile_col + 1;
        }
    }

    /// Compose scanline `ly` of the framebuffer: the background strip
    /// from tile map 1, then every sprite that covers the line, with
    /// transparency, flips and background priority. A pixel no sprite
    /// covers shows exactly the background rasterization.
    #[verifier::rlimit(100)]
    fn render_scanline(&mut self, bus: &Bus, ly: u8)
        requires
            bus.wf(),
            old(self).wf(),
            ly < 144,
        ensures
            final(self).wf(),
            final(self).cycles == old(self).cycles,
            same_layer(old(self).tiles, final(self).tiles),
            same_layer(old(self).background_tile_map_1, final(self).background_tile_map_1),
            same_layer(old(self).background_tile_map_2, final(self).background_tile_map_2),
            same_layer(old(self).oam_map, final(self).oam_map),
            final(self).screen.width == old(self).screen.width,
            final(self).screen.height == old(self).screen.height,
            final(self).screen.desired_tiles_per_row == old(self).screen.desired_tiles_per_row,
            final(self).screen.data@.len() == old(self).screen.data@.len(),
            // Only scanline `ly` of the framebuffer is touched.
            forall|i: int|
                0 <= i < old(self).screen.data@.len() && !(ly * 640 <= i < ly * 640 + 640)
                    ==> #[trigger] final(self).screen.data@[i] == old(self).screen.data@[i],
            // A pixel of the line that no sprite covers holds the
            // background rasterization.
            forall|i: int|
                ly * 640 <= i < ly * 640 + 640 && no_sprite_covers(bus@, ly, (i - ly * 640) / 4)
                    ==> #[trigger] final(self).screen.data@[i] == bg_line_byte(
                    bus@,
                    ly,
                    i - ly * 640,
                ),
            // Every pixel of the line shows the background or the color
            // of a sprite that draws there, with transparency, flips
            // and background priority applied.
            forall|i: int|
                ly * 640 <= i < ly * 640 + 640 ==> #[trigger] final(self).screen.data@[i]
                    == bg_line_byte(bus@, ly, i - ly * 640) || (exists|s: int|
                    0 <= s < 40 && #[trigger] sprite_draws(bus@, s, ly, (i - ly * 640) / 4)
                        && final(self).screen.data@[i] == sprite_pixel_byte(
                        bus@,
                        s,
                        ly,
                        (i - ly * 640) / 4,
                        (i - ly * 640) % 4,
                    )),
    {
        self.render_background_line(bus, ly);
        // Background color IDs of this line, kept for sprite priority.
        let mut bg_color_ids: Vec<u8> = Vec::new();
        while bg_color_ids.len() < 160
            invariant
                bg_color_ids@.len() <= 160,
            decreases 160 - bg_color_ids@.len(),
        {
            bg_color_ids.push(0);
        }
        let mut tile_col: u32 = 0;
        while tile_col < 20
            invariant
                tile_col <= 20,
                bus.wf(),
                bg_color_ids@.len() == 160,
                forall|x: int|
                    0 <= x < 8 * tile_col ==> #[trigger] bg_color_ids@[x] == bg_color_id(
                        bus@,
                        ly,
                        x,
                    ),
            decreases 20 - tile_col,
        {
            let bg_tile_map_address: u16 = 0x9800 + 32 * ((ly / 8) as u16) + tile_col as u16;
            let tile_map_index = bus.read(bg_tile_map_address);
            let row_base = tile_base(bus, tile_map_index, TileFetchMode::DefaultBehavior);
            let b1 = bus.read(row_base + 2 * (ly % 8) as u16);
            let b2 = bus.read(row_base + 2 * (ly % 8) as u16 + 1);
            let mut px: u8 = 0;
            while px < 8
                invariant
                    px <= 8,
                    tile_col < 20,
                    bus.wf(),
                    bg_color_ids@.len() == 160,
                    tile_map_index == read8(bus@, (0x9800 + 32 * (ly / 8) + tile_col) as u16),
                    row_base == spec_tile_base(bus@, tile_map_index, TileFetchMode::DefaultBehavior),
                    b1 == read8(bus@, (row_base + 2 * (ly % 8)) as u16),
                    b2 == read8(bus@, (row_base + 2 * (ly % 8) + 1) as u16),
                    forall|x: int|
                        0 <= x < 8 * tile_col + px ==> #[trigger] bg_color_ids@[x] == bg_color_id(
                            bus@,
                            ly,
                            x,
                        ),
                decreases 8 - px,
            {
                let id = pixel_color_id(b1, b2, px);
                proof {
                    let x0 = 8 * tile_col + px as int;
                    assert(x0 / 8 == tile_col && x0 % 8 == px);
                    assert(id == bg_color_id(bus@, ly, x0));
                }
                bg_color_ids.set(tile_col as usize * 8 + px as usize, id);
                px = px + 1;
            }
            tile_col = tile_col + 1;
        }
        // Sprites: 40 OAM entries of four bytes each.
        let ghost after_background = self.screen.data@;
        let mut sprite: u16 = 0;
        while sprite < 40
            invariant
                sprite <= 40,
                bus.wf(),
                ly < 144,
                bg_color_ids@.len() == 160,
                forall|x: int|
                    0 <= x < 160 ==> #[trigger] bg_color_ids@[x] == bg_color_id(bus@, ly, x),
                self.wf(),
                self.cycles == old(self).cycles,
                same_layer(old(self).tiles, self.tiles),
                same_layer(old(self).background_tile_map_1, self.background_tile_map_1),
                same_layer(old(self).background_tile_map_2, self.background_tile_map_2),
                same_layer(old(self).oam_map, self.oam_map),
                self.screen.width == old(self).screen.width,
                self.screen.height == old(self).screen.height,
                self.screen.desired_tiles_per_row == old(self).screen.desired_tiles_per_row,
                self.screen.data@.len() == old(self).screen.data@.len(),
                forall|i: int|
                    0 <= i < old(self).screen.data@.len() && !(ly * 640 <= i < ly * 640 + 640)
                        ==> #[trigger] self.screen.data@[i] == old(self).screen.data@[i],
                forall|i: int|
                    ly * 640 <= i < ly * 640 + 640 && no_sprite_covers(
                        bus@,
                        ly,
                        (i - ly * 640) / 4,
                    ) ==> #[trigger] self.screen.data@[i] == after_background[i],
                forall|i: int|
                    ly * 640 <= i < ly * 640 + 640 ==> after_background[i] == bg_line_byte(
                        bus@,
                        ly,
                        i - ly * 640,
                    ),
                forall|i: int|
                    ly * 640 <= i < ly * 640 + 640 ==> #[trigger] self.screen.data@[i]
                        == bg_line_byte(bus@, ly, i - ly * 640) || (exists|s: int|
                        0 <= s < 40 && #[trigger] sprite_draws(bus@, s, ly, (i - ly * 640) / 4)
                            && self.screen.data@[i] == sprite_pixel_byte(
                            bus@,
                            s,
                            ly,
                            (i - ly * 640) / 4,
                            (i - ly * 640) % 4,
                        )),
            decreases 40 - sprite,
        {
            let entry = 0xFE00 + 4 * sprite;
            let sy = ((bus.read(entry) as u16 + 240) % 256) as u8;
            let sx = ((bus.read(entry + 1) as u16 + 248) % 256) as u8;
            let sprite_tile_index = bus.read(entry + 2);
            let sprite_flags = SpriteAttributeFlag(bus.read(entry + 3));
            if ly >= sy && (ly as u16) < sy as u16 + 8 {
                let mut local_row = ly - sy;
                if sprite_flags.y_flip() {
                    local_row = 7 - local_row;
                }
                let palette_address: u16 = if sprite_flags.dmg_palette() {
                    0xFF49
                } else {
                    0xFF48
                };
                let obp = bus.read(palette_address);
                let sprite_row_base: u16 = 0x8000 + 16 * (sprite_tile_index as u16);
                let b1 = bus.read(sprite_row_base + 2 * local_row as u16);
                let b2 = bus.read(sprite_row_base + 2 * local_row as u16 + 1);
                let mut px: u8 = 0;
                while px < 8
                    invariant
                        px <= 8,
                        ly < 144,
                        local_row < 8,
                        sprite < 40,
                        bg_color_ids@.len() == 160,
                        forall|x: int|
                            0 <= x < 160 ==> #[trigger] bg_color_ids@[x] == bg_color_id(
                                bus@,
                                ly,
                                x,
                            ),
                        sy == (read8(bus@, (0xFE00 + 4 * sprite) as u16) + 240) % 0x100,
                        sx == (read8(bus@, (0xFE00 + 4 * sprite + 1) as u16) + 248) % 0x100,
                        sprite_tile_index == read8(bus@, (0xFE00 + 4 * sprite + 2) as u16),
                        sprite_flags.0 == read8(bus@, (0xFE00 + 4 * sprite + 3) as u16),
                        local_row == (if sprite_flags.0 & 0x40 != 0 {
                            7 - (ly - sy)
                        } else {
                            (ly - sy) as int
                        }),
                        obp == read8(
                            bus@,
                            if sprite_flags.0 & 0x10 != 0 {
                                0xFF49
                            } else {
                                0xFF48
                            },
                        ),
                        b1 == read8(bus@, (0x8000 + 16 * sprite_tile_index + 2 * local_row) as u16),
                        b2 == read8(
                            bus@,
                            (0x8000 + 16 * sprite_tile_index + 2 * local_row + 1) as u16,
                        ),
                        ly >= sy,
                        ly < sy + 8,
                        bus.wf(),
                        self.wf(),
                        self.cycles == old(self).cycles,
                        same_layer(old(self).tiles, self.tiles),
                        same_layer(old(self).background_tile_map_1, self.background_tile_map_1),
                        same_layer(old(self).background_tile_map_2, self.background_tile_map_2),
                        same_layer(old(self).oam_map, self.oam_map),
                        self.screen.width == old(self).screen.width,
                        self.screen.height == old(self).screen.height,
                        self.screen.desired_tiles_per_row == old(
                            self,
                        ).screen.desired_tiles_per_row,
                        self.screen.data@.len() == old(self).screen.data@.len(),
                        forall|i: int|
                            0 <= i < old(self).screen.data@.len() && !(ly * 640 <= i < ly * 640
                                + 640) ==> #[trigger] self.screen.data@[i] == old(
                            self,
                            ).screen.data@[i],
                        forall|i: int|
                            ly * 640 <= i < ly * 640 + 640 && no_sprite_covers(
                                bus@,
                                ly,
                                (i - ly * 640) / 4,
                            ) ==> #[trigger] self.screen.data@[i] == after_background[i],
                        forall|i: int|
                            ly * 640 <= i < ly * 640 + 640 ==> after_background[i]
                                == bg_line_byte(bus@, ly, i - ly * 640),
                        forall|i: int|
                            ly * 640 <= i < ly * 640 + 640 ==> #[trigger] self.screen.data@[i]
                                == bg_line_byte(bus@, ly, i - ly * 640) || (exists|s: int|
                                0 <= s < 40 && #[trigger] sprite_draws(
                                    bus@,
                                    s,
                                    ly,
                                    (i - ly * 640) / 4,
                                ) && self.screen.data@[i] == sprite_pixel_byte(
                                    bus@,
                                    s,
                                    ly,
                                    (i - ly * 640) / 4,
                                    (i - ly * 640) % 4,
                                )),
                    decreases 8 - px,
                {
                    let bit_x = if sprite_flags.x_flip() {
                        7 - px
                    } else {
                        px
                    };
                    let id = pixel_color_id(b1, b2, bit_x);
                    let screen_x = sx as u16 + px as u16;
                    // Color 0 is transparent; with priority set, the
                    // sprite only shows over background color 0.
                    if id != 0 && screen_x < 160 {
                        let behind = sprite_flags.priority() && bg_color_ids[screen_x as usize]
                            != 0;
                        if !behind {
                            proof {
                                let x0 = screen_x as int;
                                assert(sprite_covers(bus@, sprite as int, ly, x0));
                                assert(x0 - sx == px);
                                assert(sprite_pixel_id(bus@, sprite as int, ly, x0) == id);
                                assert(sprite_draws(bus@, sprite as int, ly, x0));
                            }
                            let shade = palette_shade(obp, id);
                            let screen_index = ((ly as usize) * 160 + screen_x as usize) * 4;
                            store_pixel(
                                &mut self.screen.data,
                                screen_index,
                                shade_channel_value(shade, 0),
                                shade_channel_value(shade, 1),
                                shade_channel_value(shade, 2),
                                shade_channel_value(shade, 3),
                            );
                        }
                    }
                    px = px + 1;
                }
            }
            sprite = sprite + 1;
        }
    }

    /// One PPU step: with the display off, park the state machine; with
    /// it on, advance the mode thresholds, advance LY at a line end,
    /// render the new line on entering OAM scan, and refresh the LY =
    /// LYC compare. The bus registers move exactly as `ppu_step_view`
    /// says; the framebuffer keeps its shape.
    #[verifier::rlimit(100)]
    #[verifier::spinoff_prover]
    pub fn step(&mut self, bus: &mut Bus)
        requires
            old(bus).wf(),
            old(self).wf(),
        ensures
            final(bus).wf(),
            final(self).wf(),
            final(bus)@ == ppu_step_view(old(bus)@, old(self).cycles as int),
            final(self).cycles == ppu_next_cycles(old(bus)@, old(self).cycles as int),
            same_layer(old(self).tiles, final(self).tiles),
            same_layer(old(self).background_tile_map_1, final(self).background_tile_map_1),
            same_layer(old(self).background_tile_map_2, final(self).background_tile_map_2),
            same_layer(old(self).oam_map, final(self).oam_map),
            final(self).screen.width == old(self).screen.width,
            final(self).screen.height == old(self).screen.height,
            final(self).screen.desired_tiles_per_row == old(self).screen.desired_tiles_per_row,
            final(self).screen.data@.len() == old(self).screen.data@.len(),
            // The framebuffer changes only when a line is entered for
            // OAM scan, and then only on that line.
            ({
                let renders = read8(old(bus)@, 0xFF40) & 0x80 != 0 && old(self).cycles >= 1824
                    && ppu_next_ly(old(bus)@, old(self).cycles as int) < 144;
                let new_ly = ppu_next_ly(old(bus)@, old(self).cycles as int);
                let line = new_ly as int;
                &&& (!renders ==> final(self).screen.data@ == old(self).screen.data@)
                &&& (renders ==> (forall|i: int|
                    0 <= i < old(self).screen.data@.len() && !(line * 640 <= i < line * 640 + 640)
                        ==> #[trigger] final(self).screen.data@[i] == old(self).screen.data@[i]))
                &&& (renders ==> (forall|i: int|
                    line * 640 <= i < line * 640 + 640 && no_sprite_covers(
                        old(bus)@,
                        new_ly,
                        (i - line * 640) / 4,
                    ) ==> #[trigger] final(self).screen.data@[i] == bg_line_byte(
                        old(bus)@,
                        new_ly,
                        i - line * 640,
                    )))
                &&& (renders ==> (forall|i: int|
                    line * 640 <= i < line * 640 + 640 ==> #[trigger] final(self).screen.data@[i]
                        == bg_line_byte(old(bus)@, new_ly, i - line * 640) || (exists|s: int|
                        0 <= s < 40 && #[trigger] sprite_draws(
                            old(bus)@,
                            s,
                            new_ly,
                            (i - line * 640) / 4,
                        ) && final(self).screen.data@[i] == sprite_pixel_byte(
                            old(bus)@,
                            s,
                            new_ly,
                            (i - line * 640) / 4,
                            (i - line * 640) % 4,
                        ))))
            }),
    {
        let lcd_control = bus.read(LCDC);
        let mut ly = bus.read(LY);
        let mut lcd_status = LcdStatusRegister(bus.read(STAT));
        let mut interrupts_flag = bus.read(crate::bus::INTERRUPTS_FLAG);

        if !lcd_control_contains(lcd_control, LcdControlOption::LcdDisplayEnable) {
            bus.write(LY, 0);
            ly = 0;
            if ly == bus.read(LYC) {
                lcd_status.set_lcy_ly_equality(true);
                interrupts_flag = interrupts_flag | 0x02;
            } else {
                lcd_status.set_lcy_ly_equality(false);
            }
            let equality = lcd_status.lcy_ly_equality();
            lcd_status.set_lcy_ly_equality_read_only(equality);
            interrupts_flag = interrupts_flag | 0x02;
            lcd_status.set_mode(Mode::HBlank);
            lcd_status.set_h_blank_interrupt(true);
            lcd_status.set_v_blank_interrupt(false);
            lcd_status.set_oam_interrupt(false);
            bus.write(crate::bus::INTERRUPTS_FLAG, interrupts_flag);
            bus.write(STAT, lcd_status.0);
            return ;
        }
        if self.cycles >= 456 * 4 {
            // Line end.
            self.cycles = 0;
            if ly as u16 + 1 > 153 {
                // Back to line 0.
                bus.write(LY, 0);
                ly = 0;
            } else {
                ly = ly + 1;
                bus.write(LY, ly);
            }
            if ly > 144 {
                // Enter VBlank. The VBlank interrupt itself rises only
                // on the transition past line 144, once per frame; the
                // later blank lines re-raise only the LCD source.
                interrupts_flag = interrupts_flag | 0x02;
                if ly == 145 {
                    interrupts_flag = interrupts_flag | 0x01;
                }
                lcd_status.set_mode(Mode::VBlank);
                lcd_status.set_v_blank_interrupt(true);
                lcd_status.set_h_blank_interrupt(false);
                lcd_status.set_oam_interrupt(false);
                // Ten extra scanlines of vertical blank.
                self.cycles = self.cycles + 456 * 10 / 4;
            } else if ly < 144 {
                // Enter OAM scan and draw the new line.
                interrupts_flag = interrupts_flag | 0x02;
                lcd_status.set_mode(Mode::SearchingOam);
                lcd_status.set_oam_interrupt(true);
                lcd_status.set_v_blank_interrupt(false);
                lcd_status.set_h_blank_interrupt(false);
                self.render_scanline(bus, ly);
                proof {
                    let v0 = old(bus)@;
                    let vnow = bus@;
                    assert forall|j: int| 0 <= j < 640 implies #[trigger] bg_line_byte(vnow, ly, j)
                        == bg_line_byte(v0, ly, j) by {
                        assert(read8(vnow, (0x9800 + 32 * (ly / 8) + j / 4 / 8) as u16) == read8(
                            v0,
                            (0x9800 + 32 * (ly / 8) + j / 4 / 8) as u16,
                        ));
                    }
                    assert forall|x: int| no_sprite_covers(v0, ly, x) implies no_sprite_covers(
                        vnow,
                        ly,
                        x,
                    ) by {
                        assert forall|s: int| 0 <= s < 40 implies !sprite_covers(
                            vnow,
                            s,
                            ly,
                            x,
                        ) by {
                            assert(!sprite_covers(v0, s, ly, x));
                        }
                    }
                    assert forall|s: int, x: int| 0 <= s < 40 && 0 <= x
                        < 160 implies #[trigger] sprite_draws(vnow, s, ly, x) == sprite_draws(
                        v0,
                        s,
                        ly,
                        x,
                    ) by {
                        assert(sprite_covers(vnow, s, ly, x) == sprite_covers(v0, s, ly, x));
                        assert(sprite_pixel_id(vnow, s, ly, x) == sprite_pixel_id(v0, s, ly, x));
                        assert(read8(vnow, (0x9800 + 32 * (ly / 8) + x / 8) as u16) == read8(
                            v0,
                            (0x9800 + 32 * (ly / 8) + x / 8) as u16,
                        ));
                        assert(bg_color_id(vnow, ly, x) == bg_color_id(v0, ly, x));
                    }
                    assert forall|s: int, x: int, ch: int| 0 <= s < 40 && 0 <= x
                        < 160 implies #[trigger] sprite_pixel_byte(vnow, s, ly, x, ch)
                        == sprite_pixel_byte(v0, s, ly, x, ch) by {
                        assert(sprite_pixel_id(vnow, s, ly, x) == sprite_pixel_id(v0, s, ly, x));
                    }
                    let data = self.screen.data@;
                    assert forall|i: int| ly * 640 <= i < ly * 640 + 640 implies #[trigger] data[i]
                        == bg_line_byte(v0, ly, i - ly * 640) || (exists|s: int|
                        0 <= s < 40 && #[trigger] sprite_draws(v0, s, ly, (i - ly * 640) / 4)
                            && data[i] == sprite_pixel_byte(
                            v0,
                            s,
                            ly,
                            (i - ly * 640) / 4,
                            (i - ly * 640) % 4,
                        )) by {
                        let x = (i - ly * 640) / 4;
                        let ch = (i - ly * 640) % 4;
                        if data[i] != bg_line_byte(vnow, ly, i - ly * 640) {
                            let s = choose|s: int|
                                0 <= s < 40 && #[trigger] sprite_draws(vnow, s, ly, x) && data[i]
                                    == sprite_pixel_byte(vnow, s, ly, x, ch);
                            assert(sprite_draws(v0, s, ly, x));
                            assert(data[i] == sprite_pixel_byte(v0, s, ly, x, ch));
                        }
                    }
                }
                self.cycles = self.cycles + 80 / 4;
            }
        } else if self.cycles >= 369 * 4 {
            // Enter HBlank.
            interrupts_flag = interrupts_flag | 0x02;
            lcd_status.set_mode(Mode::HBlank);
            lcd_status.set_h_blank_interrupt(true);
            lcd_status.set_v_blank_interrupt(false);
            lcd_status.set_oam_interrupt(false);
            self.cycles = self.cycles + 204 / 4;
        } else if self.cycles >= 80 * 4 {
            // Enter drawing.
            lcd_status.set_mode(Mode::DataTransferToLcd);
            lcd_status.set_oam_interrupt(false);
            lcd_status.set_v_blank_interrupt(false);
            lcd_status.set_h_blank_interrupt(false);
            self.cycles = self.cycles + 289 / 4;
        }
        if ly == bus.read(LYC) {
            lcd_status.set_lcy_ly_equality(true);
            interrupts_flag = interrupts_flag | 0x02;
        } else {
            lcd_status.set_lcy_ly_equality(false);
        }
        let equality = lcd_status.lcy_ly_equality();
        lcd_status.set_lcy_ly_equality_read_only(equality);
        bus.write(crate::bus::INTERRUPTS_FLAG, interrupts_flag);
        bus.write(STAT, lcd_status.0);
    }
}


/// Redraw the tile viewer layer: after the call, its first sixteen tile
/// rows show the 256 unsigned-method tiles in order, and the next eight
/// the 128 tiles only the signed method reaches.
#[verifier::loop_isolation(false)]
#[verifier::rlimit(100)]
pub fn ppu_fill_tiles(bus: &mut Bus, ppu: &mut Ppu)
    requires
        old(bus).wf(),
        old(ppu).wf(),
    ensures
        final(bus)@ == old(bus)@,
        final(ppu).wf(),
        final(ppu).cycles == old(ppu).cycles,
        same_layer(old(ppu).background_tile_map_1, final(ppu).background_tile_map_1),
        same_layer(old(ppu).background_tile_map_2, final(ppu).background_tile_map_2),
        same_layer(old(ppu).oam_map, final(ppu).oam_map),
        same_layer(old(ppu).screen, final(ppu).screen),
        forall|t: int, i: int|
            0 <= t < 256 && 0 <= i < 256 ==> #[trigger] final(ppu).tiles.data@[blit_offset(
                128,
                t / 16,
                t % 16,
                i,
            )] == spec_tile_byte(
                old(bus)@,
                spec_tile_base(old(bus)@, t as u8, TileFetchMode::Unsigned8000),
                read8(old(bus)@, 0xFF47),
                i,
            ),
        forall|t: int, i: int|
            0 <= t < 128 && 0 <= i < 256 ==> #[trigger] final(ppu).tiles.data@[blit_offset(
                128,
                16 + t / 16,
                t % 16,
                i,
            )] == spec_tile_byte(
                old(bus)@,
                spec_tile_base(old(bus)@, t as u8, TileFetchMode::Signed8800),
                read8(old(bus)@, 0xFF47),
                i,
            ),
{
    let mut tile_framebuffer_row: u32 = 0;
    let mut tile_framebuffer_column: u32 = 0;
    let mut tile_num: u32 = 0;
    while tile_num < 256
        invariant
            tile_num <= 256,
            bus.wf(),
            bus@ == old(bus)@,
            ppu.wf(),
            ppu.cycles == old(ppu).cycles,
            same_layer(old(ppu).background_tile_map_1, ppu.background_tile_map_1),
            same_layer(old(ppu).background_tile_map_2, ppu.background_tile_map_2),
            same_layer(old(ppu).oam_map, ppu.oam_map),
            same_layer(old(ppu).screen, ppu.screen),
            tile_framebuffer_column == tile_num % 16,
            tile_framebuffer_row == tile_num / 16,
            forall|t: int, i: int|
                0 <= t < tile_num && 0 <= i < 256 ==> #[trigger] ppu.tiles.data@[blit_offset(
                    128,
                    t / 16,
                    t % 16,
                    i,
                )] == spec_tile_byte(
                    old(bus)@,
                    spec_tile_base(old(bus)@, t as u8, TileFetchMode::Unsigned8000),
                    read8(old(bus)@, 0xFF47),
                    i,
                ),
        decreases 256 - tile_num,
    {
        let ghost before = ppu.tiles.data@;
        let (next_row, next_column) = blit_tile_on_to_layer(
            bus,
            &mut ppu.tiles,
            tile_num,
            tile_framebuffer_row,
            tile_framebuffer_column,
            TileFetchMode::Unsigned8000,
        );
        proof {
            let k = tile_num as int;
            let data = ppu.tiles.data@;
            assert forall|t: int, i: int|
                0 <= t < k + 1 && 0 <= i < 256 implies #[trigger] data[blit_offset(
                128,
                t / 16,
                t % 16,
                i,
            )] == spec_tile_byte(
                old(bus)@,
                spec_tile_base(old(bus)@, t as u8, TileFetchMode::Unsigned8000),
                read8(old(bus)@, 0xFF47),
                i,
            ) by {
                let py = t / 16 * 8 + i / 32;
                let px = t % 16 * 8 + i % 32 / 4;
                let ch = i % 4;
                assert(blit_offset(128, t / 16, t % 16, i) == (128 * py + px) * 4 + ch);
                if t < k {
                    assert(py < 288 && px < 128);
                    assert(!(k / 16 * 8 <= py < k / 16 * 8 + 8 && k % 16 * 8 <= px < k % 16 * 8
                        + 8));
                    assert(data[(128 * py + px) * 4 + ch] == before[(128 * py + px) * 4 + ch]);
                } else {
                    assert((tile_num as u32 % 256) as u8 == t as u8);
                    assert(data[blit_offset(128, t / 16, t % 16, i)] == spec_tile_byte(
                        old(bus)@,
                        spec_tile_base(old(bus)@, t as u8, TileFetchMode::Unsigned8000),
                        read8(old(bus)@, 0xFF47),
                        i,
                    ));
                }
            }
        }
        tile_framebuffer_row = next_row;
        tile_framebuffer_column = next_column;
        tile_num = tile_num + 1;
    }
    let mut tile_num: u32 = 0;
    while tile_num < 128
        invariant
            tile_num <= 128,
            bus.wf(),
            bus@ == old(bus)@,
            ppu.wf(),
            ppu.cycles == old(ppu).cycles,
            same_layer(old(ppu).background_tile_map_1, ppu.background_tile_map_1),
            same_layer(old(ppu).background_tile_map_2, ppu.background_tile_map_2),
            same_layer(old(ppu).oam_map, ppu.oam_map),
            same_layer(old(ppu).screen, ppu.screen),
            tile_framebuffer_column == tile_num % 16,
            tile_framebuffer_row == 16 + tile_num / 16,
            forall|t: int, i: int|
                0 <= t < 256 && 0 <= i < 256 ==> #[trigger] ppu.tiles.data@[blit_offset(
                    128,
                    t / 16,
                    t % 16,
                    i,
                )] == spec_tile_byte(
                    old(bus)@,
                    spec_tile_base(old(bus)@, t as u8, TileFetchMode::Unsigned8000),
                    read8(old(bus)@, 0xFF47),
                    i,
                ),
            forall|t: int, i: int|
                0 <= t < tile_num && 0 <= i < 256 ==> #[trigger] ppu.tiles.data@[blit_offset(
                    128,
                    16 + t / 16,
                    t % 16,
                    i,
                )] == spec_tile_byte(
                    old(bus)@,
                    spec_tile_base(old(bus)@, t as u8, TileFetchMode::Signed8800),
                    read8(old(bus)@, 0xFF47),
                    i,
                ),
        decreases 128 - tile_num,
    {
        let ghost before = ppu.tiles.data@;
        let (next_row, next_column) = blit_tile_on_to_layer(
            bus,
            &mut ppu.tiles,
            tile_num,
            tile_framebuffer_row,
            tile_framebuffer_column,
            TileFetchMode::Signed8800,
        );
        proof {
            let k = tile_num as int;
            let data = ppu.tiles.data@;
            assert forall|t: int, i: int|
                0 <= t < 256 && 0 <= i < 256 implies #[trigger] data[blit_offset(
                128,
                t / 16,
                t % 16,
                i,
            )] == spec_tile_byte(
                old(bus)@,
                spec_tile_base(old(bus)@, t as u8, TileFetchMode::Unsigned8000),
                read8(old(bus)@, 0xFF47),
                i,
            ) by {
                let py = t / 16 * 8 + i / 32;
                let px = t % 16 * 8 + i % 32 / 4;
                let ch = i % 4;
                assert(blit_offset(128, t / 16, t % 16, i) == (128 * py + px) * 4 + ch);
                assert(py < 128 && px < 128);
                assert(!((16 + k / 16) * 8 <= py < (16 + k / 16) * 8 + 8));
                assert(data[(128 * py + px) * 4 + ch] == before[(128 * py + px) * 4 + ch]);
            }
            assert forall|t: int, i: int|
                0 <= t < k + 1 && 0 <= i < 256 implies #[trigger] data[blit_offset(
                128,
                16 + t / 16,
                t % 16,
                i,
            )] == spec_tile_byte(
                old(bus)@,
                spec_tile_base(old(bus)@, t as u8, TileFetchMode::Signed8800),
                read8(old(bus)@, 0xFF47),
                i,
            ) by {
                let py = (16 + t / 16) * 8 + i / 32;
                let px = t % 16 * 8 + i % 32 / 4;
                let ch = i % 4;
                assert(blit_offset(128, 16 + t / 16, t % 16, i) == (128 * py + px) * 4 + ch);
                if t < k {
                    assert(py < 288 && px < 128);
                    assert(!((16 + k / 16) * 8 <= py < (16 + k / 16) * 8 + 8 && k % 16 * 8 <= px
                        < k % 16 * 8 + 8));
                    assert(data[(128 * py + px) * 4 + ch] == before[(128 * py + px) * 4 + ch]);
                } else {
                    assert((tile_num as u32 % 256) as u8 == t as u8);
                    assert(data[blit_offset(128, 16 + t / 16, t % 16, i)] == spec_tile_byte(
                        old(bus)@,
                        spec_tile_base(old(bus)@, t as u8, TileFetchMode::Signed8800),
                        read8(old(bus)@, 0xFF47),
                        i,
                    ));
                }
            }
        }
        tile_framebuffer_row = next_row;
        tile_framebuffer_column = next_column;
        tile_num = tile_num + 1;
    }
}

/// Byte `i` of the decoded tile that entry `t` of a tile map at `map`
/// names, fetched by the default method and colored through the
/// background palette.
pub open spec fn map_tile_byte(v: BusView, map: u16, t: int, i: int) -> u8 {
    spec_tile_byte(
        v,
        spec_tile_base(v, read8(v, (map + t) as u16), TileFetchMode::DefaultBehavior),
        read8(v, 0xFF47),
        i,
    )
}

/// Redraw the first background tile map layer: after the call, tile `t`
/// of the layer shows exactly the tile that entry `t` of the map at
/// 0x9800 names.
#[verifier::loop_isolation(false)]
#[verifier::rlimit(100)]
pub fn ppu_fill_background_tile_map_1(bus: &mut Bus, ppu: &mut Ppu)
    requires
        old(bus).wf(),
        old(ppu).wf(),
    ensures
        final(bus)@ == old(bus)@,
        final(ppu).wf(),
        final(ppu).cycles == old(ppu).cycles,
        same_layer(old(ppu).tiles, final(ppu).tiles),
        same_layer(old(ppu).background_tile_map_2, final(ppu).background_tile_map_2),
        same_layer(old(ppu).oam_map, final(ppu).oam_map),
        same_layer(old(ppu).screen, final(ppu).screen),
        forall|t: int, i: int|
            0 <= t < 1024 && 0 <= i < 256 ==> #[trigger] final(ppu).background_tile_map_1.data@[blit_offset(
                256,
                t / 32,
                t % 32,
                i,
            )] == map_tile_byte(old(bus)@, 0x9800, t, i),
{
    let mut tile_framebuffer_row: u32 = 0;
    let mut tile_framebuffer_column: u32 = 0;
    let mut index: u32 = 0;
    while index < 1024
        invariant
            index <= 1024,
            bus.wf(),
            bus@ == old(bus)@,
            ppu.wf(),
            ppu.cycles == old(ppu).cycles,
            same_layer(old(ppu).tiles, ppu.tiles),
            same_layer(old(ppu).background_tile_map_2, ppu.background_tile_map_2),
            same_layer(old(ppu).oam_map, ppu.oam_map),
            same_layer(old(ppu).screen, ppu.screen),
            tile_framebuffer_column == index % 32,
            tile_framebuffer_row == index / 32,
            forall|t: int, i: int|
                0 <= t < index && 0 <= i < 256 ==> #[trigger] ppu.background_tile_map_1.data@[blit_offset(
                    256,
                    t / 32,
                    t % 32,
                    i,
                )] == map_tile_byte(old(bus)@, 0x9800, t, i),
        decreases 1024 - index,
    {
        let ghost before = ppu.background_tile_map_1.data@;
        let tile_map_index = bus.read(0x9800 + index as u16);
        let (next_row, next_column) = blit_tile_on_to_layer(
            bus,
            &mut ppu.background_tile_map_1,
            tile_map_index as u32,
            tile_framebuffer_row,
            tile_framebuffer_column,
            TileFetchMode::DefaultBehavior,
        );
        proof {
            let k = index as int;
            let data = ppu.background_tile_map_1.data@;
            assert forall|t: int, i: int|
                0 <= t < k + 1 && 0 <= i < 256 implies #[trigger] data[blit_offset(
                256,
                t / 32,
                t % 32,
                i,
            )] == map_tile_byte(old(bus)@, 0x9800, t, i) by {
                let py = t / 32 * 8 + i / 32;
                let px = t % 32 * 8 + i % 32 / 4;
                let ch = i % 4;
                assert(blit_offset(256, t / 32, t % 32, i) == (256 * py + px) * 4 + ch);
                if t < k {
                    assert(py < 256 && px < 256);
                    assert(!(k / 32 * 8 <= py < k / 32 * 8 + 8 && k % 32 * 8 <= px < k % 32 * 8
                        + 8));
                    assert(data[(256 * py + px) * 4 + ch] == before[(256 * py + px) * 4 + ch]);
                } else {
                    assert(data[blit_offset(256, t / 32, t % 32, i)] == spec_tile_byte(
                        old(bus)@,
                        spec_tile_base(
                            old(bus)@,
                            (tile_map_index as u32 % 256) as u8,
                            TileFetchMode::DefaultBehavior,
                        ),
                        read8(old(bus)@, 0xFF47),
                        i,
                    ));
                }
            }
        }
        tile_framebuffer_row = next_row;
        tile_framebuffer_column = next_column;
        index = index + 1;
    }
}

/// Redraw the second background tile map layer: after the call, tile
/// `t` of the layer shows exactly the tile that entry `t` of the map at
/// 0x9C00 names.
#[verifier::loop_isolation(false)]
#[verifier::rlimit(100)]
pub fn ppu_fill_background_tile_map_2(bus: &mut Bus, ppu: &mut Ppu)
    requires
        old(bus).wf(),
        old(ppu).wf(),
    ensures
        final(bus)@ == old(bus)@,
        final(ppu).wf(),
        final(ppu).cycles == old(ppu).cycles,
        same_layer(old(ppu).tiles, final(ppu).tiles),
        same_layer(old(ppu).background_tile_map_1, final(ppu).background_tile_map_1),
        same_layer(old(ppu).oam_map, final(ppu).oam_map),
        same_layer(old(ppu).screen, final(ppu).screen),
        forall|t: int, i: int|
            0 <= t < 1024 && 0 <= i < 256 ==> #[trigger] final(ppu).background_tile_map_2.data@[blit_offset(
                256,
                t / 32,
                t % 32,
                i,
            )] == map_tile_byte(old(bus)@, 0x9C00, t, i),
{
    let mut tile_framebuffer_row: u32 = 0;
    let mut tile_framebuffer_column: u32 = 0;
    let mut index: u32 = 0;
    while index < 1024
        invariant
            index <= 1024,
            bus.wf(),
            bus@ == old(bus)@,
            ppu.wf(),
            ppu.cycles == old(ppu).cycles,
            same_layer(old(ppu).tiles, ppu.tiles),
            same_layer(old(ppu).background_tile_map_1, ppu.background_tile_map_1),
            same_layer(old(ppu).oam_map, ppu.oam_map),
            same_layer(old(ppu).screen, ppu.screen),
            tile_framebuffer_column == index % 32,
            tile_framebuffer_row == index / 32,
            forall|t: int, i: int|
                0 <= t < index && 0 <= i < 256 ==> #[trigger] ppu.background_tile_map_2.data@[blit_offset(
                    256,
                    t / 32,
                    t % 32,
                    i,
                )] == map_tile_byte(old(bus)@, 0x9C00, t, i),
        decreases 1024 - index,
    {
        let ghost before = ppu.background_tile_map_2.data@;
        let tile_map_index = bus.read(0x9C00 + index as u16);
        let (next_row, next_column) = blit_tile_on_to_layer(
            bus,
            &mut ppu.background_tile_map_2,
            tile_map_index as u32,
            tile_framebuffer_row,
            tile_framebuffer_column,
            TileFetchMode::DefaultBehavior,
        );
        proof {
            let k = index as int;
            let data = ppu.background_tile_map_2.data@;
            assert forall|t: int, i: int|
                0 <= t < k + 1 && 0 <= i < 256 implies #[trigger] data[blit_offset(
                256,
                t / 32,
                t % 32,
                i,
            )] == map_tile_byte(old(bus)@, 0x9C00, t, i) by {
                let py = t / 32 * 8 + i / 32;
                let px = t % 32 * 8 + i % 32 / 4;
                let ch = i % 4;
                assert(blit_offset(256, t / 32, t % 32, i) == (256 * py + px) * 4 + ch);
                if t < k {
                    assert(py < 256 && px < 256);
                    assert(!(k / 32 * 8 <= py < k / 32 * 8 + 8 && k % 32 * 8 <= px < k % 32 * 8
                        + 8));
                    assert(data[(256 * py + px) * 4 + ch] == before[(256 * py + px) * 4 + ch]);
                } else {
                    assert(data[blit_offset(256, t / 32, t % 32, i)] == spec_tile_byte(
                        old(bus)@,
                        spec_tile_base(
                            old(bus)@,
                            (tile_map_index as u32 % 256) as u8,
                            TileFetchMode::DefaultBehavior,
                        ),
                        read8(old(bus)@, 0xFF47),
                        i,
                    ));
                }
            }
        }
        tile_framebuffer_row = next_row;
        tile_framebuffer_column = next_column;
        index = index + 1;
    }
}

/// Byte `i` of the decoded tile that OAM entry `t` names, fetched by
/// the unsigned method sprites use.
pub open spec fn oam_tile_byte(v: BusView, t: int, i: int) -> u8 {
    spec_tile_byte(
        v,
        spec_tile_base(
            v,
            read8(v, (0xFE00 + 4 * t + 2) as u16),
            TileFetchMode::Unsigned8000,
        ),
        read8(v, 0xFF47),
        i,
    )
}

/// Redraw the sprite viewer layer: after the call, tile `t` of the
/// layer shows exactly the tile OAM entry `t` names.
#[verifier::loop_isolation(false)]
#[verifier::rlimit(100)]
pub fn ppu_fill_oam_map(bus: &mut Bus, ppu: &mut Ppu)
    requires
        old(bus).wf(),
        old(ppu).wf(),
    ensures
        final(bus)@ == old(bus)@,
        final(ppu).wf(),
        final(ppu).cycles == old(ppu).cycles,
        same_layer(old(ppu).tiles, final(ppu).tiles),
        same_layer(old(ppu).background_tile_map_1, final(ppu).background_tile_map_1),
        same_layer(old(ppu).background_tile_map_2, final(ppu).background_tile_map_2),
        same_layer(old(ppu).screen, final(ppu).screen),
        forall|t: int, i: int|
            0 <= t < 40 && 0 <= i < 256 ==> #[trigger] final(ppu).oam_map.data@[blit_offset(
                64,
                t / 8,
                t % 8,
                i,
            )] == oam_tile_byte(old(bus)@, t, i),
{
    let mut tile_framebuffer_row: u32 = 0;
    let mut tile_framebuffer_column: u32 = 0;
    let mut sprite: u32 = 0;
    while sprite < 40
        invariant
            sprite <= 40,
            bus.wf(),
            bus@ == old(bus)@,
            ppu.wf(),
            ppu.cycles == old(ppu).cycles,
            same_layer(old(ppu).tiles, ppu.tiles),
            same_layer(old(ppu).background_tile_map_1, ppu.background_tile_map_1),
            same_layer(old(ppu).background_tile_map_2, ppu.background_tile_map_2),
            same_layer(old(ppu).screen, ppu.screen),
            tile_framebuffer_column == sprite % 8,
            tile_framebuffer_row == sprite / 8,
            forall|t: int, i: int|
                0 <= t < sprite && 0 <= i < 256 ==> #[trigger] ppu.oam_map.data@[blit_offset(
                    64,
                    t / 8,
                    t % 8,
                    i,
                )] == oam_tile_byte(old(bus)@, t, i),
        decreases 40 - sprite,
    {
        let ghost before = ppu.oam_map.data@;
        let tile_map_index = bus.read(0xFE00 + (4 * sprite) as u16 + 2);
        let (next_row, next_column) = blit_tile_on_to_layer(
            bus,
            &mut ppu.oam_map,
            tile_map_index as u32,
            tile_framebuffer_row,
            tile_framebuffer_column,
            TileFetchMode::Unsigned8000,
        );
        proof {
            let k = sprite as int;
            let data = ppu.oam_map.data@;
            assert forall|t: int, i: int|
                0 <= t < k + 1 && 0 <= i < 256 implies #[trigger] data[blit_offset(
                64,
                t / 8,
                t % 8,
                i,
            )] == oam_tile_byte(old(bus)@, t, i) by {
                let py = t / 8 * 8 + i / 32;
                let px = t % 8 * 8 + i % 32 / 4;
                let ch = i % 4;
                assert(blit_offset(64, t / 8, t % 8, i) == (64 * py + px) * 4 + ch);
                if t < k {
                    assert(py < 64 && px < 64);
                    assert(!(k / 8 * 8 <= py < k / 8 * 8 + 8 && k % 8 * 8 <= px < k % 8 * 8 + 8));
                    assert(data[(64 * py + px) * 4 + ch] == before[(64 * py + px) * 4 + ch]);
                } else {
                    assert(data[blit_offset(64, t / 8, t % 8, i)] == spec_tile_byte(
                        old(bus)@,
                        spec_tile_base(
                            old(bus)@,
                            (tile_map_index as u32 % 256) as u8,
                            TileFetchMode::Unsigned8000,
                        ),
                        read8(old(bus)@, 0xFF47),
                        i,
                    ));
                }
            }
        }
        tile_framebuffer_row = next_row;
        tile_framebuffer_column = next_column;
        sprite = sprite + 1;
    }
}

/// Law: LY stays on the scanline cycle. Within a line LY is untouched;
/// at a line end it advances by one and wraps to 0 past 153, so from any
/// LY at or below 153 it never leaves 0..153.
pub proof fn lemma_ly_cycles(v: BusView, cycles: int)
    requires
        wf_view(v),
        read8(v, 0xFF40) & 0x80 != 0,
    ensures
        ({
            let ly0 = read8(v, 0xFF44);
            let ly1 = read8(ppu_step_view(v, cycles), 0xFF44);
            &&& (cycles < 1824 ==> ly1 == ly0)
            &&& (cycles >= 1824 ==> ly1 == (if ly0 + 1 > 153 {
                0
            } else {
                (ly0 + 1) as u8
            }))
            &&& (ly0 <= 153 ==> ly1 <= 153)
        }),
{
}

/// Law: the VBlank interrupt is raised exactly once per frame, at the
/// line end where LY moves past 144 into line 145; every other step,
/// the later blank lines included, leaves the VBlank flag bit as it
/// was.
pub proof fn lemma_vblank_raised_entering_vertical_blank(v: BusView, cycles: int)
    requires
        wf_view(v),
        read8(v, 0xFF40) & 0x80 != 0,
    ensures
        ({
            let entered = cycles >= 1824 && ppu_next_ly(v, cycles) == 145;
            let bit0 = read8(v, 0xFF0F) & 0x01;
            let bit1 = read8(ppu_step_view(v, cycles), 0xFF0F) & 0x01;
            bit1 == (if entered {
                0x01u8
            } else {
                bit0
            })
        }),
{
    let iff0 = read8(v, 0xFF0F);
    assert((iff0 | 0xE0) & 0x01 == iff0 & 0x01 && ((iff0 | 0x02) | 0xE0) & 0x01 == iff0 & 0x01 && (
    ((iff0 | 0x02) | 0x02) | 0xE0) & 0x01 == iff0 & 0x01 && (((iff0 | 0x02) | 0x01) | 0xE0) & 0x01
        == 0x01 && ((((iff0 | 0x02) | 0x01) | 0x02) | 0xE0) & 0x01 == 0x01) by (bit_vector);
}

} // verus!
