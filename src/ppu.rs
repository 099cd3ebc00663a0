//! The scanline picture processing unit.
use crate::bus::{
    BusView, MemorySystem, INT_LCD_STAT, INT_VBLANK, REG_BGP, REG_DMA, REG_IF, REG_LCDC, REG_LY,
    REG_LYC, REG_OBP0, REG_OBP1, REG_SCX, REG_SCY, REG_STAT, REG_WX, REG_WY,
};
use crate::sprite::Sprite;
use vstd::prelude::*;

verus! {

pub const LCD_WIDTH: usize = 160;
pub const LCD_HEIGHT: usize = 144;
pub const FRAME_SIZE: usize = 23040;
pub const CYCLES_PER_LINE: u64 = 456;
pub const LINES_PER_FRAME: u8 = 154;
pub const MAX_SPRITES_PER_LINE: usize = 10;

/// `LCDC` bits.
pub const LCDC_ENABLE: u8 = 0x80;
pub const LCDC_TILEDATA_AREA: u8 = 0x10;
pub const LCDC_TILEMAP_AREA: u8 = 0x08;
pub const LCDC_OBJ_SIZE: u8 = 0x04;
pub const LCDC_OBJ_ENABLE: u8 = 0x02;
pub const LCDC_BG_WINDOW_ENABLE: u8 = 0x01;

/// `STAT` bits.
pub const STAT_LYC_INTERRUPT: u8 = 0x40;
pub const STAT_LYC_EQUAL: u8 = 0x04;
pub const MODE_HBLANK: u8 = 0;
pub const MODE_VBLANK: u8 = 1;

/// The shade a palette register gives a colour id.
pub open spec fn palette_color(palette: u8, color_id: u8) -> u8 {
    (palette >> ((color_id * 2) as u8)) & 0x03
}

/// Colour id of a pixel from the two bytes of a tile row.
pub open spec fn pixel_id(lo: u8, hi: u8, bit: u8) -> u8 {
    (((hi >> bit) & 0x01) * 2 + ((lo >> bit) & 0x01)) as u8
}

/// VRAM offset of the first byte of a background tile.
pub open spec fn tile_data_offset(lcdc: u8, tile: u8) -> int {
    if lcdc & LCDC_TILEDATA_AREA != 0 {
        tile as int * 16
    } else if tile < 128 {
        0x1000 + tile as int * 16
    } else {
        0x0800 + (tile as int - 128) * 16
    }
}

/// Background colour id at column `x` of scanline `line`.
pub open spec fn bg_color_id(m: BusView, line: u8, x: int) -> u8 {
    let lcdc = m.peek(REG_LCDC);
    let tilemap: int = if lcdc & LCDC_TILEMAP_AREA != 0 {
        0x1C00
    } else {
        0x1800
    };
    let bg_y = (line + m.peek(REG_SCY)) % 256;
    let bg_x = (x + m.peek(REG_SCX)) % 256;
    let tile = m.peek((0x8000 + tilemap + bg_x / 8 + (bg_y / 8) * 32) as u16);
    let row = tile_data_offset(lcdc, tile) + (bg_y % 8) * 2;
    pixel_id(
        m.peek((0x8000 + row) as u16),
        m.peek((0x8000 + row + 1) as u16),
        (7 - bg_x % 8) as u8,
    )
}

/// Every pixel holds a shade in `0..=3`.
pub open spec fn shades_ok(frame: Seq<u8>) -> bool {
    forall|i: int| 0 <= i < frame.len() ==> #[trigger] frame[i] <= 3
}

/// Number of whole scanlines in `clock` cycles.
pub open spec fn lines_in(clock: int) -> int {
    clock / 456
}

/// Shade of the test pattern at `(x, y)`: a checkerboard of 8x8 squares
/// inside a one-pixel border of shade 0.
pub open spec fn test_pattern(x: int, y: int) -> u8 {
    if x == 0 || x == 159 || y == 0 || y == 143 {
        0
    } else if (x / 8 + y / 8) % 2 == 0 {
        3
    } else {
        1
    }
}

/// Shade at column `x` after object `s` is drawn over shade `prev`: the
/// object's colour id comes from tile bit `px` when x-flipped, else bit
/// `7 - px`; id 0 is transparent; with priority set a non-zero background
/// id wins; the shade goes through `OBP1` when the palette bit is set,
/// else through `OBP0`.
pub open spec fn sprite_over(
    m: BusView,
    s: Sprite,
    line: u8,
    tall: bool,
    bg: Seq<u8>,
    x: int,
    prev: u8,
) -> u8 {
    let px = x - s.x;
    if 0 <= px < 8 {
        let addr = s.tile_address_spec(line, tall);
        let lo = m.peek((0x8000 + addr) as u16);
        let hi = m.peek((0x8000 + addr + 1) as u16);
        let bit = (if s.x_flip_spec() {
            px
        } else {
            7 - px
        }) as u8;
        let id = pixel_id(lo, hi, bit);
        if id == 0 || (s.priority_spec() && bg[x] != 0) {
            prev
        } else {
            palette_color(
                if s.palette_spec() {
                    m.peek(REG_OBP1)
                } else {
                    m.peek(REG_OBP0)
                },
                id,
            )
        }
    } else {
        prev
    }
}

/// Shade at column `x` after the first `n` listed objects are drawn, in
/// list order, over `base`.
pub open spec fn sprites_over(
    m: BusView,
    list: Seq<Sprite>,
    n: int,
    line: u8,
    tall: bool,
    bg: Seq<u8>,
    x: int,
    base: u8,
) -> u8
    decreases n,
{
    if n <= 0 {
        base
    } else {
        sprite_over(m, list[n - 1], line, tall, bg, x, sprites_over(m, list, n - 1, line, tall, bg, x, base))
    }
}

/// OAM entry `n` as an object: `y = byte0 - 16`, `x = byte1 - 8`.
pub open spec fn oam_sprite(m: BusView, n: int) -> Sprite {
    Sprite {
        x: (m.peek((0xFE01 + 4 * n) as u16) - 8) as i16,
        y: (m.peek((0xFE00 + 4 * n) as u16) - 16) as i16,
        tile_index: m.peek((0xFE02 + 4 * n) as u16),
        attributes: m.peek((0xFE03 + 4 * n) as u16),
    }
}

/// The first index from `i` on whose object lies left of `x`.
pub open spec fn first_left_of(list: Seq<Sprite>, x: i16, i: nat) -> nat
    decreases list.len() - i,
{
    if i >= list.len() {
        list.len()
    } else if list[i as int].x < x {
        i
    } else {
        first_left_of(list, x, i + 1)
    }
}

/// `list` with `s` inserted after every object whose `x` is at least its
/// own: a stable sort by descending `x`.
pub open spec fn insert_sorted(list: Seq<Sprite>, s: Sprite) -> Seq<Sprite> {
    list.insert(first_left_of(list, s.x, 0) as int, s)
}

/// The objects kept after scanning the first `n` OAM entries for `line`:
/// at most ten covering ones, in OAM order of arrival, sorted by
/// descending `x`.
pub open spec fn selection(m: BusView, line: u8, tall: bool, n: int) -> Seq<Sprite>
    decreases n,
{
    if n <= 0 {
        Seq::empty()
    } else {
        let prev = selection(m, line, tall, n - 1);
        if prev.len() >= MAX_SPRITES_PER_LINE {
            prev
        } else if oam_sprite(m, n - 1).visible_spec(line, tall) {
            insert_sorted(prev, oam_sprite(m, n - 1))
        } else {
            prev
        }
    }
}

proof fn lemma_selection_full(m: BusView, line: u8, tall: bool, n: int, k: int)
    requires
        0 <= n <= k,
        selection(m, line, tall, n).len() >= MAX_SPRITES_PER_LINE,
    ensures
        selection(m, line, tall, k) == selection(m, line, tall, n),
    decreases k - n,
{
    if n < k {
        lemma_selection_full(m, line, tall, n, k - 1);
    }
}

proof fn lemma_first_left_of(list: Seq<Sprite>, x: i16, j: nat, pos: nat)
    requires
        j <= pos <= list.len(),
        forall|k: int| j <= k < pos ==> (#[trigger] list[k]).x >= x,
        pos == list.len() || list[pos as int].x < x,
    ensures
        first_left_of(list, x, j) == pos,
    decreases pos - j,
{
    if j < pos {
        lemma_first_left_of(list, x, j + 1, pos);
    }
}

/// Background colour ids of scanline `line`, all 0 with the background off.
pub open spec fn bg_ids(m: BusView, line: u8) -> Seq<u8> {
    Seq::new(
        160,
        |x: int|
            if m.peek(REG_LCDC) & LCDC_BG_WINDOW_ENABLE != 0 {
                bg_color_id(m, line, x)
            } else {
                0u8
            },
    )
}

/// Shade of column `x` of scanline `line` once rendered over `prev`: the
/// background when enabled, then, when objects are enabled, the selected
/// objects drawn in order.
pub open spec fn scanline_shade(m: BusView, line: u8, x: int, prev: u8) -> u8 {
    let lcdc = m.peek(REG_LCDC);
    let tall = lcdc & LCDC_OBJ_SIZE != 0;
    let under = if lcdc & LCDC_BG_WINDOW_ENABLE != 0 {
        palette_color(m.peek(REG_BGP), bg_color_id(m, line, x))
    } else {
        prev
    };
    if lcdc & LCDC_OBJ_ENABLE != 0 {
        let list = selection(m, line, tall, 40);
        sprites_over(m, list, list.len() as int, line, tall, bg_ids(m, line), x, under)
    } else {
        under
    }
}

/// The bus as a completed scanline is rendered: `LY` moved on modulo 154,
/// the `LYC == LY` bit of `STAT` refreshed, and `LCD_STAT` requested on a
/// match when `STAT` selects it.
pub open spec fn line_render_bus(m: BusView) -> BusView {
    let new_ly = ((m.peek(REG_LY) + 1) % 154) as u8;
    let m1 = m.store(REG_LY, new_ly);
    let m2 = m1.store(
        REG_STAT,
        if new_ly == m1.peek(REG_LYC) {
            m1.peek(REG_STAT) | STAT_LYC_EQUAL
        } else {
            m1.peek(REG_STAT) & !STAT_LYC_EQUAL
        },
    );
    if new_ly == m2.peek(REG_LYC) && m2.peek(REG_STAT) & STAT_LYC_INTERRUPT != 0 {
        m2.store(REG_IF, m2.peek(REG_IF) | INT_LCD_STAT)
    } else {
        m2
    }
}

/// The bus after a completed scanline: as `line_render_bus`, then the
/// `STAT` mode (HBlank on a visible line, else VBlank) and, entering line
/// 144, the `VBLANK` request.
pub open spec fn line_bus(m: BusView) -> BusView {
    let b = line_render_bus(m);
    let new_ly = b.peek(REG_LY);
    let mode: u8 = if new_ly < 144 {
        MODE_HBLANK
    } else {
        MODE_VBLANK
    };
    let b2 = b.store(REG_STAT, (b.peek(REG_STAT) & 0xFC) | mode);
    if new_ly == 144 {
        b2.store(REG_IF, b2.peek(REG_IF) | INT_VBLANK)
    } else {
        b2
    }
}

/// The frame after a completed scanline: the new line, when visible, is
/// rendered; other rows are kept.
pub open spec fn line_frame(m: BusView, f: Seq<u8>) -> Seq<u8> {
    let b = line_render_bus(m);
    let line = b.peek(REG_LY);
    if line < 144 {
        Seq::new(
            f.len(),
            |i: int|
                if line * 160 <= i < line * 160 + 160 {
                    scanline_shade(b, line, i - line * 160, f[i])
                } else {
                    f[i]
                },
        )
    } else {
        f
    }
}

/// The bus after `k` completed scanlines.
pub open spec fn lines_bus(m: BusView, k: nat) -> BusView
    decreases k,
{
    if k == 0 {
        m
    } else {
        line_bus(lines_bus(m, (k - 1) as nat))
    }
}

/// The frame after `k` completed scanlines.
pub open spec fn lines_frame(m: BusView, f: Seq<u8>, k: nat) -> Seq<u8>
    decreases k,
{
    if k == 0 {
        f
    } else {
        line_frame(lines_bus(m, (k - 1) as nat), lines_frame(m, f, (k - 1) as nat))
    }
}

/// Frame buffer, per-line scratch state, and the cycle accumulator.
pub struct Ppu {
    mode_clock: u64,
    sprites_visibles_on_current_line: Vec<Sprite>,
    bg_line: Vec<u8>,
    frame_buffer: Vec<u8>,
}

impl Default for Ppu {
    fn default() -> (r: Self)
        ensures
            r.wf(),
    {
        Ppu::new()
    }
}

impl Ppu {
    pub closed spec fn spec_mode_clock(&self) -> u64 {
        self.mode_clock
    }

    pub closed spec fn spec_frame(&self) -> Seq<u8> {
        self.frame_buffer@
    }

    /// Background colour ids of the last rendered scanline.
    pub closed spec fn spec_bg_line(&self) -> Seq<u8> {
        self.bg_line@
    }

    /// The objects selected for the last rendered scanline.
    pub closed spec fn spec_sprites(&self) -> Seq<Sprite> {
        self.sprites_visibles_on_current_line@
    }

    pub closed spec fn wf(&self) -> bool {
        &&& self.frame_buffer@.len() == FRAME_SIZE
        &&& shades_ok(self.frame_buffer@)
        &&& self.bg_line@.len() == LCD_WIDTH
        &&& self.sprites_visibles_on_current_line@.len() <= MAX_SPRITES_PER_LINE
        &&& self.mode_clock < CYCLES_PER_LINE
    }

    pub fn new() -> (r: Self)
        ensures
            r.wf(),
            r.spec_mode_clock() == 0,
            r.spec_frame() == Seq::new(FRAME_SIZE as nat, |i: int| 0u8),
    {
        let r = Ppu {
            mode_clock: 0,
            sprites_visibles_on_current_line: Vec::new(),
            bg_line: vec![0u8; LCD_WIDTH],
            frame_buffer: vec![0u8; FRAME_SIZE],
        };
        assert(r.frame_buffer@ =~= Seq::new(FRAME_SIZE as nat, |i: int| 0u8));
        r
    }

    /// The 160x144 frame of shades, row by row.
    pub fn frame(&self) -> (r: &Vec<u8>)
        ensures
            r@ == self.spec_frame(),
            self.wf() ==> r@.len() == FRAME_SIZE && shades_ok(r@),
    {
        &self.frame_buffer
    }

    fn write_mode(bus: &mut MemorySystem, mode: u8)
        requires
            old(bus)@.wf(),
        ensures
            final(bus)@ == old(bus)@.store(REG_STAT, (old(bus)@.peek(REG_STAT) & 0xFC) | mode),
            final(bus)@.wf(),
    {
        let stat = bus.read_byte(REG_STAT);
        bus.write_internal_byte(REG_STAT, (stat & 0xFC) | mode);
    }

    /// Stores `LY` and refreshes the `LYC == LY` bit of `STAT`.
    pub fn set_ly(bus: &mut MemorySystem, value: u8)
        requires
            old(bus)@.wf(),
        ensures
            final(bus)@.wf(),
            final(bus)@.peek(REG_LY) == value,
            ({
                let m = old(bus)@.store(REG_LY, value);
                final(bus)@ == m.store(
                    REG_STAT,
                    if value == m.peek(REG_LYC) {
                        m.peek(REG_STAT) | STAT_LYC_EQUAL
                    } else {
                        m.peek(REG_STAT) & !STAT_LYC_EQUAL
                    },
                )
            }),
    {
        bus.write_internal_byte(REG_LY, value);
        let lyc = bus.read_byte(REG_LYC);
        let stat = bus.read_byte(REG_STAT);
        if value == lyc {
            bus.write_internal_byte(REG_STAT, stat | STAT_LYC_EQUAL);
        } else {
            bus.write_internal_byte(REG_STAT, stat & !STAT_LYC_EQUAL);
        }
    }

    /// Stores `LYC` and refreshes the `LYC == LY` bit of `STAT`; `LY` is
    /// left as it is.
    pub fn set_lyc(bus: &mut MemorySystem, value: u8)
        requires
            old(bus)@.wf(),
        ensures
            final(bus)@.wf(),
            final(bus)@.peek(REG_LYC) == value,
            final(bus)@.peek(REG_LY) == old(bus)@.peek(REG_LY),
            ({
                let m = old(bus)@.store(REG_LYC, value);
                let ly = m.peek(REG_LY);
                let n = m.store(REG_LY, ly);
                final(bus)@ == n.store(
                    REG_STAT,
                    if ly == value {
                        n.peek(REG_STAT) | STAT_LYC_EQUAL
                    } else {
                        n.peek(REG_STAT) & !STAT_LYC_EQUAL
                    },
                )
            }),
    {
        bus.write_internal_byte(REG_LYC, value);
        let ly = bus.read_byte(REG_LY);
        Self::set_ly(bus, ly);
    }

    /// Power-on state: HBlank, empty frame, the LCD registers at their
    /// defaults (`LCDC = 0x91`, `STAT = 0x80`, `BGP = 0xFC`,
    /// `OBP0 = OBP1 = 0xFF`) and OAM cleared.
    pub fn reset(&mut self, bus: &mut MemorySystem)
        requires
            old(self).wf(),
            old(bus)@.wf(),
        ensures
            final(self).wf(),
            final(bus)@.wf(),
            final(self).spec_mode_clock() == 0,
            final(self).spec_frame() == Seq::new(FRAME_SIZE as nat, |i: int| 0u8),
            final(bus)@.peek(REG_LY) == 0,
            final(bus)@.peek(REG_LYC) == 0,
            final(bus)@.peek(REG_LCDC) == 0x91,
            final(bus)@.peek(REG_STAT) == 0x80,
            final(bus)@.peek(REG_SCY) == 0,
            final(bus)@.peek(REG_SCX) == 0,
            final(bus)@.peek(REG_DMA) == 0xFF,
            final(bus)@.peek(REG_BGP) == 0xFC,
            final(bus)@.peek(REG_OBP0) == 0xFF,
            final(bus)@.peek(REG_OBP1) == 0xFF,
            final(bus)@.peek(REG_WY) == 0,
            final(bus)@.peek(REG_WX) == 0,
            forall|i: int| 0xFE00 <= i < 0xFEA0 ==> #[trigger] final(bus)@.memory[i] == 0,
            forall|i: int| 0 <= i < 0xFE00 ==> #[trigger] final(bus)@.memory[i] == old(bus)@.memory[i],
            final(bus)@ == (BusView { memory: final(bus)@.memory, ..old(bus)@ }),
    {
        Self::write_mode(bus, MODE_HBLANK);
        let ghost b0 = bus@;
        self.mode_clock = 0;
        let mut i: usize = 0;
        while i < FRAME_SIZE
            invariant
                i <= FRAME_SIZE,
                self.frame_buffer@.len() == FRAME_SIZE,
                shades_ok(self.frame_buffer@),
                self.bg_line@.len() == LCD_WIDTH,
                self.sprites_visibles_on_current_line@.len() <= MAX_SPRITES_PER_LINE,
                self.mode_clock == 0,
                bus@ == b0,
                forall|j: int| 0 <= j < i ==> self.frame_buffer@[j] == 0,
            decreases FRAME_SIZE - i,
        {
            self.frame_buffer.set(i, 0);
            i = i + 1;
        }
        assert(self.frame_buffer@ =~= Seq::new(FRAME_SIZE as nat, |i: int| 0u8));
        Self::set_ly(bus, 0);
        Self::set_lyc(bus, 0);
        bus.write_internal_byte(REG_LCDC, 0x91);
        bus.write_internal_byte(REG_STAT, 0x80);
        bus.write_internal_byte(REG_SCY, 0);
        bus.write_internal_byte(REG_SCX, 0);
        bus.write_internal_byte(REG_DMA, 0xFF);
        bus.write_internal_byte(REG_BGP, 0xFC);
        bus.write_internal_byte(REG_OBP0, 0xFF);
        bus.write_internal_byte(REG_OBP1, 0xFF);
        bus.write_internal_byte(REG_WY, 0);
        bus.write_internal_byte(REG_WX, 0);
        let mut a: u16 = 0xFE00;
        while a < 0xFEA0
            invariant
                0xFE00 <= a <= 0xFEA0,
                bus@.wf(),
                self.wf(),
                self.mode_clock == 0,
                self.frame_buffer@ == Seq::new(FRAME_SIZE as nat, |i: int| 0u8),
                forall|i: int| 0xFE00 <= i < a ==> #[trigger] bus@.memory[i] == 0,
                forall|i: int| 0 <= i < 0xFE00 ==> #[trigger] bus@.memory[i] == old(bus)@.memory[i],
                bus@ == (BusView { memory: bus@.memory, ..old(bus)@ }),
                bus@.peek(REG_LY) == 0,
                bus@.peek(REG_LYC) == 0,
                bus@.peek(REG_LCDC) == 0x91,
                bus@.peek(REG_STAT) == 0x80,
                bus@.peek(REG_SCY) == 0,
                bus@.peek(REG_SCX) == 0,
                bus@.peek(REG_DMA) == 0xFF,
                bus@.peek(REG_BGP) == 0xFC,
                bus@.peek(REG_OBP0) == 0xFF,
                bus@.peek(REG_OBP1) == 0xFF,
                bus@.peek(REG_WY) == 0,
                bus@.peek(REG_WX) == 0,
            decreases 0xFEA0 - a,
        {
            bus.write_internal_byte(a, 0);
            a = a + 1;
        }
    }

    /// Draws the background of scanline `line`.
    fn render_background_line(&mut self, bus: &MemorySystem, line: u8)
        requires
            old(self).wf(),
            bus@.wf(),
            line < LCD_HEIGHT,
        ensures
            final(self).wf(),
            final(self).spec_mode_clock() == old(self).spec_mode_clock(),
            final(self).spec_sprites() == old(self).spec_sprites(),
            final(self).spec_frame().len() == FRAME_SIZE,
            forall|x: int|
                0 <= x < LCD_WIDTH ==> #[trigger] final(self).spec_frame()[line * 160 + x]
                    == palette_color(bus@.peek(REG_BGP), bg_color_id(bus@, line, x)),
            forall|i: int|
                0 <= i < FRAME_SIZE && !(line * 160 <= i < line * 160 + 160)
                    ==> #[trigger] final(self).spec_frame()[i] == old(self).spec_frame()[i],
            final(self).spec_bg_line().len() == LCD_WIDTH,
            forall|x: int| 0 <= x < 160 ==> #[trigger] final(self).spec_bg_line()[x] == bg_color_id(bus@, line, x),
    {
        let lcdc = bus.read_byte(REG_LCDC);
        let tilemap: u16 = if lcdc & LCDC_TILEMAP_AREA != 0 {
            0x1C00
        } else {
            0x1800
        };
        let scy = bus.read_byte(REG_SCY) as u16;
        let scx = bus.read_byte(REG_SCX) as u16;
        let bgp = bus.read_byte(REG_BGP);
        let bg_y = (line as u16 + scy) % 256;
        let ghost old_frame = self.frame_buffer@;
        let mut x: u16 = 0;
        while x < 160
            invariant
                x <= 160,
                line < LCD_HEIGHT,
                bus@.wf(),
                self.frame_buffer@.len() == FRAME_SIZE,
                shades_ok(self.frame_buffer@),
                self.bg_line@.len() == LCD_WIDTH,
                self.sprites_visibles_on_current_line@.len() <= MAX_SPRITES_PER_LINE,
                self.mode_clock < CYCLES_PER_LINE,
                self.mode_clock == old(self).mode_clock,
                self.sprites_visibles_on_current_line@ == old(self).sprites_visibles_on_current_line@,
                old_frame == old(self).frame_buffer@,
                lcdc == bus@.peek(REG_LCDC),
                tilemap == (if lcdc & LCDC_TILEMAP_AREA != 0 { 0x1C00int } else { 0x1800int }),
                scy == bus@.peek(REG_SCY),
                scx == bus@.peek(REG_SCX),
                bgp == bus@.peek(REG_BGP),
                bg_y == (line + bus@.peek(REG_SCY)) % 256,
                forall|c: int| 0 <= c < x ==> #[trigger] self.bg_line@[c] == bg_color_id(bus@, line, c),
                forall|c: int|
                    0 <= c < x ==> #[trigger] self.frame_buffer@[line * 160 + c] == palette_color(
                        bgp,
                        bg_color_id(bus@, line, c),
                    ),
                forall|i: int|
                    0 <= i < FRAME_SIZE && !(line * 160 <= i < line * 160 + x)
                        ==> #[trigger] self.frame_buffer@[i] == old_frame[i],
            decreases 160 - x,
        {
            let bg_x = (x + scx) % 256;
            let tile_addr = tilemap + bg_x / 8 + (bg_y / 8) * 32;
            let tile = bus.read_vram(tile_addr);
            let data: u16 = if lcdc & LCDC_TILEDATA_AREA != 0 {
                tile as u16 * 16
            } else if tile < 128 {
                0x1000 + tile as u16 * 16
            } else {
                0x0800 + (tile as u16 - 128) * 16
            };
            let row = data + (bg_y % 8) * 2;
            let lo = bus.read_vram(row);
            let hi = bus.read_vram(row + 1);
            let bit = (7 - bg_x % 8) as u8;
            let high_bit = (hi >> bit) & 0x01;
            let low_bit = (lo >> bit) & 0x01;
            proof {
                lemma_low_bit(hi >> bit);
                lemma_low_bit(lo >> bit);
            }
            let color_id = high_bit * 2 + low_bit;
            let color = (bgp >> (color_id * 2)) & 0x03;
            proof {
                lemma_shade(bgp >> (color_id * 2));
            }
            self.frame_buffer.set(line as usize * 160 + x as usize, color);
            self.bg_line.set(x as usize, color_id);
            x = x + 1;
        }
    }

    /// Keeps the first ten objects of OAM that cover `line`, ordered by
    /// descending `x` (objects with equal `x` keep their OAM order).
    fn update_visibles_sprites(&mut self, bus: &MemorySystem, line: u8, double_height: bool)
        requires
            old(self).wf(),
            bus@.wf(),
        ensures
            final(self).wf(),
            final(self).spec_mode_clock() == old(self).spec_mode_clock(),
            final(self).spec_frame() == old(self).spec_frame(),
            final(self).spec_sprites() == selection(bus@, line, double_height, 40),
            final(self).spec_bg_line() == old(self).spec_bg_line(),
            final(self).spec_sprites().len() <= MAX_SPRITES_PER_LINE,
            forall|i: int|
                0 <= i < final(self).spec_sprites().len() ==> (#[trigger] final(self).spec_sprites()[i]).visible_spec(line, double_height),
            forall|i: int, j: int|
                0 <= i < j < final(self).spec_sprites().len() ==> (#[trigger] final(self).spec_sprites()[i]).x >= (#[trigger] final(self).spec_sprites()[j]).x,
    {
        self.sprites_visibles_on_current_line.clear();
        assert(self.sprites_visibles_on_current_line@ =~= selection(bus@, line, double_height, 0));
        let mut index: u16 = 0;
        while index < 40
            invariant
                index <= 40,
                bus@.wf(),
                self.frame_buffer@.len() == FRAME_SIZE,
                shades_ok(self.frame_buffer@),
                self.bg_line@.len() == LCD_WIDTH,
                self.mode_clock < CYCLES_PER_LINE,
                self.mode_clock == old(self).mode_clock,
                self.frame_buffer@ == old(self).frame_buffer@,
                self.bg_line@ == old(self).bg_line@,
                self.sprites_visibles_on_current_line@ == selection(bus@, line, double_height, index as int),
                self.sprites_visibles_on_current_line@.len() <= MAX_SPRITES_PER_LINE,
                forall|i: int|
                    0 <= i < self.sprites_visibles_on_current_line@.len() ==> (
                    #[trigger] self.sprites_visibles_on_current_line@[i]).visible_spec(
                        line,
                        double_height,
                    ),
                forall|i: int, j: int|
                    0 <= i < j < self.sprites_visibles_on_current_line@.len() ==> (
                    #[trigger] self.sprites_visibles_on_current_line@[i]).x >= (
                    #[trigger] self.sprites_visibles_on_current_line@[j]).x,
            ensures
                self.sprites_visibles_on_current_line@ == selection(bus@, line, double_height, 40),
            decreases 40 - index,
        {
            if self.sprites_visibles_on_current_line.len() >= MAX_SPRITES_PER_LINE {
                proof {
                    lemma_selection_full(bus@, line, double_height, index as int, 40);
                }
                break;
            }
            let base = index * 4;
            let b0 = bus.read_oam(base);
            let b1 = bus.read_oam(base + 1);
            let b2 = bus.read_oam(base + 2);
            let b3 = bus.read_oam(base + 3);
            let sprite = Sprite { x: b1 as i16 - 8, y: b0 as i16 - 16, tile_index: b2, attributes: b3 };
            assert(sprite == oam_sprite(bus@, index as int));
            if sprite.is_visible_at_line(line, double_height) {
                let ghost before = self.sprites_visibles_on_current_line@;
                let pos = insert_by_x(&mut self.sprites_visibles_on_current_line, sprite);
                assert forall|i: int|
                    0 <= i < self.sprites_visibles_on_current_line@.len() implies (
                    #[trigger] self.sprites_visibles_on_current_line@[i]).visible_spec(
                        line,
                        double_height,
                    ) by {
                    if i > pos {
                        assert(before[i - 1].visible_spec(line, double_height));
                    }
                }
            }
            index = index + 1;
        }
    }

    /// Draws the selected objects over scanline `line`.
    fn render_sprites_line(&mut self, bus: &MemorySystem, line: u8, double_height: bool)
        requires
            old(self).wf(),
            bus@.wf(),
            line < LCD_HEIGHT,
            forall|i: int|
                0 <= i < old(self).spec_sprites().len() ==> (#[trigger] old(self).spec_sprites()[i]).visible_spec(line, double_height),
        ensures
            final(self).wf(),
            final(self).spec_mode_clock() == old(self).spec_mode_clock(),
            final(self).spec_sprites() == old(self).spec_sprites(),
            forall|i: int|
                0 <= i < FRAME_SIZE && !(line * 160 <= i < line * 160 + 160)
                    ==> #[trigger] final(self).spec_frame()[i] == old(self).spec_frame()[i],
            final(self).spec_bg_line() == old(self).spec_bg_line(),
            forall|x: int|
                0 <= x < 160 ==> #[trigger] final(self).spec_frame()[line * 160 + x] == sprites_over(
                    bus@,
                    old(self).spec_sprites(),
                    old(self).spec_sprites().len() as int,
                    line,
                    double_height,
                    old(self).spec_bg_line(),
                    x,
                    old(self).spec_frame()[line * 160 + x],
                ),
    {
        let obp0 = bus.read_byte(REG_OBP0);
        let obp1 = bus.read_byte(REG_OBP1);
        let ghost old_frame = self.frame_buffer@;
        let count = self.sprites_visibles_on_current_line.len();
        assert(self.sprites_visibles_on_current_line@ == old(self).spec_sprites());
        let mut s: usize = 0;
        while s < count
            invariant
                s <= count,
                count == self.sprites_visibles_on_current_line@.len(),
                line < LCD_HEIGHT,
                bus@.wf(),
                self.frame_buffer@.len() == FRAME_SIZE,
                shades_ok(self.frame_buffer@),
                self.bg_line@.len() == LCD_WIDTH,
                self.sprites_visibles_on_current_line@.len() <= MAX_SPRITES_PER_LINE,
                self.mode_clock < CYCLES_PER_LINE,
                self.mode_clock == old(self).mode_clock,
                self.sprites_visibles_on_current_line@ == old(self).sprites_visibles_on_current_line@,
                forall|i: int|
                    0 <= i < self.sprites_visibles_on_current_line@.len() ==> (
                    #[trigger] self.sprites_visibles_on_current_line@[i]).visible_spec(
                        line,
                        double_height,
                    ),
                old_frame == old(self).frame_buffer@,
                forall|i: int|
                    0 <= i < FRAME_SIZE && !(line * 160 <= i < line * 160 + 160)
                        ==> #[trigger] self.frame_buffer@[i] == old_frame[i],
                self.bg_line@ == old(self).bg_line@,
                obp0 == bus@.peek(REG_OBP0),
                obp1 == bus@.peek(REG_OBP1),
                forall|x: int|
                    0 <= x < 160 ==> #[trigger] self.frame_buffer@[line * 160 + x] == sprites_over(
                        bus@,
                        self.sprites_visibles_on_current_line@,
                        s as int,
                        line,
                        double_height,
                        self.bg_line@,
                        x,
                        old_frame[line * 160 + x],
                    ),
            decreases count - s,
        {
            let sprite = self.sprites_visibles_on_current_line[s];
            assert(sprite.visible_spec(line, double_height));
            let tile_addr = sprite.get_tile_address(line, double_height);
            let lo = bus.read_vram(tile_addr);
            let hi = bus.read_vram(tile_addr + 1);
            let palette = if sprite.palette() {
                obp1
            } else {
                obp0
            };
            let mut px: u8 = 0;
            while px < 8
                invariant
                    px <= 8,
                    line < LCD_HEIGHT,
                    -8 < sprite.x < 160,
                    count == self.sprites_visibles_on_current_line@.len(),
                    self.sprites_visibles_on_current_line@ == old(self).sprites_visibles_on_current_line@,
                    self.sprites_visibles_on_current_line@.len() <= MAX_SPRITES_PER_LINE,
                    self.mode_clock < CYCLES_PER_LINE,
                    self.mode_clock == old(self).mode_clock,
                    old_frame == old(self).frame_buffer@,
                    self.frame_buffer@.len() == FRAME_SIZE,
                    shades_ok(self.frame_buffer@),
                    self.bg_line@.len() == LCD_WIDTH,
                    self.bg_line@ == old(self).bg_line@,
                    s < count,
                    sprite == self.sprites_visibles_on_current_line@[s as int],
                    sprite.visible_spec(line, double_height),
                    lo == bus@.peek((0x8000 + sprite.tile_address_spec(line, double_height)) as u16),
                    hi == bus@.peek((0x8000 + sprite.tile_address_spec(line, double_height) + 1) as u16),
                    palette == if sprite.palette_spec() {
                        bus@.peek(REG_OBP1)
                    } else {
                        bus@.peek(REG_OBP0)
                    },
                    forall|x: int|
                        0 <= x < 160 ==> #[trigger] self.frame_buffer@[line * 160 + x] == if sprite.x
                            <= x < sprite.x + px {
                            sprite_over(
                                bus@,
                                sprite,
                                line,
                                double_height,
                                self.bg_line@,
                                x,
                                sprites_over(
                                    bus@,
                                    self.sprites_visibles_on_current_line@,
                                    s as int,
                                    line,
                                    double_height,
                                    self.bg_line@,
                                    x,
                                    old_frame[line * 160 + x],
                                ),
                            )
                        } else {
                            sprites_over(
                                bus@,
                                self.sprites_visibles_on_current_line@,
                                s as int,
                                line,
                                double_height,
                                self.bg_line@,
                                x,
                                old_frame[line * 160 + x],
                            )
                        },
                    forall|i: int|
                        0 <= i < FRAME_SIZE && !(line * 160 <= i < line * 160 + 160)
                            ==> #[trigger] self.frame_buffer@[i] == old_frame[i],
                decreases 8 - px,
            {
                let x = sprite.x + px as i16;
                if 0 <= x && x < 160 {
                    let bit = if sprite.has_x_flip() {
                        px
                    } else {
                        7 - px
                    };
                    let high_bit = (hi >> bit) & 0x01;
                    let low_bit = (lo >> bit) & 0x01;
                    proof {
                        lemma_low_bit(hi >> bit);
                        lemma_low_bit(lo >> bit);
                    }
                    let color_id = high_bit * 2 + low_bit;
                    let hidden = sprite.has_priority() && self.bg_line[x as usize] != 0;
                    if color_id != 0 && !hidden {
                        let color = (palette >> (color_id * 2)) & 0x03;
                        proof {
                            lemma_shade(palette >> (color_id * 2));
                        }
                        self.frame_buffer.set(line as usize * 160 + x as usize, color);
                    }
                }
                px = px + 1;
            }
            s = s + 1;
        }
    }

    /// Renders scanline `line`: background, then objects.
    fn render_line(&mut self, bus: &MemorySystem, line: u8)
        requires
            old(self).wf(),
            bus@.wf(),
            line < LCD_HEIGHT,
        ensures
            final(self).wf(),
            final(self).spec_mode_clock() == old(self).spec_mode_clock(),
            forall|i: int|
                0 <= i < FRAME_SIZE && !(line * 160 <= i < line * 160 + 160)
                    ==> #[trigger] final(self).spec_frame()[i] == old(self).spec_frame()[i],
            forall|x: int|
                0 <= x < 160 ==> #[trigger] final(self).spec_frame()[line * 160 + x] == scanline_shade(
                    bus@,
                    line,
                    x,
                    old(self).spec_frame()[line * 160 + x],
                ),
    {
        let lcdc = bus.read_byte(REG_LCDC);
        if lcdc & LCDC_BG_WINDOW_ENABLE != 0 {
            self.render_background_line(bus, line);
        } else {
            let mut x: usize = 0;
            while x < LCD_WIDTH
                invariant
                    x <= LCD_WIDTH,
                    self.wf(),
                    self.mode_clock == old(self).mode_clock,
                    forall|c: int| 0 <= c < x ==> #[trigger] self.bg_line@[c] == 0,
                    self.frame_buffer@ == old(self).frame_buffer@,
                decreases LCD_WIDTH - x,
            {
                self.bg_line.set(x, 0);
                x = x + 1;
            }
        }
        if lcdc & LCDC_OBJ_ENABLE != 0 {
            let double_height = lcdc & LCDC_OBJ_SIZE != 0;
            self.update_visibles_sprites(bus, line, double_height);
            assert(self.bg_line@ =~= bg_ids(bus@, line));
            self.render_sprites_line(bus, line, double_height);
        }
    }

    /// Completes one scanline: `LY` moves on modulo 154, the `LYC` match
    /// is refreshed (raising `LCD_STAT` when selected), a visible line is
    /// rendered in HBlank, and line 144 enters VBlank and raises `VBLANK`.
    fn complete_line(&mut self, bus: &mut MemorySystem)
        requires
            old(self).wf(),
            old(bus)@.wf(),
        ensures
            final(self).wf(),
            final(bus)@.wf(),
            final(self).spec_mode_clock() == old(self).spec_mode_clock(),
            final(bus)@.peek(REG_LY) == (old(bus)@.peek(REG_LY) + 1) % 154,
            final(bus)@ == line_bus(old(bus)@),
            final(self).spec_frame() == line_frame(old(bus)@, old(self).spec_frame()),
    {
        let ghost f0 = self.frame_buffer@;
        let ly = bus.read_byte(REG_LY);
        let new_ly = ((ly as u16 + 1) % 154) as u8;
        Self::set_ly(bus, new_ly);
        let stat = bus.read_byte(REG_STAT);
        if new_ly == bus.read_byte(REG_LYC) && stat & STAT_LYC_INTERRUPT != 0 {
            let requested = bus.read_byte(REG_IF);
            bus.write_internal_byte(REG_IF, requested | INT_LCD_STAT);
        }
        if (new_ly as usize) < LCD_HEIGHT {
            let ghost b = bus@;
            assert(b == line_render_bus(old(bus)@));
            self.render_line(bus, new_ly);
            assert forall|i: int| 0 <= i < self.frame_buffer@.len() implies self.frame_buffer@[i]
                == line_frame(old(bus)@, f0)[i] by {
                if new_ly * 160 <= i < new_ly * 160 + 160 {
                    let x = i - new_ly * 160;
                    assert(self.spec_frame()[new_ly * 160 + x] == scanline_shade(b, new_ly, x, f0[new_ly * 160 + x]));
                } else {
                    assert(self.spec_frame()[i] == f0[i]);
                }
            }
            assert(self.frame_buffer@ =~= line_frame(old(bus)@, f0));
            Self::write_mode(bus, MODE_HBLANK);
        } else if new_ly as usize == LCD_HEIGHT {
            Self::write_mode(bus, MODE_VBLANK);
            let requested = bus.read_byte(REG_IF);
            bus.write_internal_byte(REG_IF, requested | INT_VBLANK);
        } else {
            Self::write_mode(bus, MODE_VBLANK);
        }
    }

    /// With the LCD on, fills the frame with the test pattern.
    pub fn update_test(&mut self, bus: &MemorySystem)
        requires
            old(self).wf(),
            bus@.wf(),
        ensures
            final(self).wf(),
            bus@.peek(REG_LCDC) & LCDC_ENABLE == 0 ==> final(self).spec_frame() == old(self).spec_frame(),
            bus@.peek(REG_LCDC) & LCDC_ENABLE != 0 ==> forall|y: int, x: int|
                0 <= y < 144 && 0 <= x < 160 ==> #[trigger] final(self).spec_frame()[y * 160 + x]
                    == test_pattern(x, y),
    {
        if bus.read_byte(REG_LCDC) & LCDC_ENABLE == 0 {
            return;
        }
        self.render_test_pattern();
    }

    fn render_test_pattern(&mut self)
        requires
            old(self).wf(),
        ensures
            final(self).wf(),
            forall|y: int, x: int|
                0 <= y < 144 && 0 <= x < 160 ==> #[trigger] final(self).spec_frame()[y * 160 + x]
                    == test_pattern(x, y),
    {
        let mut y: usize = 0;
        while y < LCD_HEIGHT
            invariant
                y <= LCD_HEIGHT,
                self.wf(),
                forall|j: int, i: int|
                    0 <= j < y && 0 <= i < 160 ==> #[trigger] self.frame_buffer@[j * 160 + i]
                        == test_pattern(i, j),
            decreases LCD_HEIGHT - y,
        {
            let mut x: usize = 0;
            while x < LCD_WIDTH
                invariant
                    x <= LCD_WIDTH,
                    y < LCD_HEIGHT,
                    self.wf(),
                    forall|j: int, i: int|
                        0 <= j < y && 0 <= i < 160 ==> #[trigger] self.frame_buffer@[j * 160 + i]
                            == test_pattern(i, j),
                    forall|i: int| 0 <= i < x ==> #[trigger] self.frame_buffer@[y * 160 + i]
                        == test_pattern(i, y as int),
                decreases LCD_WIDTH - x,
            {
                let shade: u8 = if x == 0 || x == 159 || y == 0 || y == 143 {
                    0
                } else if (x / 8 + y / 8) % 2 == 0 {
                    3
                } else {
                    1
                };
                self.frame_buffer.set(y * 160 + x, shade);
                x = x + 1;
            }
            y = y + 1;
        }
    }

    /// What `update` does, from PPU `self` and bus `m0` to `p2` and `m2`.
    pub open spec fn update_post(self, m0: BusView, cycles: u32, p2: Ppu, m2: BusView) -> bool {
        &&& p2.wf()
        &&& m2.wf()
        &&& m0.peek(REG_LCDC) & LCDC_ENABLE == 0 ==> m2 == m0
                    && p2.spec_frame() == self.spec_frame() && p2.spec_mode_clock() == self.spec_mode_clock()
        &&& m0.peek(REG_LCDC) & LCDC_ENABLE != 0 ==> {
                    let total = self.spec_mode_clock() + cycles;
                    let k = lines_in(total);
                    &&& p2.spec_mode_clock() == total % 456
                    &&& m0.peek(REG_LY) < 154 ==> m2.peek(REG_LY) == (m0.peek(
                        REG_LY,
                    ) + k) % 154
                    &&& k > 0 ==> m2.peek(REG_LY) < 154
                    &&& m2 == lines_bus(m0, k as nat)
                    &&& p2.spec_frame() == lines_frame(m0, self.spec_frame(), k as nat)
                }
        &&& m0.peek(REG_LY) < 154 ==> m2.peek(REG_LY) < 154
        &&& p2.spec_sprites().len() <= MAX_SPRITES_PER_LINE
    }

    /// Advances by `cycles` machine cycles, completing a scanline every 456.
    /// With the LCD off nothing changes.
    pub fn update(&mut self, bus: &mut MemorySystem, cycles: u32)
        requires
            old(self).wf(),
            old(bus)@.wf(),
        ensures
            old(self).update_post(old(bus)@, cycles, *final(self), final(bus)@),
    {
        let lcdc = bus.read_byte(REG_LCDC);
        if lcdc & LCDC_ENABLE == 0 {
            return;
        }
        let ghost ly0 = bus@.peek(REG_LY);
        let ghost m0 = bus@;
        let ghost f0 = self.frame_buffer@;
        let ghost total = self.mode_clock + cycles;
        let mut clock: u64 = self.mode_clock + cycles as u64;
        let mut lines: u64 = 0;
        while clock >= CYCLES_PER_LINE
            invariant
                self.wf(),
                bus@.wf(),
                clock + lines * 456 == total,
                total < 0x1_0000_0000 + 456,
                ly0 < 154 ==> bus@.peek(REG_LY) == (ly0 + lines) % 154,
                lines > 0 ==> bus@.peek(REG_LY) < 154,
                bus@ == lines_bus(m0, lines as nat),
                self.frame_buffer@ == lines_frame(m0, f0, lines as nat),
            decreases clock,
        {
            clock = clock - CYCLES_PER_LINE;
            self.complete_line(bus);
            lines = lines + 1;
        }
        proof {
            vstd::arithmetic::div_mod::lemma_fundamental_div_mod_converse(
                total,
                456,
                lines as int,
                clock as int,
            );
        }
        self.mode_clock = clock;
    }
}

/// Inserts `sprite` after every entry whose `x` is at least its own, and
/// returns where it went.
fn insert_by_x(list: &mut Vec<Sprite>, sprite: Sprite) -> (pos: usize)
    requires
        old(list)@.len() < MAX_SPRITES_PER_LINE,
        forall|i: int, j: int|
            0 <= i < j < old(list)@.len() ==> (#[trigger] old(list)@[i]).x >= (#[trigger] old(list)@[j]).x,
    ensures
        pos <= old(list)@.len(),
        final(list)@.len() == old(list)@.len() + 1,
        final(list)@[pos as int] == sprite,
        final(list)@ == insert_sorted(old(list)@, sprite),
        forall|i: int| 0 <= i < pos ==> #[trigger] final(list)@[i] == old(list)@[i],
        forall|i: int| pos < i < final(list)@.len() ==> #[trigger] final(list)@[i] == old(list)@[i - 1],
        forall|i: int, j: int|
            0 <= i < j < final(list)@.len() ==> (#[trigger] final(list)@[i]).x >= (#[trigger] final(list)@[j]).x,
{
    let mut pos: usize = 0;
    while pos < list.len() && list[pos].x >= sprite.x
        invariant
            pos <= list@.len(),
            forall|i: int| 0 <= i < pos ==> (#[trigger] list@[i]).x >= sprite.x,
        decreases list@.len() - pos,
    {
        pos = pos + 1;
    }
    let ghost before = list@;
    proof {
        before.insert_ensures(pos as int, sprite);
        lemma_first_left_of(before, sprite.x, 0, pos as nat);
    }
    list.insert(pos, sprite);
    assert forall|i: int| pos < i < list@.len() implies #[trigger] list@[i] == before[i - 1] by {
        assert(list@[(i - 1) + 1] == before[i - 1]);
    }
    pos
}

proof fn lemma_shade(v: u8)
    by (bit_vector)
    ensures
        v & 0x03 <= 3,
{
}

proof fn lemma_low_bit(v: u8)
    by (bit_vector)
    ensures
        v & 0x01 <= 1,
{
}

} // verus!
