use vstd::prelude::*;

verus! {

pub const VRAM_BEGIN: usize = 0x8000;
pub const VRAM_END: usize = 0x9FFF;
pub const VRAM_SIZE: usize = 0x2000;

pub const OAM_BEGIN: usize = 0xFE00;
pub const OAM_END: usize = 0xFE9F;
pub const OAM_SIZE: usize = 0xA0;

pub const SCREEN_WIDTH: usize = 160;
pub const SCREEN_HEIGHT: usize = 144;
pub const CANVAS_SIZE: usize = 92160;

pub const NUMBER_OF_OBJECTS: usize = 40;

/// The tile cache: 384 tiles of 8 rows of 8 two-bit pixels, flattened so that
/// entry `8 * k + x` is pixel `x` of the row stored at VRAM bytes `2k` and `2k + 1`.
pub const TILE_SET_SIZE: usize = 24576;
/// The part of VRAM that holds tile data.
pub const TILE_DATA_SIZE: usize = 0x1800;

/// Dots per frame: 154 lines of 456 dots, 144 visible (80 + 172 + 204) and
/// 10 of vertical blank.
pub const FRAME_DOTS: u32 = 70224;

#[derive(Copy, Clone, Debug, PartialEq, Eq, Structural)]
pub enum TileMap {
    X9800,
    X9C00,
}

#[derive(Copy, Clone, Debug, PartialEq, Eq, Structural)]
pub enum ObjectPalette {
    Zero,
    One,
}

/// The attributes of one object (sprite), decoded from its four OAM bytes.
#[derive(Copy, Clone, Debug, PartialEq, Eq, Structural)]
pub struct ObjectData {
    pub x: i16,
    pub y: i16,
    pub tile: u8,
    pub palette: ObjectPalette,
    pub xflip: bool,
    pub yflip: bool,
    /// Whether the object is drawn over a non-zero background pixel.
    pub priority: bool,
}

#[derive(Copy, Clone, Debug, PartialEq, Eq, Structural)]
pub enum ObjectSize {
    OS8X8,
    OS8X16,
}

#[derive(Copy, Clone, Debug, PartialEq, Eq, Structural)]
pub enum BackgroundAndWindowDataSelect {
    X8000,
    X8800,
}

/// One of the four gray shades.
#[derive(Copy, Clone, Debug, PartialEq, Eq, Structural)]
pub enum Color {
    White,
    LightGray,
    DarkGray,
    Black,
}

/// The interrupts that a step of the display unit asks for.
#[derive(Copy, Clone, Debug, PartialEq, Eq, Structural)]
pub enum InterruptRequest {
    NoInterrupt,
    VBlank,
    LCDStat,
    Both,
}

#[derive(Copy, Clone, Debug, PartialEq, Eq, Structural)]
pub enum Mode {
    HorizontalBlank,
    VerticalBlank,
    OAMAccess,
    VRAMAccess,
}

/// The shades of the four background pixel values.
#[derive(Copy, Clone, Debug, PartialEq, Eq, Structural)]
pub struct BackgroundColors(pub Color, pub Color, pub Color, pub Color);

#[derive(Copy, Clone, Debug, PartialEq, Eq, Structural)]
pub struct Window {
    pub x: u8,
    pub y: u8,
}

/// The brightness of a shade.
pub open spec fn shade(c: Color) -> u8 {
    match c {
        Color::White => 255,
        Color::LightGray => 192,
        Color::DarkGray => 96,
        Color::Black => 0,
    }
}

/// The shade numbered `n` (0 lightest, 3 darkest).
pub open spec fn color_of(n: int) -> Color {
    if n == 0 {
        Color::White
    } else if n == 1 {
        Color::LightGray
    } else if n == 2 {
        Color::DarkGray
    } else {
        Color::Black
    }
}

/// The number of a shade.
pub open spec fn color_index(c: Color) -> int {
    match c {
        Color::White => 0,
        Color::LightGray => 1,
        Color::DarkGray => 2,
        Color::Black => 3,
    }
}

/// The palette register byte of a palette: two bits per value, value 0 lowest.
pub open spec fn palette_byte(p: BackgroundColors) -> int {
    color_index(p.0) + 4 * color_index(p.1) + 16 * color_index(p.2) + 64 * color_index(p.3)
}

/// The shades that a palette byte gives to the pixel values 0 to 3: two bits each.
pub open spec fn palette_of(v: int) -> BackgroundColors {
    BackgroundColors(
        color_of(v % 4),
        color_of((v / 4) % 4),
        color_of((v / 16) % 4),
        color_of((v / 64) % 4),
    )
}

pub open spec fn palette_shade(p: BackgroundColors, value: int) -> u8 {
    if value == 0 {
        shade(p.0)
    } else if value == 1 {
        shade(p.1)
    } else if value == 2 {
        shade(p.2)
    } else {
        shade(p.3)
    }
}

pub open spec fn requests_vblank(r: InterruptRequest) -> bool {
    r == InterruptRequest::VBlank || r == InterruptRequest::Both
}

pub open spec fn requests_lcdstat(r: InterruptRequest) -> bool {
    r == InterruptRequest::LCDStat || r == InterruptRequest::Both
}

/// The two-bit value of pixel `x` (0 leftmost) of a tile row stored as a low
/// byte and a high byte: bit `7 - x` of the low byte, plus twice bit `7 - x`
/// of the high byte.
pub open spec fn tile_pixel(lo: u8, hi: u8, x: int) -> u8 {
    (((lo as int / pow2_8(7 - x)) % 2) + 2 * ((hi as int / pow2_8(7 - x)) % 2)) as u8
}

/// 2 to the power `n`, for `n` in 0..8.
pub open spec fn pow2_8(n: int) -> int {
    if n == 0 {
        1
    } else if n == 1 {
        2
    } else if n == 2 {
        4
    } else if n == 3 {
        8
    } else if n == 4 {
        16
    } else if n == 5 {
        32
    } else if n == 6 {
        64
    } else {
        128
    }
}

/// The value that the tile cache holds at entry `i`, by the VRAM bytes.
pub open spec fn cached_pixel(vram: Seq<u8>, i: int) -> u8 {
    tile_pixel(vram[2 * (i / 8)], vram[2 * (i / 8) + 1], i % 8)
}

/// The object decoded from its four OAM bytes: y less 16, x less 8, the tile,
/// and the palette, x-flip, y-flip and priority bits 4, 5, 6 and 7 of the last.
pub open spec fn object_of(oam: Seq<u8>, k: int) -> ObjectData {
    let flags = oam[4 * k + 3] as int;
    ObjectData {
        y: (oam[4 * k] - 16) as i16,
        x: (oam[4 * k + 1] - 8) as i16,
        tile: oam[4 * k + 2],
        palette: if (flags / 16) % 2 == 1 {
            ObjectPalette::One
        } else {
            ObjectPalette::Zero
        },
        xflip: (flags / 32) % 2 == 1,
        yflip: (flags / 64) % 2 == 1,
        priority: flags / 128 == 0,
    }
}

/// How many dots a mode lasts on one line; a line of vertical blank lasts 456.
pub open spec fn mode_duration(m: Mode) -> int {
    match m {
        Mode::OAMAccess => 80,
        Mode::VRAMAccess => 172,
        Mode::HorizontalBlank => 204,
        Mode::VerticalBlank => 456,
    }
}

/// The dot within a line at which a mode starts.
pub open spec fn mode_start(m: Mode) -> int {
    match m {
        Mode::OAMAccess => 0,
        Mode::VRAMAccess => 80,
        Mode::HorizontalBlank => 252,
        Mode::VerticalBlank => 0,
    }
}

/// The dots of one frame.
pub open spec fn frame_dots() -> int {
    70224
}

/// The dot of the frame at which the vertical blank starts.
pub open spec fn vblank_start() -> int {
    144int * 456
}

/// The dot of the frame at which a line starts: every line lasts 456 dots.
pub open spec fn line_start(line: int) -> int {
    line * 456
}

/// The line and mode at a dot of the frame.
pub open spec fn line_at(p: int) -> int {
    p / 456
}

pub open spec fn mode_at(p: int) -> Mode {
    if p >= vblank_start() {
        Mode::VerticalBlank
    } else if p % 456 < 80 {
        Mode::OAMAccess
    } else if p % 456 < 252 {
        Mode::VRAMAccess
    } else {
        Mode::HorizontalBlank
    }
}

/// Whether the dots after `p`, up to `p + c`, pass the dot `t` of some frame.
pub open spec fn passes(p: int, c: int, t: int) -> bool {
    (p < t <= p + c) || (p < t + frame_dots() <= p + c)
}

/// The cache tile that a tile number selects: with data select 0x8000 the
/// number itself; with 0x8800 numbers 0..127 address tiles 256..383.
pub open spec fn tile_id(sel: BackgroundAndWindowDataSelect, n: int) -> int {
    if sel == BackgroundAndWindowDataSelect::X8000 || n >= 128 {
        n
    } else {
        256 + n
    }
}

/// Where a tile map starts in VRAM.
pub open spec fn map_base(m: TileMap) -> int {
    match m {
        TileMap::X9800 => 0x1800,
        TileMap::X9C00 => 0x1C00,
    }
}

/// The two-bit value of pixel `col` of row `row` of tile `t`, read from VRAM.
pub open spec fn vram_pixel(vram: Seq<u8>, t: int, row: int, col: int) -> u8 {
    tile_pixel(vram[16 * t + 2 * row], vram[16 * t + 2 * row + 1], col)
}

/// The background value (before the palette) at column `x` of the current line;
/// 0 where the background is off.
pub open spec fn background_value(g: GPU, x: int) -> u8 {
    if in_window(g, x) {
        map_pixel(g, g.window_tile_map, x + 7 - g.window.x, g.line - g.window.y)
    } else if !g.background_display_enabled {
        0
    } else {
        map_pixel(g, g.background_tile_map, (g.viewport_x_offset + x) % 256, (g.line + g.viewport_y_offset) % 256)
    }
}

/// The value of pixel (`px`, `py`) of the 256 x 256 plane that tile map `m` lays out.
pub open spec fn map_pixel(g: GPU, m: TileMap, px: int, py: int) -> u8 {
    let n = g.vram@[map_base(m) + (py / 8) * 32 + px / 8];
    vram_pixel(g.vram@, tile_id(g.background_and_window_data_select, n as int), py % 8, px % 8)
}

/// Whether column `x` of the current line shows the window: it is on, it
/// starts at or above the line, and its left edge, at `window.x - 7`, is at
/// or left of the column.
pub open spec fn in_window(g: GPU, x: int) -> bool {
    &&& g.window_display_enabled
    &&& g.window.y <= g.line
    &&& g.window.x <= 166
    &&& g.window.x <= x + 7
}

/// The shade of the background or window at column `x`: white where both are off.
pub open spec fn background_shade(g: GPU, x: int) -> u8 {
    if g.background_display_enabled || in_window(g, x) {
        palette_shade(g.background_colors, background_value(g, x) as int)
    } else {
        255
    }
}

pub open spec fn object_height(g: GPU) -> int {
    if g.object_size == ObjectSize::OS8X16 {
        16
    } else {
        8
    }
}

/// The value (before the palette) that object `o` gives column `x` of the
/// current line: 0 where it does not cover that column.
pub open spec fn object_pixel(g: GPU, o: ObjectData, x: int) -> u8 {
    let h = object_height(g);
    let row = g.line - o.y;
    let col = x - o.x;
    if 0 <= row < h && 0 <= col < 8 {
        let r = if o.yflip { h - 1 - row } else { row };
        let c = if o.xflip { 7 - col } else { col };
        vram_pixel(g.vram@, o.tile + r / 8, r % 8, c)
    } else {
        0
    }
}

/// The shade of a non-zero object pixel value, through the object's palette.
pub open spec fn object_shade(g: GPU, o: ObjectData, v: int) -> u8 {
    let c = if o.palette == ObjectPalette::Zero {
        if v == 1 { g.obj_0_color_1 } else if v == 2 { g.obj_0_color_2 } else { g.obj_0_color_3 }
    } else {
        if v == 1 { g.obj_1_color_1 } else if v == 2 { g.obj_1_color_2 } else { g.obj_1_color_3 }
    };
    shade(c)
}

/// Whether object `o` is drawn at column `x` of the current line: objects are
/// on, its pixel there is not transparent, and it is over the background or
/// the background value there is 0.
pub open spec fn object_draws(g: GPU, o: ObjectData, x: int) -> bool {
    &&& g.object_display_enabled
    &&& 0 <= x < 160
    &&& object_pixel(g, o, x) != 0
    &&& (o.priority || background_value(g, x) == 0)
}

/// The shade at column `x` once the first `k` objects are drawn over the
/// background, each over the ones before it.
pub open spec fn composed(g: GPU, x: int, k: int) -> u8
    decreases k,
{
    if k <= 0 {
        background_shade(g, x)
    } else if object_draws(g, g.object_data@[k - 1], x) {
        object_shade(g, g.object_data@[k - 1], object_pixel(g, g.object_data@[k - 1], x) as int)
    } else {
        composed(g, x, k - 1)
    }
}

/// The shade of column `x` of the current line.
pub open spec fn line_shade(g: GPU, x: int) -> u8 {
    composed(g, x, NUMBER_OF_OBJECTS as int)
}

/// A dot `v` of the frame that no mode straddles is passed on the way through
/// a mode, which starts at dot `b` of the frame and at absolute dot `t`, only
/// at the mode's end, when the next mode starts at `v`.
proof fn lemma_passes_advance(p0: int, t: int, b: int, q: int, d: int, e: int, v: int)
    requires
        0 <= p0 < frame_dots(),
        0 < v <= frame_dots(),
        0 <= b,
        b + d <= frame_dots(),
        b + d <= v || v <= b,
        t == q * frame_dots() + b,
        q == 0 || q == 1,
        t + d > p0,
        0 <= e <= d,
    ensures
        passes(p0, t + e - p0, v) == (passes(p0, t - p0, v) || (e == d && b + d == v)),
{
}

/// The dot at which visible line `l` enters OAM access: line 0 does so as
/// the frame ends.
pub open spec fn oam_point(l: int) -> int {
    if l == 0 {
        frame_dots()
    } else {
        l * 456
    }
}

/// No mode straddles the start of a line's OAM access, and the mode that
/// ends there is the horizontal blank before it, or the last line of
/// vertical blank for line 0.
proof fn lemma_oam_point_aligned(g: GPU, l: int)
    requires
        g.line_ok(),
        0 <= l < 144,
    ensures
        g.mode_base() + mode_duration(g.mode) <= oam_point(l) || oam_point(l) <= g.mode_base(),
        g.mode_base() + mode_duration(g.mode) == oam_point(l) <==> (if l == 0 {
            g.mode == Mode::VerticalBlank && g.line == 153
        } else {
            g.mode == Mode::HorizontalBlank && g.line == l - 1
        }),
        0 < oam_point(l) <= frame_dots(),
{
}

/// The dot at which the unit moves on to line `l`: line 0 as the frame ends.
pub open spec fn line_point(l: int) -> int {
    if l == 0 {
        frame_dots()
    } else {
        l * 456
    }
}

/// No mode straddles the start of a line, and the mode that ends there is
/// the last one of the line before.
proof fn lemma_line_point_aligned(g: GPU, l: int)
    requires
        g.line_ok(),
        0 <= l < 154,
    ensures
        g.mode_base() + mode_duration(g.mode) <= line_point(l) || line_point(l) <= g.mode_base(),
        g.mode_base() + mode_duration(g.mode) == line_point(l) <==> ((g.mode == Mode::HorizontalBlank
            || g.mode == Mode::VerticalBlank) && (if l == 0 {
            g.line == 153
        } else {
            g.line == l - 1
        })),
        0 < line_point(l) <= frame_dots(),
{
}

/// Whether some source of LCDStat fires on the dots after `p` up to `p + c`
/// from the state `o`: a horizontal blank starts with its source on, OAM
/// access starts with its source on, the vertical blank starts with its
/// source on, or the line compare register's line starts with its source on.
pub open spec fn stat_fires(o: GPU, p: int, c: int) -> bool {
    ||| (o.hblank_interrupt_enabled && exists|l: int| 0 <= l < SCREEN_HEIGHT && #[trigger] passes(p, c, draw_point(l)))
    ||| (o.oam_interrupt_enabled && exists|l: int| 0 <= l < SCREEN_HEIGHT && #[trigger] passes(p, c, oam_point(l)))
    ||| (o.vblank_interrupt_enabled && passes(p, c, vblank_start()))
    ||| (o.line_equals_line_check_interrupt_enabled && o.line_check < 154 && passes(p, c, line_point(o.line_check as int)))
}

/// The dot of the frame at which line `l` is drawn: the end of its VRAM access.
pub open spec fn draw_point(l: int) -> int {
    l * 456 + 252
}

/// No mode straddles the dot at which a visible line is drawn, and the mode
/// that ends there is the VRAM access of that line.
proof fn lemma_draw_point_aligned(g: GPU, l: int)
    requires
        g.line_ok(),
        0 <= l < 144,
    ensures
        g.mode_base() + mode_duration(g.mode) <= draw_point(l) || draw_point(l) <= g.mode_base(),
        g.mode_base() + mode_duration(g.mode) == draw_point(l) <==> (g.mode == Mode::VRAMAccess && g.line
            == l),
        0 < draw_point(l) < frame_dots(),
{
}

/// The shade of column `x` of line `l` drawn from the state `g`.
pub open spec fn shade_on_line(g: GPU, l: int, x: int) -> u8 {
    line_shade(GPU { line: l as u8, ..g }, x)
}

/// Row `l` of the canvas holds line `l` as drawn from the state `g`: the
/// shade in blue, green and red, and opaque alpha.
pub open spec fn row_drawn(canvas: Seq<u8>, g: GPU, l: int) -> bool {
    &&& forall|x: int, j: int| 0 <= x < SCREEN_WIDTH && 0 <= j < 3 ==> #[trigger] canvas[(l * 160 + x) * 4 + j]
        == shade_on_line(g, l, x)
    &&& forall|x: int| 0 <= x < SCREEN_WIDTH ==> #[trigger] canvas[(l * 160 + x) * 4 + 3] == 255
}

/// Two states that agree on what a line is drawn from draw it alike.
proof fn lemma_composed_frame(g1: GPU, g2: GPU, x: int, k: int)
    requires
        g1.same_picture(&g2),
        0 <= k <= NUMBER_OF_OBJECTS,
    ensures
        composed(g1, x, k) == composed(g2, x, k),
    decreases k,
{
    if k > 0 {
        lemma_composed_frame(g1, g2, x, k - 1);
    }
}

/// 1 for true, 0 for false.
pub open spec fn bit_value(b: bool) -> int {
    if b {
        1
    } else {
        0
    }
}

/// Whether bit `n` (0 to 7) of the byte `v` is set.
pub open spec fn bit_of(v: int, n: int) -> bool {
    (v / pow2_8(n)) % 2 == 1
}

/// A byte is the sum of its bits.
pub proof fn lemma_byte_bits(v: u8)
    by (bit_vector)
    ensures
        v == 128 * ((v / 128) % 2) + 64 * ((v / 64) % 2) + 32 * ((v / 32) % 2) + 16 * ((v / 16) % 2) + 8 * ((v
            / 8) % 2) + 4 * ((v / 4) % 2) + 2 * ((v / 2) % 2) + v % 2,
{
}

/// The number of a mode in the status register.
pub open spec fn mode_number(m: Mode) -> int {
    match m {
        Mode::HorizontalBlank => 0,
        Mode::VerticalBlank => 1,
        Mode::OAMAccess => 2,
        Mode::VRAMAccess => 3,
    }
}

/// Writing a low byte to an even tile-data address of VRAM (from `g0` to
/// `g1`) and a high byte to the odd address after it (from `g1` to `g`) leaves
/// in the tile cache, for that tile and row,
/// the interleaving of the two bytes: pixel `x` takes bit `7 - x` of the low
/// byte as its low bit and bit `7 - x` of the high byte as its high bit.
pub proof fn lemma_tile_row_decode(g0: GPU, g1: GPU, g: GPU, a: int, lo: u8, hi: u8)
    requires
        g0.wf(),
        0 <= a < TILE_DATA_SIZE,
        a % 2 == 0,
        g1.vram@ == g0.vram@.update(a, lo),
        g.vram@ == g1.vram@.update(a + 1, hi),
        g.wf(),
    ensures
        forall|x: int| 0 <= x < 8 ==> #[trigger] g.tile_value(a / 16, (a % 16) / 2, x) == tile_pixel(lo, hi, x),
{
    assert forall|x: int| 0 <= x < 8 implies #[trigger] g.tile_value(a / 16, (a % 16) / 2, x) == tile_pixel(
        lo,
        hi,
        x,
    ) by {
        g.lemma_tile_value(a / 16, (a % 16) / 2, x);
        assert(16 * (a / 16) + 2 * ((a % 16) / 2) == a);
        assert(g.vram@[a] == lo);
    }
}

/// The OAM access, VRAM access and horizontal blank of a visible line last
/// 80 + 172 + 204 = 456 dots, as a line of vertical blank does, so a frame of
/// 154 lines lasts 154 * 456 = 70224 dots; two well-formed states at the same
/// dot of the frame are on the same line and in the same mode.
pub proof fn lemma_frame_timing(g1: GPU, g2: GPU)
    requires
        g1.wf(),
        g2.wf(),
        g1.position() == g2.position(),
    ensures
        mode_duration(Mode::OAMAccess) + mode_duration(Mode::VRAMAccess) + mode_duration(Mode::HorizontalBlank)
            == mode_duration(Mode::VerticalBlank),
        mode_duration(Mode::VerticalBlank) == 456,
        frame_dots() == 154 * 456,
        g1.line == g2.line,
        g1.mode == g2.mode,
        g1.cycles == g2.cycles,
{
    g1.lemma_position();
    g2.lemma_position();
}

/// The pixel-processing unit: VRAM and OAM with their decoded forms, the
/// mode state machine, the registers of its I/O ports and the canvas.
pub struct GPU {
    pub vram: Vec<u8>,
    pub oam: Vec<u8>,
    pub object_data: Vec<ObjectData>,
    pub canvas_buffer: Vec<u8>,
    pub tile_set: Vec<u8>,
    pub viewport_x_offset: u8,
    pub viewport_y_offset: u8,
    pub background_display_enabled: bool,
    pub object_display_enabled: bool,
    pub line: u8,
    pub background_tile_map: TileMap,
    pub background_colors: BackgroundColors,
    pub object_size: ObjectSize,
    pub mode: Mode,
    pub cycles: u16,
    pub lcd_display_enabled: bool,
    pub window_display_enabled: bool,
    pub window_tile_map: TileMap,
    pub background_and_window_data_select: BackgroundAndWindowDataSelect,
    pub line_equals_line_check_interrupt_enabled: bool,
    pub oam_interrupt_enabled: bool,
    pub vblank_interrupt_enabled: bool,
    pub hblank_interrupt_enabled: bool,
    pub line_equals_line_check: bool,
    pub line_check: u8,
    pub obj_0_color_1: Color,
    pub obj_0_color_2: Color,
    pub obj_0_color_3: Color,
    pub obj_1_color_1: Color,
    pub obj_1_color_2: Color,
    pub obj_1_color_3: Color,
    pub window: Window,
}

/// A zero-filled buffer of `n` bytes.
pub fn zeroed(n: usize) -> (r: Vec<u8>)
    ensures
        r@ == Seq::new(n as nat, |i: int| 0u8),
{
    let mut r: Vec<u8> = Vec::new();
    let mut i: usize = 0;
    while i < n
        invariant
            i <= n,
            r@ == Seq::new(i as nat, |j: int| 0u8),
        decreases n - i,
    {
        r.push(0);
        i = i + 1;
    }
    r
}

impl Color {
    /// The shade numbered `n`.
    pub fn from_index(n: u8) -> (r: Color)
        requires
            n < 4,
        ensures
            r == color_of(n as int),
    {
        if n == 0 {
            Color::White
        } else if n == 1 {
            Color::LightGray
        } else if n == 2 {
            Color::DarkGray
        } else {
            Color::Black
        }
    }

    /// The brightness written into the canvas for this shade.
    pub fn value(&self) -> (r: u8)
        ensures
            r == shade(*self),
    {
        match self {
            Color::White => 255,
            Color::LightGray => 192,
            Color::DarkGray => 96,
            Color::Black => 0,
        }
    }

    /// The number of the shade, 0 to 3.
    pub fn index(&self) -> (r: u8)
        ensures
            r < 4,
            r == color_index(*self),
            color_of(r as int) == *self,
    {
        match self {
            Color::White => 0,
            Color::LightGray => 1,
            Color::DarkGray => 2,
            Color::Black => 3,
        }
    }
}

impl BackgroundColors {
    /// The identity palette: white, light gray, dark gray, black.
    pub fn new() -> (r: BackgroundColors)
        ensures
            r == BackgroundColors(Color::White, Color::LightGray, Color::DarkGray, Color::Black),
    {
        BackgroundColors(Color::White, Color::LightGray, Color::DarkGray, Color::Black)
    }

    /// The palette held in a palette register byte.
    pub fn from_byte(value: u8) -> (r: BackgroundColors)
        ensures
            r == palette_of(value as int),
    {
        BackgroundColors(
            Color::from_index(value % 4),
            Color::from_index((value / 4) % 4),
            Color::from_index((value / 16) % 4),
            Color::from_index(value / 64),
        )
    }

    /// The palette register byte that holds this palette.
    pub fn to_byte(&self) -> (r: u8)
        ensures
            r == palette_byte(*self),
            palette_of(r as int) == *self,
    {
        let r = self.0.index() + 4 * self.1.index() + 16 * self.2.index() + 64 * self.3.index();
        r
    }

    /// The shade of a pixel value.
    pub fn shade_of(&self, value: u8) -> (r: u8)
        requires
            value < 4,
        ensures
            r == palette_shade(*self, value as int),
    {
        if value == 0 {
            self.0.value()
        } else if value == 1 {
            self.1.value()
        } else if value == 2 {
            self.2.value()
        } else {
            self.3.value()
        }
    }
}

impl InterruptRequest {
    /// Adds the requests of `other` to this one.
    pub fn add(&mut self, other: InterruptRequest)
        ensures
            requests_vblank(*final(self)) == (requests_vblank(*old(self)) || requests_vblank(other)),
            requests_lcdstat(*final(self)) == (requests_lcdstat(*old(self)) || requests_lcdstat(other)),
    {
        let vblank = match *self {
            InterruptRequest::VBlank | InterruptRequest::Both => true,
            _ => match other {
                InterruptRequest::VBlank | InterruptRequest::Both => true,
                _ => false,
            },
        };
        let lcdstat = match *self {
            InterruptRequest::LCDStat | InterruptRequest::Both => true,
            _ => match other {
                InterruptRequest::LCDStat | InterruptRequest::Both => true,
                _ => false,
            },
        };
        *self = if vblank && lcdstat {
            InterruptRequest::Both
        } else if vblank {
            InterruptRequest::VBlank
        } else if lcdstat {
            InterruptRequest::LCDStat
        } else {
            InterruptRequest::NoInterrupt
        };
    }
}

/// The request for the interrupts named.
pub fn request_of(vblank: bool, lcdstat: bool) -> (r: InterruptRequest)
    ensures
        requests_vblank(r) == vblank,
        requests_lcdstat(r) == lcdstat,
{
    if vblank && lcdstat {
        InterruptRequest::Both
    } else if vblank {
        InterruptRequest::VBlank
    } else if lcdstat {
        InterruptRequest::LCDStat
    } else {
        InterruptRequest::NoInterrupt
    }
}

impl Mode {
    /// The mode number shown in bits 1..0 of the status register.
    pub fn to_byte(&self) -> (r: u8)
        ensures
            r < 4,
            *self == Mode::HorizontalBlank ==> r == 0,
            *self == Mode::VerticalBlank ==> r == 1,
            *self == Mode::OAMAccess ==> r == 2,
            *self == Mode::VRAMAccess ==> r == 3,
    {
        match self {
            Mode::HorizontalBlank => 0,
            Mode::VerticalBlank => 1,
            Mode::OAMAccess => 2,
            Mode::VRAMAccess => 3,
        }
    }
}

impl GPU {
    pub open spec fn wf(&self) -> bool {
        &&& self.buffers_ok()
        &&& self.line_ok()
        &&& self.cycles < mode_duration(self.mode)
    }

    /// The buffers have their sizes, the tile cache agrees with VRAM and the
    /// objects agree with OAM.
    pub open spec fn buffers_ok(&self) -> bool {
        &&& self.vram@.len() == VRAM_SIZE
        &&& self.oam@.len() == OAM_SIZE
        &&& self.object_data@.len() == NUMBER_OF_OBJECTS
        &&& self.canvas_buffer@.len() == CANVAS_SIZE
        &&& self.tile_set@.len() == TILE_SET_SIZE
        &&& forall|i: int| 0 <= i < TILE_SET_SIZE ==> #[trigger] self.tile_set@[i] == cached_pixel(self.vram@, i)
        &&& forall|k: int| 0 <= k < NUMBER_OF_OBJECTS ==> #[trigger] self.object_data@[k] == object_of(self.oam@, k)
    }

    /// The line is in range and is in vertical blank exactly from line 144 on.
    pub open spec fn line_ok(&self) -> bool {
        &&& self.line < 154
        &&& (self.line >= 144 <==> self.mode == Mode::VerticalBlank)
    }

    /// The dot of the frame at which the current mode started.
    pub open spec fn mode_base(&self) -> int {
        line_start(self.line as int) + mode_start(self.mode)
    }

    /// The dot of the frame that the unit has reached.
    pub open spec fn position(&self) -> int {
        self.mode_base() + self.cycles
    }

    /// The cached value of pixel `col` of row `row` of tile `tile`.
    pub open spec fn tile_value(&self, tile: int, row: int, col: int) -> u8 {
        self.tile_set@[64 * tile + 8 * row + col]
    }

    /// The cached pixel and the VRAM bytes it is decoded from agree.
    pub proof fn lemma_tile_value(&self, tile: int, row: int, col: int)
        requires
            self.buffers_ok(),
            0 <= tile < 384,
            0 <= row < 8,
            0 <= col < 8,
        ensures
            self.tile_value(tile, row, col) == tile_pixel(
                self.vram@[16 * tile + 2 * row],
                self.vram@[16 * tile + 2 * row + 1],
                col,
            ),
    {
        let i = 64 * tile + 8 * row + col;
        assert(i / 8 == 8 * tile + row);
        assert(i % 8 == col);
        assert(self.tile_set@[i] == cached_pixel(self.vram@, i));
    }

    /// The cached value of pixel `col` of row `row` of tile `tile`.
    pub fn tile_pixel_value(&self, tile: usize, row: usize, col: usize) -> (r: u8)
        requires
            self.buffers_ok(),
            tile < 384,
            row < 8,
            col < 8,
        ensures
            r == self.tile_value(tile as int, row as int, col as int),
            r == vram_pixel(self.vram@, tile as int, row as int, col as int),
    {
        proof {
            self.lemma_tile_value(tile as int, row as int, col as int);
        }
        self.tile_set[64 * tile + 8 * row + col]
    }

    /// The position determines the line and the mode, and lies within a frame.
    pub proof fn lemma_position(&self)
        requires
            self.wf(),
        ensures
            0 <= self.position() < frame_dots(),
            self.line == line_at(self.position()),
            self.mode == mode_at(self.position()),
    {
        let p = self.position();
        assert(p / 456 == self.line as int);
        assert(p % 456 == mode_start(self.mode) + self.cycles);
    }

    pub fn new() -> (r: GPU)
        ensures
            r.wf(),
            r.vram@ == Seq::new(VRAM_SIZE as nat, |i: int| 0u8),
            r.oam@ == Seq::new(OAM_SIZE as nat, |i: int| 0u8),
            r.canvas_buffer@ == Seq::new(CANVAS_SIZE as nat, |i: int| 0u8),
            r.line == 0,
            r.mode == Mode::HorizontalBlank,
            !r.lcd_display_enabled,
            r.position() == 252,
    {
        let oam = zeroed(OAM_SIZE);
        let mut object_data: Vec<ObjectData> = Vec::new();
        let mut k: usize = 0;
        while k < NUMBER_OF_OBJECTS
            invariant
                k <= NUMBER_OF_OBJECTS,
                oam@ == Seq::new(OAM_SIZE as nat, |i: int| 0u8),
                object_data@.len() == k,
                forall|j: int| 0 <= j < k ==> #[trigger] object_data@[j] == object_of(oam@, j),
            decreases NUMBER_OF_OBJECTS - k,
        {
            let o = ObjectData {
                x: -8,
                y: -16,
                tile: 0,
                palette: ObjectPalette::Zero,
                xflip: false,
                yflip: false,
                priority: true,
            };
            assert(o == object_of(oam@, k as int));
            object_data.push(o);
            k = k + 1;
        }
        let vram = zeroed(VRAM_SIZE);
        let tile_set = zeroed(TILE_SET_SIZE);
        assert forall|i: int| 0 <= i < TILE_SET_SIZE implies #[trigger] tile_set@[i] == cached_pixel(vram@, i) by {
            assert(vram@[2 * (i / 8)] == 0);
            assert(vram@[2 * (i / 8) + 1] == 0);
        }
        GPU {
            vram,
            oam,
            object_data,
            canvas_buffer: zeroed(CANVAS_SIZE),
            tile_set,
            viewport_x_offset: 0,
            viewport_y_offset: 0,
            background_display_enabled: true,
            object_display_enabled: true,
            line: 0,
            background_tile_map: TileMap::X9800,
            background_colors: BackgroundColors::new(),
            object_size: ObjectSize::OS8X8,
            mode: Mode::HorizontalBlank,
            cycles: 0,
            lcd_display_enabled: false,
            window_display_enabled: false,
            window_tile_map: TileMap::X9800,
            background_and_window_data_select: BackgroundAndWindowDataSelect::X8800,
            line_equals_line_check_interrupt_enabled: false,
            oam_interrupt_enabled: false,
            vblank_interrupt_enabled: false,
            hblank_interrupt_enabled: false,
            line_equals_line_check: false,
            line_check: 0,
            obj_0_color_1: Color::LightGray,
            obj_0_color_2: Color::DarkGray,
            obj_0_color_3: Color::Black,
            obj_1_color_1: Color::LightGray,
            obj_1_color_2: Color::DarkGray,
            obj_1_color_3: Color::Black,
            window: Window { x: 0, y: 0 },
        }
    }

    pub fn read_vram(&self, addr: usize) -> (r: u8)
        requires
            self.wf(),
            addr < VRAM_SIZE,
        ensures
            r == self.vram@[addr as int],
    {
        self.vram[addr]
    }

    /// Stores a VRAM byte and, for tile data, decodes the row it belongs to
    /// into the tile cache.
    #[verifier::spinoff_prover]
    pub fn write_vram(&mut self, addr: usize, val: u8)
        requires
            old(self).wf(),
            addr < VRAM_SIZE,
        ensures
            final(self).wf(),
            final(self).vram@ == old(self).vram@.update(addr as int, val),
            final(self).oam@ == old(self).oam@,
            final(self).canvas_buffer@ == old(self).canvas_buffer@,
            final(self).position() == old(self).position(),
            final(self).registers_unchanged(old(self)),
    {
        self.vram.set(addr, val);
        if addr >= TILE_DATA_SIZE {
            assert forall|i: int| 0 <= i < TILE_SET_SIZE implies #[trigger] self.tile_set@[i] == cached_pixel(self.vram@, i) by {
                assert(old(self).tile_set@[i] == cached_pixel(old(self).vram@, i));
            }
            return;
        }
        let base: usize = addr - addr % 2;
        let lo = self.vram[base];
        let hi = self.vram[base + 1];
        let start: usize = (addr / 2) * 8;
        let mut pixel: usize = 0;
        let mut div: u8 = 128;
        while pixel < 8
            invariant
                pixel <= 8,
                0 <= start,
                start + 8 <= TILE_SET_SIZE,
                start == (addr / 2) * 8,
                base == 2 * (addr / 2),
                base + 1 < VRAM_SIZE,
                lo == self.vram@[base as int],
                hi == self.vram@[base as int + 1],
                pixel < 8 ==> div as int == pow2_8(7 - pixel),
                self.vram@ == old(self).vram@.update(addr as int, val),
                self.vram@.len() == VRAM_SIZE,
                self.tile_set@.len() == TILE_SET_SIZE,
                forall|i: int| 0 <= i < TILE_SET_SIZE && (i < start || i >= start + pixel) ==>
                    #[trigger] self.tile_set@[i] == old(self).tile_set@[i],
                forall|i: int| start <= i < start + pixel ==> #[trigger] self.tile_set@[i] == cached_pixel(self.vram@, i),
                self.oam == old(self).oam,
                self.object_data == old(self).object_data,
                self.canvas_buffer == old(self).canvas_buffer,
                self.registers_unchanged(old(self)),
                self.cycles == old(self).cycles,
            decreases 8 - pixel,
        {
            let value: u8 = (lo / div) % 2 + 2 * ((hi / div) % 2);
            proof {
                let i = start + pixel;
                assert(i / 8 == addr / 2);
                assert(i % 8 == pixel);
            }
            self.tile_set.set(start + pixel, value);
            pixel = pixel + 1;
            if pixel < 8 {
                div = div / 2;
            }
        }
        proof {
            assert forall|i: int| 0 <= i < TILE_SET_SIZE implies #[trigger] self.tile_set@[i] == cached_pixel(self.vram@, i) by {
                if i < start || i >= start + 8 {
                    assert(old(self).tile_set@[i] == cached_pixel(old(self).vram@, i));
                    assert(i / 8 != addr / 2);
                    assert(2 * (i / 8) != addr);
                    assert(2 * (i / 8) + 1 != addr);
                }
            }
        }
    }

    /// Stores an OAM byte and decodes the object it belongs to.
    #[verifier::spinoff_prover]
    pub fn write_oam(&mut self, index: usize, value: u8)
        requires
            old(self).wf(),
            index < OAM_SIZE,
        ensures
            final(self).wf(),
            final(self).oam@ == old(self).oam@.update(index as int, value),
            final(self).vram == old(self).vram,
            final(self).tile_set == old(self).tile_set,
            final(self).canvas_buffer == old(self).canvas_buffer,
            final(self).cycles == old(self).cycles,
            final(self).registers_unchanged(old(self)),
    {
        self.oam.set(index, value);
        let k: usize = index / 4;
        let y = self.oam[4 * k];
        let x = self.oam[4 * k + 1];
        let tile = self.oam[4 * k + 2];
        let flags = self.oam[4 * k + 3];
        let o = ObjectData {
            y: y as i16 - 16,
            x: x as i16 - 8,
            tile,
            palette: if (flags / 16) % 2 == 1 {
                ObjectPalette::One
            } else {
                ObjectPalette::Zero
            },
            xflip: (flags / 32) % 2 == 1,
            yflip: (flags / 64) % 2 == 1,
            priority: flags / 128 == 0,
        };
        self.object_data.set(k, o);
        proof {
            assert forall|j: int| 0 <= j < NUMBER_OF_OBJECTS implies #[trigger] self.object_data@[j]
                == object_of(self.oam@, j) by {
                if j != k {
                    assert(old(self).object_data@[j] == object_of(old(self).oam@, j));
                    assert(self.oam@[4 * j] == old(self).oam@[4 * j]);
                    assert(self.oam@[4 * j + 1] == old(self).oam@[4 * j + 1]);
                    assert(self.oam@[4 * j + 2] == old(self).oam@[4 * j + 2]);
                    assert(self.oam@[4 * j + 3] == old(self).oam@[4 * j + 3]);
                }
            }
        }
    }

    /// Latches whether the line equals the compare register, and tells whether
    /// LCDStat is asked for: the two are equal and that interrupt is on.
    fn set_equal_lines_check(&mut self) -> (r: bool)
        ensures
            r == (old(self).line == old(self).line_check && old(self).line_equals_line_check_interrupt_enabled),
            final(self).line_equals_line_check == (old(self).line == old(self).line_check),
            final(self).vram == old(self).vram,
            final(self).oam == old(self).oam,
            final(self).object_data == old(self).object_data,
            final(self).tile_set == old(self).tile_set,
            final(self).canvas_buffer == old(self).canvas_buffer,
            final(self).cycles == old(self).cycles,
            final(self).line == old(self).line,
            final(self).mode == old(self).mode,
            final(self).config_unchanged(old(self)),
    {
        let line_equals_line_check = self.line == self.line_check;
        self.line_equals_line_check = line_equals_line_check;
        line_equals_line_check && self.line_equals_line_check_interrupt_enabled
    }

    /// How many dots the current mode lasts.
    fn duration(&self) -> (r: u16)
        ensures
            r == mode_duration(self.mode),
    {
        match self.mode {
            Mode::OAMAccess => 80,
            Mode::VRAMAccess => 172,
            Mode::HorizontalBlank => 204,
            Mode::VerticalBlank => 456,
        }
    }

    /// `self` and `o` agree on everything a line is drawn from.
    pub open spec fn same_picture(&self, o: &GPU) -> bool {
        &&& self.vram == o.vram
        &&& self.object_data == o.object_data
        &&& self.line == o.line
        &&& self.lcdc_unchanged(o)
        &&& self.scroll_unchanged(o)
        &&& self.object_colors_unchanged(o)
    }

    /// Whether some source of the LCDStat interrupt is enabled.
    pub open spec fn stat_sources_on(&self) -> bool {
        self.hblank_interrupt_enabled || self.oam_interrupt_enabled || self.vblank_interrupt_enabled
            || self.line_equals_line_check_interrupt_enabled
    }

    /// `self` is the state after the mode of `o` ended with request `r`.
    pub open spec fn advanced_from(&self, o: GPU, r: InterruptRequest) -> bool {
        &&& self.buffers_ok()
        &&& self.line_ok()
        &&& self.cycles == o.cycles - mode_duration(o.mode)
        &&& self.mode_base() == (o.mode_base() + mode_duration(o.mode)) % frame_dots()
        &&& (requests_vblank(r) <==> self.mode_base() == vblank_start())
        &&& (requests_lcdstat(r) ==> o.stat_sources_on())
        &&& (o.mode == Mode::VRAMAccess ==> requests_lcdstat(r) == o.hblank_interrupt_enabled)
        &&& (self.mode == Mode::OAMAccess && o.mode != Mode::OAMAccess && o.oam_interrupt_enabled
            ==> requests_lcdstat(r))
        &&& (self.mode == Mode::VerticalBlank && o.mode == Mode::HorizontalBlank && o.vblank_interrupt_enabled
            ==> requests_lcdstat(r))
        &&& (self.line != o.line ==> self.line_equals_line_check == (self.line == o.line_check))
        &&& (self.line != o.line && self.line == o.line_check && o.line_equals_line_check_interrupt_enabled
            ==> requests_lcdstat(r))
        &&& (self.line == o.line ==> self.line_equals_line_check == o.line_equals_line_check)
        &&& (self.line != o.line ==> (o.mode == Mode::HorizontalBlank || o.mode == Mode::VerticalBlank) && self.line
            == (o.line + 1) % 154)
        &&& (requests_lcdstat(r) ==> (o.mode == Mode::VRAMAccess && o.hblank_interrupt_enabled) || (self.mode
            == Mode::OAMAccess && o.mode != Mode::OAMAccess && o.oam_interrupt_enabled) || (self.mode
            == Mode::VerticalBlank && o.mode == Mode::HorizontalBlank && o.vblank_interrupt_enabled) || (
        self.line != o.line && self.line == o.line_check && o.line_equals_line_check_interrupt_enabled))
        &&& (o.mode != Mode::VRAMAccess ==> self.canvas_buffer == o.canvas_buffer)
        &&& (o.mode == Mode::VRAMAccess ==> row_drawn(self.canvas_buffer@, o, o.line as int))
        &&& (o.mode == Mode::VRAMAccess ==> forall|i: int|
            0 <= i < CANVAS_SIZE && (i < o.line * 640 || i >= o.line * 640 + 640) ==> #[trigger] self.canvas_buffer@[i]
                == o.canvas_buffer@[i])
        &&& self.vram == o.vram
        &&& self.oam == o.oam
        &&& self.object_data == o.object_data
        &&& self.tile_set == o.tile_set
        &&& self.config_unchanged(&o)
    }

    /// The end of a horizontal blank: the next line starts, in OAM access or,
    /// after the last visible line, in vertical blank.
    #[verifier::spinoff_prover]
    fn end_hblank(&mut self) -> (r: InterruptRequest)
        requires
            old(self).buffers_ok(),
            old(self).line_ok(),
            old(self).mode == Mode::HorizontalBlank,
            old(self).cycles >= 204,
        ensures
            final(self).advanced_from(*old(self), r),
    {
        assert(old(self).mode_base() + 204 == line_start(self.line + 1));
        proof {
            vstd::arithmetic::div_mod::lemma_small_mod(
                (old(self).mode_base() + 204) as nat,
                frame_dots() as nat,
            );
        }
        let new_line: u8 = self.line + 1;
        let vblank = new_line >= 144;
        let new_mode = if vblank {
            Mode::VerticalBlank
        } else {
            Mode::OAMAccess
        };
        let mode_stat = if vblank {
            self.vblank_interrupt_enabled
        } else {
            self.oam_interrupt_enabled
        };
        assert(line_start(new_line as int) + mode_start(new_mode) == old(self).mode_base() + 204);
        assert(vblank <==> line_start(new_line as int) + mode_start(new_mode) == vblank_start());
        self.cycles = self.cycles - 204;
        self.line = new_line;
        self.mode = new_mode;
        let line_stat = self.set_equal_lines_check();
        request_of(vblank, mode_stat || line_stat)
    }

    /// The end of a line of vertical blank: the next line, or line 0 in OAM
    /// access after line 153.
    #[verifier::spinoff_prover]
    fn end_vblank_line(&mut self) -> (r: InterruptRequest)
        requires
            old(self).buffers_ok(),
            old(self).line_ok(),
            old(self).mode == Mode::VerticalBlank,
            old(self).cycles >= 456,
        ensures
            final(self).advanced_from(*old(self), r),
    {
        assert(old(self).mode_base() + 456 == line_start(self.line + 1));
        proof {
            if self.line < 153 {
                vstd::arithmetic::div_mod::lemma_small_mod(
                    (old(self).mode_base() + 456) as nat,
                    frame_dots() as nat,
                );
            }
        }
        self.cycles = self.cycles - 456;
        self.line = self.line + 1;
        let mut mode_stat = false;
        if self.line == 154 {
            self.mode = Mode::OAMAccess;
            self.line = 0;
            mode_stat = self.oam_interrupt_enabled;
        }
        let line_stat = self.set_equal_lines_check();
        request_of(false, mode_stat || line_stat)
    }

    /// The end of VRAM access: the line is drawn and horizontal blank starts.
    #[verifier::spinoff_prover]
    fn end_vram_access(&mut self) -> (r: InterruptRequest)
        requires
            old(self).buffers_ok(),
            old(self).line_ok(),
            old(self).mode == Mode::VRAMAccess,
            old(self).cycles >= 172,
        ensures
            final(self).advanced_from(*old(self), r),
    {
        self.cycles = self.cycles - 172;
        self.mode = Mode::HorizontalBlank;
        let ghost before = *self;
        self.render_scan_line();
        proof {
            let o = *old(self);
            assert(GPU { line: o.line, ..o } == o);
            assert forall|x: int| 0 <= x < SCREEN_WIDTH implies line_shade(before, x) == shade_on_line(
                o,
                o.line as int,
                x,
            ) by {
                lemma_composed_frame(before, o, x, NUMBER_OF_OBJECTS as int);
            }
        }
        request_of(false, self.hblank_interrupt_enabled)
    }

    /// Ends the current mode, whose dots have all been spent, and enters the
    /// next one: one transition of the mode state machine.
    #[verifier::spinoff_prover]
    fn advance(&mut self) -> (r: InterruptRequest)
        requires
            old(self).buffers_ok(),
            old(self).line_ok(),
            old(self).cycles >= mode_duration(old(self).mode),
        ensures
            final(self).advanced_from(*old(self), r),
    {
        match self.mode {
            Mode::HorizontalBlank => self.end_hblank(),
            Mode::VerticalBlank => self.end_vblank_line(),
            Mode::OAMAccess => {
                self.cycles = self.cycles - 80;
                self.mode = Mode::VRAMAccess;
                InterruptRequest::NoInterrupt
            },
            Mode::VRAMAccess => self.end_vram_access(),
        }
    }

    /// `self` is the state after `o` advanced by `c` dots and asked for `r`:
    /// nothing happens while the LCD is off; otherwise the frame position moves
    /// on by `c`, VBlank is asked for exactly when the vertical blank start is
    /// passed, every line whose drawing point is passed is drawn and the rest
    /// of the canvas is kept, and LCDStat is asked for when the horizontal
    /// blank source is on and a horizontal blank starts, and only when some
    /// source is on.
    pub open spec fn stepped_from(&self, o: GPU, c: int, r: InterruptRequest) -> bool {
        &&& self.wf()
        &&& self.vram == o.vram
        &&& self.oam == o.oam
        &&& self.object_data == o.object_data
        &&& self.config_unchanged(&o)
        &&& (!o.lcd_display_enabled ==> *self == o && r == InterruptRequest::NoInterrupt)
        &&& (o.lcd_display_enabled ==> self.position() == (o.position() + c) % frame_dots())
        &&& (requests_lcdstat(r) ==> o.stat_sources_on())
        &&& (o.lcd_display_enabled ==> (requests_vblank(r) <==> passes(o.position(), c, vblank_start())))
        &&& (o.lcd_display_enabled ==> forall|l: int|
            0 <= l < SCREEN_HEIGHT && #[trigger] passes(o.position(), c, draw_point(l)) ==> row_drawn(
                self.canvas_buffer@,
                o,
                l,
            ))
        &&& (o.lcd_display_enabled && o.hblank_interrupt_enabled ==> forall|l: int|
            0 <= l < SCREEN_HEIGHT && #[trigger] passes(o.position(), c, draw_point(l)) ==> requests_lcdstat(r))
        &&& (o.lcd_display_enabled ==> forall|i: int|
            0 <= i < CANVAS_SIZE && !passes(o.position(), c, draw_point(i / 640)) ==> #[trigger] self.canvas_buffer@[i]
                == o.canvas_buffer@[i])
        &&& (o.lcd_display_enabled && o.oam_interrupt_enabled ==> forall|l: int|
            0 <= l < SCREEN_HEIGHT && #[trigger] passes(o.position(), c, oam_point(l)) ==> requests_lcdstat(r))
        &&& (o.lcd_display_enabled && o.vblank_interrupt_enabled && passes(o.position(), c, vblank_start())
            ==> requests_lcdstat(r))
        &&& (self.line != o.line ==> self.line_equals_line_check == (self.line == o.line_check))
        &&& (self.line != o.line && self.line == o.line_check && o.line_equals_line_check_interrupt_enabled
            ==> requests_lcdstat(r))
        &&& (self.line_equals_line_check == o.line_equals_line_check || self.line_equals_line_check == (self.line
            == o.line_check))
    }

    /// Advances the unit by `cycles` dots and returns the interrupts asked for
    /// on the way. Nothing happens while the LCD is off.
    #[verifier::spinoff_prover]
    #[verifier::rlimit(100)]
    pub fn step(&mut self, cycles: u8) -> (r: InterruptRequest)
        requires
            old(self).wf(),
        ensures
            final(self).stepped_from(*old(self), cycles as int, r),
    {
        if !self.lcd_display_enabled {
            return InterruptRequest::NoInterrupt;
        }
        let ghost p0 = self.position();
        let ghost mut changed = false;
        let ghost mut t: int = self.mode_base();
        let ghost mut q: int = 0;
        proof {
            self.lemma_position();
        }
        self.cycles = self.cycles + cycles as u16;
        let mut request = InterruptRequest::NoInterrupt;
        while self.cycles >= self.duration()
            invariant
                self.buffers_ok(),
                self.line_ok(),
                self.vram == old(self).vram,
                self.oam == old(self).oam,
                self.object_data == old(self).object_data,
                self.config_unchanged(old(self)),
                self.lcd_display_enabled,
                0 <= p0 < frame_dots(),
                self.cycles == p0 + cycles - t,
                t == q * frame_dots() + self.mode_base(),
                q == 0 || q == 1,
                t + mode_duration(self.mode) > p0,
                requests_vblank(request) <==> passes(p0, t - p0, vblank_start()),
                requests_lcdstat(request) ==> old(self).stat_sources_on(),
                self.canvas_buffer@.len() == CANVAS_SIZE,
                forall|l: int|
                    0 <= l < SCREEN_HEIGHT && #[trigger] passes(p0, t - p0, draw_point(l)) ==> row_drawn(
                        self.canvas_buffer@,
                        *old(self),
                        l,
                    ),
                forall|i: int|
                    0 <= i < CANVAS_SIZE && !passes(p0, t - p0, draw_point(i / 640)) ==> #[trigger] self.canvas_buffer@[i]
                        == old(self).canvas_buffer@[i],
                old(self).hblank_interrupt_enabled ==> forall|l: int|
                    0 <= l < SCREEN_HEIGHT && #[trigger] passes(p0, t - p0, draw_point(l)) ==> requests_lcdstat(request),
                old(self).oam_interrupt_enabled ==> forall|l: int|
                    0 <= l < SCREEN_HEIGHT && #[trigger] passes(p0, t - p0, oam_point(l)) ==> requests_lcdstat(request),
                old(self).vblank_interrupt_enabled && passes(p0, t - p0, vblank_start()) ==> requests_lcdstat(request),
                !changed ==> self.line == old(self).line && self.line_equals_line_check
                    == old(self).line_equals_line_check,
                changed ==> self.line_equals_line_check == (self.line == old(self).line_check),
                changed && self.line == old(self).line_check && old(self).line_equals_line_check_interrupt_enabled
                    ==> requests_lcdstat(request),
                requests_lcdstat(request) ==> stat_fires(*old(self), p0, t - p0),
            decreases self.cycles,
        {
            let ghost b = self.mode_base();
            let ghost d = mode_duration(self.mode);
            let ghost before = *self;
            proof {
                lemma_passes_advance(p0, t, b, q, d, d, vblank_start());
            }
            let r = self.advance();
            request.add(r);
            proof {
                assert forall|l: int| 0 <= l < SCREEN_HEIGHT implies #[trigger] passes(p0, t + d - p0, draw_point(l))
                    == (passes(p0, t - p0, draw_point(l)) || (before.mode == Mode::VRAMAccess && before.line
                    == l)) by {
                    lemma_draw_point_aligned(before, l);
                    lemma_passes_advance(p0, t, b, q, d, d, draw_point(l));
                }
                assert forall|l: int| 0 <= l < SCREEN_HEIGHT implies #[trigger] passes(p0, t + d - p0, oam_point(l))
                    == (passes(p0, t - p0, oam_point(l)) || b + d == oam_point(l)) by {
                    lemma_oam_point_aligned(before, l);
                    lemma_passes_advance(p0, t, b, q, d, d, oam_point(l));
                }
                if self.line != before.line {
                    changed = true;
                }
                if before.line_check < 154 {
                    lemma_line_point_aligned(before, before.line_check as int);
                    lemma_passes_advance(p0, t, b, q, d, d, line_point(before.line_check as int));
                }
                if requests_lcdstat(r) {
                    if before.mode == Mode::VRAMAccess && before.hblank_interrupt_enabled {
                        assert(passes(p0, t + d - p0, draw_point(before.line as int)));
                    } else if self.mode == Mode::OAMAccess && before.mode != Mode::OAMAccess && before.oam_interrupt_enabled {
                        let l = self.line as int;
                        lemma_oam_point_aligned(before, l);
                        assert(passes(p0, t + d - p0, oam_point(l)));
                    } else if self.mode == Mode::VerticalBlank && before.mode == Mode::HorizontalBlank && before.vblank_interrupt_enabled {
                    } else {
                        assert(self.line != before.line);
                        lemma_line_point_aligned(before, self.line as int);
                        assert(passes(p0, t + d - p0, line_point(before.line_check as int)));
                    }
                }
                if stat_fires(*old(self), p0, t - p0) {
                    if old(self).hblank_interrupt_enabled && exists|l: int| 0 <= l < SCREEN_HEIGHT && #[trigger] passes(p0, t - p0, draw_point(l)) {
                        let l = choose|l: int| 0 <= l < SCREEN_HEIGHT && #[trigger] passes(p0, t - p0, draw_point(l));
                        assert(passes(p0, t + d - p0, draw_point(l)));
                    }
                    if old(self).oam_interrupt_enabled && exists|l: int| 0 <= l < SCREEN_HEIGHT && #[trigger] passes(p0, t - p0, oam_point(l)) {
                        let l = choose|l: int| 0 <= l < SCREEN_HEIGHT && #[trigger] passes(p0, t - p0, oam_point(l));
                        assert(passes(p0, t + d - p0, oam_point(l)));
                    }
                }
                if before.mode == Mode::VRAMAccess {
                    let lv = before.line as int;
                    assert forall|x: int| 0 <= x < SCREEN_WIDTH implies shade_on_line(before, lv, x)
                        == shade_on_line(*old(self), lv, x) by {
                        lemma_composed_frame(
                            GPU { line: lv as u8, ..before },
                            GPU { line: lv as u8, ..*old(self) },
                            x,
                            NUMBER_OF_OBJECTS as int,
                        );
                    }
                    assert forall|l: int|
                        0 <= l < SCREEN_HEIGHT && #[trigger] passes(p0, t + d - p0, draw_point(l)) implies row_drawn(
                        self.canvas_buffer@,
                        *old(self),
                        l,
                    ) by {
                        if l != lv {
                            assert(passes(p0, t - p0, draw_point(l)));
                            assert forall|x: int, j: int| 0 <= x < SCREEN_WIDTH && 0 <= j < 4 implies
                                #[trigger] self.canvas_buffer@[(l * 160 + x) * 4 + j]
                                == before.canvas_buffer@[(l * 160 + x) * 4 + j] by {
                                assert((l * 160 + x) * 4 + j < lv * 640 || (l * 160 + x) * 4 + j >= lv * 640 + 640);
                            }
                        }
                    }
                    assert forall|i: int|
                        0 <= i < CANVAS_SIZE && !passes(p0, t + d - p0, draw_point(i / 640)) implies
                        #[trigger] self.canvas_buffer@[i] == old(self).canvas_buffer@[i] by {
                        assert(i / 640 != lv);
                        assert(i < lv * 640 || i >= lv * 640 + 640);
                    }
                }
                if b + d == frame_dots() {
                    q = q + 1;
                }
                t = t + d;
            }
        }
        proof {
            let b = self.mode_base();
            let d = mode_duration(self.mode);
            lemma_passes_advance(p0, t, b, q, d, self.cycles as int, vblank_start());
            assert forall|l: int| 0 <= l < SCREEN_HEIGHT implies #[trigger] passes(p0, cycles as int, draw_point(l))
                == passes(p0, t - p0, draw_point(l)) by {
                lemma_draw_point_aligned(*self, l);
                lemma_passes_advance(p0, t, b, q, d, self.cycles as int, draw_point(l));
            }
            assert forall|l: int| 0 <= l < SCREEN_HEIGHT implies #[trigger] passes(p0, cycles as int, oam_point(l))
                == passes(p0, t - p0, oam_point(l)) by {
                lemma_oam_point_aligned(*self, l);
                lemma_passes_advance(p0, t, b, q, d, self.cycles as int, oam_point(l));
            }
            if self.line_check < 154 {
                lemma_line_point_aligned(*self, self.line_check as int);
                lemma_passes_advance(p0, t, b, q, d, self.cycles as int, line_point(self.line_check as int));
            }
            if requests_lcdstat(request) {
                if old(self).hblank_interrupt_enabled && exists|l: int| 0 <= l < SCREEN_HEIGHT && #[trigger] passes(p0, t - p0, draw_point(l)) {
                    let l = choose|l: int| 0 <= l < SCREEN_HEIGHT && #[trigger] passes(p0, t - p0, draw_point(l));
                    assert(passes(p0, cycles as int, draw_point(l)));
                }
                if old(self).oam_interrupt_enabled && exists|l: int| 0 <= l < SCREEN_HEIGHT && #[trigger] passes(p0, t - p0, oam_point(l)) {
                    let l = choose|l: int| 0 <= l < SCREEN_HEIGHT && #[trigger] passes(p0, t - p0, oam_point(l));
                    assert(passes(p0, cycles as int, oam_point(l)));
                }
            }
            vstd::arithmetic::div_mod::lemma_fundamental_div_mod_converse(
                p0 + cycles,
                frame_dots(),
                q,
                self.position(),
            );
        }
        request
    }

    /// The LCD control register.
    pub open spec fn lcdc_byte(&self) -> int {
        128 * bit_value(self.lcd_display_enabled) + 64 * bit_value(self.window_tile_map == TileMap::X9C00) + 32
            * bit_value(self.window_display_enabled) + 16 * bit_value(
            self.background_and_window_data_select == BackgroundAndWindowDataSelect::X8000,
        ) + 8 * bit_value(self.background_tile_map == TileMap::X9C00) + 4 * bit_value(
            self.object_size == ObjectSize::OS8X16,
        ) + 2 * bit_value(self.object_display_enabled) + bit_value(self.background_display_enabled)
    }

    /// The status register: bit 7 set, the four interrupt enables in bits
    /// 6..3, the LY=LYC latch in bit 2 and the mode in bits 1..0.
    pub open spec fn stat_byte(&self) -> int {
        128 + 64 * bit_value(self.line_equals_line_check_interrupt_enabled) + 32 * bit_value(
            self.oam_interrupt_enabled,
        ) + 16 * bit_value(self.vblank_interrupt_enabled) + 8 * bit_value(self.hblank_interrupt_enabled) + 4
            * bit_value(self.line_equals_line_check) + mode_number(self.mode)
    }

    /// Reads the LCD control register.
    pub fn read_lcdc(&self) -> (r: u8)
        ensures
            r == self.lcdc_byte(),
    {
        let mut r: u8 = 0;
        if self.lcd_display_enabled {
            r = r + 128;
        }
        if self.window_tile_map == TileMap::X9C00 {
            r = r + 64;
        }
        if self.window_display_enabled {
            r = r + 32;
        }
        if self.background_and_window_data_select == BackgroundAndWindowDataSelect::X8000 {
            r = r + 16;
        }
        if self.background_tile_map == TileMap::X9C00 {
            r = r + 8;
        }
        if self.object_size == ObjectSize::OS8X16 {
            r = r + 4;
        }
        if self.object_display_enabled {
            r = r + 2;
        }
        if self.background_display_enabled {
            r = r + 1;
        }
        r
    }

    /// Writes the LCD control register. Turning the LCD off puts the unit back
    /// at the start of the frame: line 0, OAM access, no dots spent.
    #[verifier::rlimit(50)]
    #[verifier::spinoff_prover]
    pub fn write_lcdc(&mut self, v: u8)
        requires
            old(self).wf(),
        ensures
            final(self).wf(),
            final(self).lcdc_byte() == v,
            final(self).vram == old(self).vram,
            final(self).oam == old(self).oam,
            final(self).object_data == old(self).object_data,
            final(self).tile_set == old(self).tile_set,
            final(self).canvas_buffer == old(self).canvas_buffer,
            final(self).line_equals_line_check == old(self).line_equals_line_check,
            final(self).scroll_unchanged(old(self)),
            final(self).stat_interrupts_unchanged(old(self)),
            final(self).object_colors_unchanged(old(self)),
            bit_of(v as int, 7) ==> final(self).position() == old(self).position(),
            !bit_of(v as int, 7) ==> final(self).line == 0 && final(self).mode == Mode::OAMAccess
                && final(self).cycles == 0 && final(self).position() == 0,
    {
        self.lcd_display_enabled = v / 128 == 1;
        self.window_tile_map = if (v / 64) % 2 == 1 {
            TileMap::X9C00
        } else {
            TileMap::X9800
        };
        self.window_display_enabled = (v / 32) % 2 == 1;
        self.background_and_window_data_select = if (v / 16) % 2 == 1 {
            BackgroundAndWindowDataSelect::X8000
        } else {
            BackgroundAndWindowDataSelect::X8800
        };
        self.background_tile_map = if (v / 8) % 2 == 1 {
            TileMap::X9C00
        } else {
            TileMap::X9800
        };
        self.object_size = if (v / 4) % 2 == 1 {
            ObjectSize::OS8X16
        } else {
            ObjectSize::OS8X8
        };
        self.object_display_enabled = (v / 2) % 2 == 1;
        self.background_display_enabled = v % 2 == 1;
        proof {
            lemma_byte_bits(v);
        }
        if !self.lcd_display_enabled {
            self.line = 0;
            self.mode = Mode::OAMAccess;
            self.cycles = 0;
        }
    }

    /// Reads the status register.
    pub fn read_stat(&self) -> (r: u8)
        ensures
            r == self.stat_byte(),
    {
        let mut r: u8 = 128 + self.mode.to_byte();
        if self.line_equals_line_check_interrupt_enabled {
            r = r + 64;
        }
        if self.oam_interrupt_enabled {
            r = r + 32;
        }
        if self.vblank_interrupt_enabled {
            r = r + 16;
        }
        if self.hblank_interrupt_enabled {
            r = r + 8;
        }
        if self.line_equals_line_check {
            r = r + 4;
        }
        r
    }

    /// Writes the four interrupt enables of the status register: bits 6..3.
    pub fn write_stat(&mut self, v: u8)
        ensures
            final(self).line_equals_line_check_interrupt_enabled == bit_of(v as int, 6),
            final(self).oam_interrupt_enabled == bit_of(v as int, 5),
            final(self).vblank_interrupt_enabled == bit_of(v as int, 4),
            final(self).hblank_interrupt_enabled == bit_of(v as int, 3),
            final(self).state_unchanged(old(self)),
            final(self).lcdc_unchanged(old(self)),
            final(self).object_colors_unchanged(old(self)),
            final(self).scroll_unchanged(old(self)),
    {
        self.line_equals_line_check_interrupt_enabled = (v / 64) % 2 == 1;
        self.oam_interrupt_enabled = (v / 32) % 2 == 1;
        self.vblank_interrupt_enabled = (v / 16) % 2 == 1;
        self.hblank_interrupt_enabled = (v / 8) % 2 == 1;
    }

    /// Writes object palette 0; bits 1..0 are ignored, as value 0 of an
    /// object is transparent.
    #[verifier::spinoff_prover]
    pub fn write_object_palette_0(&mut self, v: u8)
        ensures
            final(self).obj_0_color_1 == color_of((v as int / 4) % 4),
            final(self).obj_0_color_2 == color_of((v as int / 16) % 4),
            final(self).obj_0_color_3 == color_of(v as int / 64),
            final(self).obj_1_color_1 == old(self).obj_1_color_1,
            final(self).obj_1_color_2 == old(self).obj_1_color_2,
            final(self).obj_1_color_3 == old(self).obj_1_color_3,
            final(self).state_unchanged(old(self)),
            final(self).lcdc_unchanged(old(self)),
            final(self).stat_interrupts_unchanged(old(self)),
            final(self).scroll_unchanged(old(self)),
    {
        let c1 = Color::from_index((v / 4) % 4);
        let c2 = Color::from_index((v / 16) % 4);
        let c3 = Color::from_index(v / 64);
        self.obj_0_color_1 = c1;
        self.obj_0_color_2 = c2;
        self.obj_0_color_3 = c3;
    }

    /// Writes object palette 1, as object palette 0 is written.
    #[verifier::spinoff_prover]
    pub fn write_object_palette_1(&mut self, v: u8)
        ensures
            final(self).obj_1_color_1 == color_of((v as int / 4) % 4),
            final(self).obj_1_color_2 == color_of((v as int / 16) % 4),
            final(self).obj_1_color_3 == color_of(v as int / 64),
            final(self).obj_0_color_1 == old(self).obj_0_color_1,
            final(self).obj_0_color_2 == old(self).obj_0_color_2,
            final(self).obj_0_color_3 == old(self).obj_0_color_3,
            final(self).state_unchanged(old(self)),
            final(self).lcdc_unchanged(old(self)),
            final(self).stat_interrupts_unchanged(old(self)),
            final(self).scroll_unchanged(old(self)),
    {
        let c1 = Color::from_index((v / 4) % 4);
        let c2 = Color::from_index((v / 16) % 4);
        let c3 = Color::from_index(v / 64);
        self.obj_1_color_1 = c1;
        self.obj_1_color_2 = c2;
        self.obj_1_color_3 = c3;
    }

    /// Reads an object palette register, with bits 1..0 clear.
    pub fn read_object_palette(&self, one: bool) -> (r: u8)
        ensures
            r == self.object_palette_byte(one),
            !one ==> palette_of(r as int) == BackgroundColors(
                Color::White,
                self.obj_0_color_1,
                self.obj_0_color_2,
                self.obj_0_color_3,
            ),
            one ==> palette_of(r as int) == BackgroundColors(
                Color::White,
                self.obj_1_color_1,
                self.obj_1_color_2,
                self.obj_1_color_3,
            ),
    {
        let p = if one {
            BackgroundColors(Color::White, self.obj_1_color_1, self.obj_1_color_2, self.obj_1_color_3)
        } else {
            BackgroundColors(Color::White, self.obj_0_color_1, self.obj_0_color_2, self.obj_0_color_3)
        };
        p.to_byte()
    }

    /// An object palette register: the shades of values 1..3 in bits 7..2.
    pub open spec fn object_palette_byte(&self, one: bool) -> int {
        if one {
            4 * color_index(self.obj_1_color_1) + 16 * color_index(self.obj_1_color_2) + 64 * color_index(
                self.obj_1_color_3,
            )
        } else {
            4 * color_index(self.obj_0_color_1) + 16 * color_index(self.obj_0_color_2) + 64 * color_index(
                self.obj_0_color_3,
            )
        }
    }

    pub open spec fn stat_interrupts_unchanged(&self, o: &GPU) -> bool {
        &&& self.line_equals_line_check_interrupt_enabled == o.line_equals_line_check_interrupt_enabled
        &&& self.oam_interrupt_enabled == o.oam_interrupt_enabled
        &&& self.vblank_interrupt_enabled == o.vblank_interrupt_enabled
        &&& self.hblank_interrupt_enabled == o.hblank_interrupt_enabled
    }

    pub open spec fn object_colors_unchanged(&self, o: &GPU) -> bool {
        &&& self.obj_0_color_1 == o.obj_0_color_1
        &&& self.obj_0_color_2 == o.obj_0_color_2
        &&& self.obj_0_color_3 == o.obj_0_color_3
        &&& self.obj_1_color_1 == o.obj_1_color_1
        &&& self.obj_1_color_2 == o.obj_1_color_2
        &&& self.obj_1_color_3 == o.obj_1_color_3
    }

    /// What a write of `v` to the port `a` did to the unit, from the state
    /// `o`: the register behind the port took the value, and the rest stayed.
    pub open spec fn register_written(&self, o: &GPU, a: int, v: u8) -> bool {
        &&& (a == 0xFF40 ==> self.lcdc_byte() == v && (bit_of(v as int, 7) ==> self.position() == o.position())
            && (!bit_of(v as int, 7) ==> self.line == 0 && self.mode == Mode::OAMAccess && self.cycles == 0
            && self.position() == 0))
        &&& (a != 0xFF40 ==> self.lcdc_unchanged(o) && self.line == o.line && self.mode == o.mode
            && self.cycles == o.cycles)
        &&& (a == 0xFF41 ==> self.line_equals_line_check_interrupt_enabled == bit_of(v as int, 6)
            && self.oam_interrupt_enabled == bit_of(v as int, 5) && self.vblank_interrupt_enabled == bit_of(
            v as int,
            4,
        ) && self.hblank_interrupt_enabled == bit_of(v as int, 3))
        &&& (a != 0xFF41 ==> self.stat_interrupts_unchanged(o))
        &&& self.line_equals_line_check == o.line_equals_line_check
        &&& self.viewport_y_offset == (if a == 0xFF42 { v } else { o.viewport_y_offset })
        &&& self.viewport_x_offset == (if a == 0xFF43 { v } else { o.viewport_x_offset })
        &&& self.line_check == (if a == 0xFF45 { v } else { o.line_check })
        &&& self.background_colors == (if a == 0xFF47 {
            palette_of(v as int)
        } else {
            o.background_colors
        })
        &&& (a == 0xFF48 ==> self.obj_0_color_1 == color_of((v as int / 4) % 4) && self.obj_0_color_2
            == color_of((v as int / 16) % 4) && self.obj_0_color_3 == color_of(v as int / 64))
        &&& (a != 0xFF48 ==> self.obj_0_color_1 == o.obj_0_color_1 && self.obj_0_color_2 == o.obj_0_color_2
            && self.obj_0_color_3 == o.obj_0_color_3)
        &&& (a == 0xFF49 ==> self.obj_1_color_1 == color_of((v as int / 4) % 4) && self.obj_1_color_2
            == color_of((v as int / 16) % 4) && self.obj_1_color_3 == color_of(v as int / 64))
        &&& (a != 0xFF49 ==> self.obj_1_color_1 == o.obj_1_color_1 && self.obj_1_color_2 == o.obj_1_color_2
            && self.obj_1_color_3 == o.obj_1_color_3)
        &&& self.window.y == (if a == 0xFF4A { v } else { o.window.y })
        &&& self.window.x == (if a == 0xFF4B { v } else { o.window.x })
    }

    /// Writes one of the unit's I/O ports, 0xFF40 to 0xFF4B but for the DMA
    /// port; LY (0xFF44) is read-only.
    #[verifier::spinoff_prover]
    pub fn write_register(&mut self, a: usize, v: u8)
        requires
            old(self).wf(),
            0xFF40 <= a <= 0xFF4B,
            a != 0xFF46,
        ensures
            final(self).wf(),
            final(self).register_written(old(self), a as int, v),
            final(self).vram == old(self).vram,
            final(self).oam == old(self).oam,
            final(self).object_data == old(self).object_data,
            final(self).canvas_buffer == old(self).canvas_buffer,
    {
        if a == 0xFF40 {
            self.write_lcdc(v);
        } else if a == 0xFF41 {
            self.write_stat(v);
        } else if a == 0xFF47 || a == 0xFF48 || a == 0xFF49 {
            self.write_palette_register(a, v);
        } else {
            self.write_position_register(a, v);
        }
    }

    /// Writes one of the palette ports.
    #[verifier::spinoff_prover]
    fn write_palette_register(&mut self, a: usize, v: u8)
        requires
            old(self).wf(),
            a == 0xFF47 || a == 0xFF48 || a == 0xFF49,
        ensures
            final(self).wf(),
            final(self).register_written(old(self), a as int, v),
            final(self).vram == old(self).vram,
            final(self).oam == old(self).oam,
            final(self).object_data == old(self).object_data,
            final(self).canvas_buffer == old(self).canvas_buffer,
    {
        if a == 0xFF47 {
            self.background_colors = BackgroundColors::from_byte(v);
        } else if a == 0xFF48 {
            self.write_object_palette_0(v);
        } else {
            self.write_object_palette_1(v);
        }
    }

    /// Writes one of the scroll, compare and window ports; LY is read-only.
    #[verifier::spinoff_prover]
    fn write_position_register(&mut self, a: usize, v: u8)
        requires
            old(self).wf(),
            0xFF42 <= a <= 0xFF4B,
            a != 0xFF46 && a != 0xFF47 && a != 0xFF48 && a != 0xFF49,
        ensures
            final(self).wf(),
            final(self).register_written(old(self), a as int, v),
            final(self).vram == old(self).vram,
            final(self).oam == old(self).oam,
            final(self).object_data == old(self).object_data,
            final(self).canvas_buffer == old(self).canvas_buffer,
    {
        if a == 0xFF42 {
            self.viewport_y_offset = v;
        } else if a == 0xFF43 {
            self.viewport_x_offset = v;
        } else if a == 0xFF45 {
            self.line_check = v;
        } else if a == 0xFF4A {
            self.window.y = v;
        } else if a == 0xFF4B {
            self.window.x = v;
        }
    }

    /// The fields other than the canvas are those of `o`.
    pub open spec fn same_but_canvas(&self, o: GPU) -> bool {
        &&& self.vram == o.vram
        &&& self.oam == o.oam
        &&& self.object_data == o.object_data
        &&& self.tile_set == o.tile_set
        &&& self.cycles == o.cycles
        &&& self.registers_unchanged(&o)
    }

    /// The shade of a non-zero pixel value of object `o`.
    fn object_shade_of(&self, o: &ObjectData, v: u8) -> (r: u8)
        ensures
            r == object_shade(*self, *o, v as int),
    {
        let c = match o.palette {
            ObjectPalette::Zero => if v == 1 {
                self.obj_0_color_1
            } else if v == 2 {
                self.obj_0_color_2
            } else {
                self.obj_0_color_3
            },
            ObjectPalette::One => if v == 1 {
                self.obj_1_color_1
            } else if v == 2 {
                self.obj_1_color_2
            } else {
                self.obj_1_color_3
            },
        };
        c.value()
    }

    /// The value of pixel (`px`, `py`) of the plane that tile map `m` lays out.
    fn map_pixel_value(&self, m: TileMap, px: usize, py: usize) -> (r: u8)
        requires
            self.buffers_ok(),
            px < 256,
            py < 256,
        ensures
            r == map_pixel(*self, m, px as int, py as int),
            r < 4,
    {
        let map: usize = match m {
            TileMap::X9800 => 0x1800,
            TileMap::X9C00 => 0x1C00,
        };
        let n = self.vram[map + (py / 8) * 32 + px / 8];
        let t: usize = match self.background_and_window_data_select {
            BackgroundAndWindowDataSelect::X8000 => n as usize,
            BackgroundAndWindowDataSelect::X8800 => if n >= 128 {
                n as usize
            } else {
                256 + n as usize
            },
        };
        proof {
            self.lemma_tile_value(t as int, (py % 8) as int, (px % 8) as int);
        }
        self.tile_set[64 * t + 8 * (py % 8) + px % 8]
    }

    /// The background and window values and shades of the current line.
    #[verifier::spinoff_prover]
    fn background_line(&self) -> (r: (Vec<u8>, Vec<u8>))
        requires
            self.buffers_ok(),
            self.line < 144,
        ensures
            r.0@.len() == SCREEN_WIDTH,
            r.1@.len() == SCREEN_WIDTH,
            forall|x: int| 0 <= x < SCREEN_WIDTH ==> #[trigger] r.0@[x] == background_value(*self, x),
            forall|x: int| 0 <= x < SCREEN_WIDTH ==> #[trigger] r.1@[x] == background_shade(*self, x),
    {
        let mut values: Vec<u8> = Vec::new();
        let mut shades: Vec<u8> = Vec::new();
        let mut x: usize = 0;
        while x < SCREEN_WIDTH
            invariant
                x <= SCREEN_WIDTH,
                self.buffers_ok(),
                values@.len() == x,
                shades@.len() == x,
                forall|i: int| 0 <= i < x ==> #[trigger] values@[i] == background_value(*self, i),
                forall|i: int| 0 <= i < x ==> #[trigger] shades@[i] == background_shade(*self, i),
            decreases SCREEN_WIDTH - x,
        {
            let window = self.window_display_enabled && self.window.y <= self.line && self.window.x <= 166
                && self.window.x as usize <= x + 7;
            if window {
                let v = self.map_pixel_value(
                    self.window_tile_map,
                    x + 7 - self.window.x as usize,
                    (self.line - self.window.y) as usize,
                );
                values.push(v);
                shades.push(self.background_colors.shade_of(v));
            } else if self.background_display_enabled {
                let v = self.map_pixel_value(
                    self.background_tile_map,
                    (self.viewport_x_offset as usize + x) % 256,
                    (self.line as usize + self.viewport_y_offset as usize) % 256,
                );
                values.push(v);
                shades.push(self.background_colors.shade_of(v));
            } else {
                values.push(0);
                shades.push(255);
            }
            x = x + 1;
        }
        (values, shades)
    }

    /// Draws object `k` over the shades of the current line.
    #[verifier::spinoff_prover]
    fn draw_object(&self, k: usize, values: &Vec<u8>, shades: &mut Vec<u8>)
        requires
            self.buffers_ok(),
            self.line < 144,
            self.object_display_enabled,
            k < NUMBER_OF_OBJECTS,
            values@.len() == SCREEN_WIDTH,
            old(shades)@.len() == SCREEN_WIDTH,
            forall|x: int| 0 <= x < SCREEN_WIDTH ==> #[trigger] values@[x] == background_value(*self, x),
            forall|x: int| 0 <= x < SCREEN_WIDTH ==> #[trigger] old(shades)@[x] == composed(*self, x, k as int),
        ensures
            final(shades)@.len() == SCREEN_WIDTH,
            forall|x: int| 0 <= x < SCREEN_WIDTH ==> #[trigger] final(shades)@[x] == composed(*self, x, k + 1),
    {
        let o = self.object_data[k];
        let ghost g = *self;
        assert(o == object_of(g.oam@, k as int));
        let height: i16 = if self.object_size == ObjectSize::OS8X16 {
            16
        } else {
            8
        };
        let line = self.line as i16;
        if !(o.y <= line && line < o.y + height) {
            assert forall|x: int| 0 <= x < SCREEN_WIDTH implies #[trigger] shades@[x] == composed(g, x, k + 1) by {
                assert(object_pixel(g, o, x) == 0);
            }
            return;
        }
        let row: i16 = line - o.y;
        let r: i16 = if o.yflip {
            height - 1 - row
        } else {
            row
        };
        let ru: usize = r as usize;
        let t: usize = o.tile as usize + ru / 8;
        let r8: usize = ru % 8;
        let mut i: i16 = 0;
        while i < 8
            invariant
                0 <= i <= 8,
                *self == g,
                g.buffers_ok(),
                o == g.object_data@[k as int],
                -8 <= o.x <= 247,
                g.object_display_enabled,
                0 <= row < height,
                height == object_height(g),
                r == (if o.yflip { height - 1 - row } else { row as int }),
                line == g.line,
                row == line - o.y,
                ru == r,
                t == o.tile + ru / 8,
                r8 == ru % 8,
                t < 384,
                values@.len() == SCREEN_WIDTH,
                shades@.len() == SCREEN_WIDTH,
                forall|x: int| 0 <= x < SCREEN_WIDTH ==> #[trigger] values@[x] == background_value(g, x),
                forall|x: int| 0 <= x < SCREEN_WIDTH ==> #[trigger] shades@[x] == (if o.x <= x < o.x + i {
                    composed(g, x, k + 1)
                } else {
                    composed(g, x, k as int)
                }),
            decreases 8 - i,
        {
            let col: i16 = o.x + i;
            if 0 <= col && col < 160 {
                let c: usize = if o.xflip {
                    (7 - i) as usize
                } else {
                    i as usize
                };
                let v = self.tile_set[64 * t + 8 * r8 + c];
                proof {
                    self.lemma_tile_value(t as int, r8 as int, c as int);
                    assert(object_pixel(g, o, col as int) == v);
                }
                if v != 0 && (o.priority || values[col as usize] == 0) {
                    let sh = self.object_shade_of(&o, v);
                    shades.set(col as usize, sh);
                    assert(object_draws(g, o, col as int));
                } else {
                    assert(!object_draws(g, o, col as int));
                }
            }
            i = i + 1;
        }
        assert forall|x: int| 0 <= x < SCREEN_WIDTH implies #[trigger] shades@[x] == composed(g, x, k + 1) by {
            if !(o.x <= x < o.x + 8) {
                assert(object_pixel(g, o, x) == 0);
            }
        }
    }

    /// Draws the current line into the canvas: the background, then each
    /// object in turn over it, as BGRA pixels with opaque alpha.
    #[verifier::spinoff_prover]
    fn render_scan_line(&mut self)
        requires
            old(self).buffers_ok(),
            old(self).line < 144,
        ensures
            final(self).buffers_ok(),
            final(self).same_but_canvas(*old(self)),
            forall|x: int, j: int| 0 <= x < SCREEN_WIDTH && 0 <= j < 3 ==>
                #[trigger] final(self).canvas_buffer@[(old(self).line * 160 + x) * 4 + j] == line_shade(*old(self), x),
            forall|x: int| 0 <= x < SCREEN_WIDTH ==>
                #[trigger] final(self).canvas_buffer@[(old(self).line * 160 + x) * 4 + 3] == 255,
            forall|i: int| 0 <= i < CANVAS_SIZE && (i < old(self).line * 640 || i >= old(self).line * 640 + 640) ==>
                #[trigger] final(self).canvas_buffer@[i] == old(self).canvas_buffer@[i],
    {
        let ghost g = *self;
        let (values, mut shades) = self.background_line();
        let mut k: usize = 0;
        while k < NUMBER_OF_OBJECTS
            invariant
                k <= NUMBER_OF_OBJECTS,
                *self == g,
                g.buffers_ok(),
                g.line < 144,
                values@.len() == SCREEN_WIDTH,
                shades@.len() == SCREEN_WIDTH,
                forall|x: int| 0 <= x < SCREEN_WIDTH ==> #[trigger] values@[x] == background_value(g, x),
                forall|x: int| 0 <= x < SCREEN_WIDTH ==> #[trigger] shades@[x] == composed(g, x, k as int),
            decreases NUMBER_OF_OBJECTS - k,
        {
            if self.object_display_enabled {
                self.draw_object(k, &values, &mut shades);
            } else {
                assert forall|x: int| 0 <= x < SCREEN_WIDTH implies #[trigger] shades@[x] == composed(g, x, k + 1) by {
                }
            }
            k = k + 1;
        }
        let base: usize = self.line as usize * 640;
        let mut x: usize = 0;
        while x < SCREEN_WIDTH
            invariant
                x <= SCREEN_WIDTH,
                base == g.line * 640,
                g.line < 144,
                self.same_but_canvas(g),
                self.buffers_ok(),
                shades@.len() == SCREEN_WIDTH,
                forall|i: int| 0 <= i < SCREEN_WIDTH ==> #[trigger] shades@[i] == line_shade(g, i),
                forall|xx: int, j: int| 0 <= xx < x && 0 <= j < 3 ==>
                    #[trigger] self.canvas_buffer@[base + xx * 4 + j] == line_shade(g, xx),
                forall|xx: int| 0 <= xx < x ==> #[trigger] self.canvas_buffer@[base + xx * 4 + 3] == 255,
                forall|i: int| 0 <= i < CANVAS_SIZE && (i < base || i >= base + 4 * x) ==>
                    #[trigger] self.canvas_buffer@[i] == g.canvas_buffer@[i],
            decreases SCREEN_WIDTH - x,
        {
            let sh = shades[x];
            self.canvas_buffer.set(base + 4 * x, sh);
            self.canvas_buffer.set(base + 4 * x + 1, sh);
            self.canvas_buffer.set(base + 4 * x + 2, sh);
            self.canvas_buffer.set(base + 4 * x + 3, 255);
            x = x + 1;
        }
        assert forall|x: int, j: int| 0 <= x < SCREEN_WIDTH && 0 <= j < 3 implies
            #[trigger] self.canvas_buffer@[(g.line * 160 + x) * 4 + j] == line_shade(g, x) by {
            assert((g.line * 160 + x) * 4 + j == base + x * 4 + j);
        }
        assert forall|x: int| 0 <= x < SCREEN_WIDTH implies
            #[trigger] self.canvas_buffer@[(g.line * 160 + x) * 4 + 3] == 255 by {
            assert((g.line * 160 + x) * 4 + 3 == base + x * 4 + 3);
        }
    }

    /// The fields other than the buffers and the timing are those of `o`.
    pub open spec fn registers_unchanged(&self, o: &GPU) -> bool {
        &&& self.config_unchanged(o)
        &&& self.line == o.line
        &&& self.mode == o.mode
        &&& self.line_equals_line_check == o.line_equals_line_check
    }

    /// The fields set through the I/O ports are those of `o`.
    pub open spec fn config_unchanged(&self, o: &GPU) -> bool {
        &&& self.lcdc_unchanged(o)
        &&& self.stat_interrupts_unchanged(o)
        &&& self.object_colors_unchanged(o)
        &&& self.scroll_unchanged(o)
    }

    /// The fields set through the LCD control register are those of `o`.
    pub open spec fn lcdc_unchanged(&self, o: &GPU) -> bool {
        &&& self.background_display_enabled == o.background_display_enabled
        &&& self.object_display_enabled == o.object_display_enabled
        &&& self.background_tile_map == o.background_tile_map
        &&& self.object_size == o.object_size
        &&& self.lcd_display_enabled == o.lcd_display_enabled
        &&& self.window_display_enabled == o.window_display_enabled
        &&& self.window_tile_map == o.window_tile_map
        &&& self.background_and_window_data_select == o.background_and_window_data_select
    }

    /// The scroll, window, compare and background palette registers are those of `o`.
    pub open spec fn scroll_unchanged(&self, o: &GPU) -> bool {
        &&& self.viewport_x_offset == o.viewport_x_offset
        &&& self.viewport_y_offset == o.viewport_y_offset
        &&& self.background_colors == o.background_colors
        &&& self.line_check == o.line_check
        &&& self.window == o.window
    }

    /// Everything but the registers of the I/O ports is that of `o`.
    pub open spec fn state_unchanged(&self, o: &GPU) -> bool {
        &&& self.vram == o.vram
        &&& self.oam == o.oam
        &&& self.object_data == o.object_data
        &&& self.tile_set == o.tile_set
        &&& self.canvas_buffer == o.canvas_buffer
        &&& self.cycles == o.cycles
        &&& self.line == o.line
        &&& self.mode == o.mode
        &&& self.line_equals_line_check == o.line_equals_line_check
    }
}

} // verus!
