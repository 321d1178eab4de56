//! Tile geometry and the mapping from pixel coordinates to bits of the
//! packed framebuffer.

use vstd::prelude::*;
use vstd::arithmetic::div_mod::{lemma_fundamental_div_mod, lemma_fundamental_div_mod_converse};
use embedded_graphics_core::geometry::{Point, Size};
use embedded_graphics_core::primitives::Rectangle;

verus! {

/// Width of one physical panel, in pixels.
pub const PANEL_WIDTH: usize = 32;

/// Height of one physical panel, in pixels.
pub const PANEL_HEIGHT: usize = 16;

/// Most panels side by side: the display stays at most `i32::MAX` pixels wide.
pub const MAX_PANELS_ACROSS: usize = 67108863;

/// Most panels stacked: the display stays at most `i32::MAX` pixels high.
pub const MAX_PANELS_DOWN: usize = 134217727;

/// The mathematical model of a tile grid: panels across and panels down.
pub struct Tiling {
    pub across: nat,
    pub down: nat,
}

impl Tiling {
    /// A grid of at least one panel whose pixel and byte counts fit the
    /// machine's integers.
    pub open spec fn valid(self) -> bool {
        &&& 1 <= self.across <= MAX_PANELS_ACROSS
        &&& 1 <= self.down <= MAX_PANELS_DOWN
        &&& 64 * self.across * self.down <= usize::MAX
    }

    pub open spec fn width(self) -> nat {
        (PANEL_WIDTH as nat) * self.across
    }

    pub open spec fn height(self) -> nat {
        (PANEL_HEIGHT as nat) * self.down
    }

    /// Bytes in one pixel row of the logical display: a panel row is 4 bytes.
    pub open spec fn row_width_bytes(self) -> nat {
        4 * self.across
    }

    /// Bytes in one row of the framebuffer, where all panels stand in one line.
    pub open spec fn stride(self) -> nat {
        self.row_width_bytes() * self.down
    }

    /// Bytes in the framebuffer: one row of `stride` bytes per panel row.
    pub open spec fn frame_len(self) -> nat {
        16 * self.stride()
    }

    pub open spec fn on_panel(self, x: int, y: int) -> bool {
        0 <= x < self.width() && 0 <= y < self.height()
    }

    /// Which panel of the grid holds the pixel, counted row by row
    /// (`width / 32` panels to a row).
    pub open spec fn panel_index(self, x: int, y: int) -> int {
        x / 32 + self.across * (y / 16)
    }

    /// Column of the pixel once all panels are chained into one line.
    pub open spec fn local_column(self, x: int, y: int) -> int {
        x % 32 + self.panel_index(x, y) * 32
    }

    /// Row of the pixel within its panel.
    pub open spec fn local_row(self, y: int) -> int {
        y % 16
    }

    /// The byte of the framebuffer that holds the pixel.
    pub open spec fn bitmap_index(self, x: int, y: int) -> int {
        self.local_column(x, y) / 8 + self.local_row(y) * self.stride()
    }

    /// The bit of that byte, counted from the least significant one.
    pub open spec fn bit_number(self, x: int, y: int) -> int {
        7 - self.local_column(x, y) % 8
    }

    /// The pixel that a byte and bit of the framebuffer belong to.
    pub open spec fn pixel_of(self, byte: int, bit: int) -> (int, int) {
        let stride = self.stride() as int;
        let across = self.across as int;
        let row = byte / stride;
        let column = (byte % stride) * 8 + (7 - bit);
        let panel = column / 32;
        ((panel % across) * 32 + column % 32, (panel / across) * 16 + row)
    }
}

/// The mask of pixel column `x` within its byte.
pub open spec fn pixel_mask(x: int) -> u8 {
    1u8 << ((7 - x % 8) as u8)
}

/// The grid of panels that a display is made of, fixed at construction.
#[derive(Clone, Copy, Debug, PartialEq, Eq)]
pub struct Geometry {
    panels_across: usize,
    panels_down: usize,
}

impl View for Geometry {
    type V = Tiling;

    closed spec fn view(&self) -> Tiling {
        Tiling { across: self.panels_across as nat, down: self.panels_down as nat }
    }
}

/// Relies on embedded_graphics_core's `Rectangle::contains`: a rectangle at
/// the origin holds exactly the points with `0 <= x < width` and
/// `0 <= y < height`, when both sides are positive and fit an `i32`.
#[verifier::external_body]
fn origin_rectangle_contains(width: u32, height: u32, x: i32, y: i32) -> (r: bool)
    requires
        1 <= width <= i32::MAX,
        1 <= height <= i32::MAX,
    ensures
        r == (0 <= x < width && 0 <= y < height),
{
    Rectangle::new(Point::zero(), Size::new(width, height)).contains(Point::new(x, y))
}

impl Geometry {
    pub open spec fn wf(&self) -> bool {
        self@.valid()
    }

    /// A grid of `across` by `down` panels; `None` where that is no valid grid.
    pub fn new(across: usize, down: usize) -> (r: Option<Geometry>)
        ensures
            r is Some <==> (Tiling { across: across as nat, down: down as nat }).valid(),
            r matches Some(g) ==> g@ == (Tiling { across: across as nat, down: down as nat }),
    {
        if across == 0 || down == 0 || across > MAX_PANELS_ACROSS || down > MAX_PANELS_DOWN {
            return None;
        }
        if across > usize::MAX / 64 / down {
            assert(across * down > (usize::MAX / 64 / down) * down) by (nonlinear_arith)
                requires across > usize::MAX / 64 / down, down >= 1;
            assert(64 * across * down > usize::MAX) by (nonlinear_arith)
                requires across > usize::MAX / 64 / down, down >= 1;
            return None;
        }
        assert(64 * across * down <= usize::MAX) by (nonlinear_arith)
            requires across <= usize::MAX / 64 / down, down >= 1;
        Some(Geometry { panels_across: across, panels_down: down })
    }

    /// Width of the display in pixels.
    pub fn width(&self) -> (r: u32)
        requires
            self.wf(),
        ensures
            r == self@.width(),
    {
        (self.panels_across * PANEL_WIDTH) as u32
    }

    /// Height of the display in pixels.
    pub fn height(&self) -> (r: u32)
        requires
            self.wf(),
        ensures
            r == self@.height(),
    {
        (self.panels_down * PANEL_HEIGHT) as u32
    }

    /// Bytes in one pixel row: the width in pixels divided by 8, rounded up.
    pub fn row_width_bytes(&self) -> (r: usize)
        requires
            self.wf(),
        ensures
            r == self@.row_width_bytes(),
    {
        let width = self.panels_across * PANEL_WIDTH;
        proof {
            lemma_fundamental_div_mod_converse(width as int, 8, 4 * self.panels_across, 0);
        }
        if width % 8 == 0 {
            width / 8
        } else {
            width / 8 + 1
        }
    }

    /// Bytes in one framebuffer row, which holds that pixel row of every panel.
    pub fn unified_width_bytes(&self) -> (r: usize)
        requires
            self.wf(),
        ensures
            r == self@.stride(),
    {
        let row = self.row_width_bytes();
        assert(row * self.panels_down <= usize::MAX) by (nonlinear_arith)
            requires
                row == 4 * self.panels_across,
                64 * self.panels_across * self.panels_down <= usize::MAX,
        ;
        row * self.panels_down
    }

    /// Bytes in the whole framebuffer.
    pub fn bitmap_len(&self) -> (r: usize)
        requires
            self.wf(),
        ensures
            r == self@.frame_len(),
    {
        let stride = self.unified_width_bytes();
        assert(16 * stride <= usize::MAX) by (nonlinear_arith)
            requires
                stride == 4 * self.panels_across * self.panels_down,
                64 * self.panels_across * self.panels_down <= usize::MAX,
        ;
        16 * stride
    }

    /// Whether the point lies on the display.
    pub fn contains(&self, x: i32, y: i32) -> (r: bool)
        requires
            self.wf(),
        ensures
            r == self@.on_panel(x as int, y as int),
    {
        origin_rectangle_contains(self.width(), self.height(), x, y)
    }

    /// The byte of the framebuffer that holds pixel `(x, y)`.
    pub fn pixel_to_bitmap_index(&self, x: usize, y: usize) -> (r: usize)
        requires
            self.wf(),
            self@.on_panel(x as int, y as int),
        ensures
            r == self@.bitmap_index(x as int, y as int),
            r < self@.frame_len(),
    {
        proof {
            lemma_addressing_in_range(self@, x as int, y as int);
        }
        assert(self.panels_across * (y / PANEL_HEIGHT) < self.panels_across * self.panels_down
            <= usize::MAX) by (nonlinear_arith)
            requires
                y / 16 < self.panels_down,
                self.panels_across >= 1,
                64 * self.panels_across * self.panels_down <= usize::MAX,
        ;
        let panel = x / PANEL_WIDTH + self.panels_across * (y / PANEL_HEIGHT);
        assert(panel * 32 < 32 * self.panels_across * self.panels_down <= usize::MAX)
            by (nonlinear_arith)
            requires
                panel < self.panels_across * self.panels_down,
                64 * self.panels_across * self.panels_down <= usize::MAX,
        ;
        let column = (x % PANEL_WIDTH) + panel * PANEL_WIDTH;
        let row = y % PANEL_HEIGHT;
        let stride = self.unified_width_bytes();
        assert(stride > 0) by (nonlinear_arith)
            requires stride == 4 * self.panels_across * self.panels_down, self.panels_across >= 1,
                self.panels_down >= 1;
        assert(self@.frame_len() <= usize::MAX) by (nonlinear_arith)
            requires
                self@.frame_len() == 16 * stride,
                stride == 4 * self.panels_across * self.panels_down,
                64 * self.panels_across * self.panels_down <= usize::MAX,
        ;
        assert(row * stride < self@.frame_len()) by (nonlinear_arith)
            requires row < 16, self@.frame_len() == 16 * stride, stride > 0;
        column / 8 + row * stride
    }

    /// The mask of pixel column `x` within its byte: bit `7 - x % 8`, the
    /// leftmost pixel in the most significant bit.
    pub fn pixel_to_bitmask(x: usize) -> (r: u8)
        ensures
            r == pixel_mask(x as int),
    {
        1u8 << ((7 - x % 8) as u8)
    }

    pub fn panels_across(&self) -> (r: usize)
        ensures
            r == self@.across,
    {
        self.panels_across
    }

    pub fn panels_down(&self) -> (r: usize)
        ensures
            r == self@.down,
    {
        self.panels_down
    }
}

/// Every pixel of the display is addressed inside the framebuffer: its byte
/// lies within the frame and its bit within the byte, and that bit is
/// `7 - x % 8`, most significant first.
pub proof fn lemma_addressing_in_range(t: Tiling, x: int, y: int)
    requires
        t.valid(),
        t.on_panel(x, y),
    ensures
        0 <= t.panel_index(x, y) < t.across * t.down,
        0 <= t.local_column(x, y) < 32 * t.across * t.down,
        0 <= t.bitmap_index(x, y) < t.frame_len(),
        0 <= t.bit_number(x, y) < 8,
        t.bit_number(x, y) == 7 - x % 8,
{
    let a = t.across as int;
    let d = t.down as int;
    let s = t.stride() as int;
    let p = t.panel_index(x, y);
    let c = t.local_column(x, y);
    assert(s == 4 * a * d) by (nonlinear_arith)
        requires s == 4 * a * d;
    assert(0 <= x / 32 < a);
    assert(0 <= y / 16 < d);
    assert(0 <= p < a * d) by (nonlinear_arith)
        requires p == x / 32 + a * (y / 16), 0 <= x / 32 < a, 0 <= y / 16 < d;
    assert(0 <= c < 32 * a * d) by (nonlinear_arith)
        requires c == x % 32 + p * 32, 0 <= x % 32 < 32, 0 <= p < a * d;
    assert(0 <= t.bitmap_index(x, y) < t.frame_len()) by (nonlinear_arith)
        requires
            t.bitmap_index(x, y) == c / 8 + (y % 16) * s,
            0 <= c < 32 * a * d,
            s == 4 * a * d,
            t.frame_len() == 16 * s,
            0 <= y % 16 < 16,
    ;
    lemma_fundamental_div_mod_converse(c, 8, (x % 32) / 8 + p * 4, x % 8);
}

/// Reading a pixel's byte and bit back through `pixel_of` gives the pixel.
proof fn lemma_pixel_of_address(t: Tiling, x: int, y: int)
    requires
        t.valid(),
        t.on_panel(x, y),
    ensures
        t.pixel_of(t.bitmap_index(x, y), t.bit_number(x, y)) == (x, y),
{
    lemma_addressing_in_range(t, x, y);
    let a = t.across as int;
    let d = t.down as int;
    let s = t.stride() as int;
    let p = t.panel_index(x, y);
    let c = t.local_column(x, y);
    let r = y % 16;
    let idx = t.bitmap_index(x, y);
    assert(s == 4 * a * d) by (nonlinear_arith)
        requires s == 4 * a * d;
    lemma_fundamental_div_mod(c, 8);
    assert(c / 8 < s) by (nonlinear_arith)
        requires c == 8 * (c / 8) + c % 8, 0 <= c % 8, c < 32 * a * d, s == 4 * a * d;
    lemma_fundamental_div_mod_converse(idx, s, r, c / 8);
    lemma_fundamental_div_mod_converse(c, 32, p, x % 32);
    lemma_fundamental_div_mod_converse(p, a, y / 16, x / 32);
}

/// Distinct pixels of the display never share a byte and bit of the
/// framebuffer.
pub proof fn lemma_addressing_injective(t: Tiling, x1: int, y1: int, x2: int, y2: int)
    requires
        t.valid(),
        t.on_panel(x1, y1),
        t.on_panel(x2, y2),
        x1 != x2 || y1 != y2,
    ensures
        t.bitmap_index(x1, y1) != t.bitmap_index(x2, y2) || t.bit_number(x1, y1) != t.bit_number(
            x2,
            y2,
        ),
{
    lemma_pixel_of_address(t, x1, y1);
    lemma_pixel_of_address(t, x2, y2);
}

/// Every bit of the framebuffer belongs to a pixel of the display: the one
/// that `pixel_of` names.
pub proof fn lemma_addressing_onto(t: Tiling, byte: int, bit: int)
    requires
        t.valid(),
        0 <= byte < t.frame_len(),
        0 <= bit < 8,
    ensures
        t.on_panel(t.pixel_of(byte, bit).0, t.pixel_of(byte, bit).1),
        t.bitmap_index(t.pixel_of(byte, bit).0, t.pixel_of(byte, bit).1) == byte,
        t.bit_number(t.pixel_of(byte, bit).0, t.pixel_of(byte, bit).1) == bit,
{
    let a = t.across as int;
    let d = t.down as int;
    let s = t.stride() as int;
    assert(s == 4 * a * d) by (nonlinear_arith)
        requires s == 4 * a * d;
    assert(s > 0) by (nonlinear_arith)
        requires s == 4 * a * d, a >= 1, d >= 1;
    let r = byte / s;
    let m = byte % s;
    let c = m * 8 + (7 - bit);
    let p = c / 32;
    let x = (p % a) * 32 + c % 32;
    let y = (p / a) * 16 + r;
    assert(t.pixel_of(byte, bit) == (x, y));
    lemma_fundamental_div_mod(byte, s);
    assert(0 <= r < 16) by (nonlinear_arith)
        requires byte == s * r + m, 0 <= m < s, 0 <= byte < 16 * s, s > 0;
    assert(0 <= c < 32 * a * d) by (nonlinear_arith)
        requires c == m * 8 + (7 - bit), 0 <= m < s, 0 <= bit < 8, s == 4 * a * d;
    lemma_fundamental_div_mod(c, 32);
    assert(0 <= p < a * d) by (nonlinear_arith)
        requires c == 32 * p + c % 32, 0 <= c % 32 < 32, 0 <= c < 32 * a * d;
    lemma_fundamental_div_mod(p, a);
    assert(0 <= p / a < d) by (nonlinear_arith)
        requires p == a * (p / a) + p % a, 0 <= p % a < a, 0 <= p < a * d, a >= 1;
    assert(0 <= x < 32 * a) by (nonlinear_arith)
        requires x == (p % a) * 32 + c % 32, 0 <= p % a < a, 0 <= c % 32 < 32;
    assert(0 <= y < 16 * d) by (nonlinear_arith)
        requires y == (p / a) * 16 + r, 0 <= p / a < d, 0 <= r < 16;
    lemma_fundamental_div_mod_converse(x, 32, p % a, c % 32);
    lemma_fundamental_div_mod_converse(y, 16, p / a, r);
    assert(t.panel_index(x, y) == p);
    assert(t.local_column(x, y) == c);
    lemma_fundamental_div_mod_converse(c, 8, m, 7 - bit);
    assert(t.local_row(y) == r);
    assert(t.bitmap_index(x, y) == m + r * s);
    assert(byte == m + r * s) by (nonlinear_arith)
        requires byte == s * r + m;
}

} // verus!
