//! The border round the display: its cells, the order in which they appear
//! while it draws itself in, and the bright point that travels round it
//! afterwards.
//!
//! The cells of a border are numbered clockwise from its upper left corner.
//! An area of less than two columns or two rows has no border.

use crate::color::{brightened, Color};
use crate::effects::{
    border_reveal_progress, border_settled, is_settled, reveal_progress, scanner_cell,
    scanner_position,
};
use crate::ui::Rect;
use vstd::prelude::*;

verus! {

/// The progress, in thousandths, from which the two ticks at the thirds of
/// the left edge are drawn.
pub const STAGE_THIRDS: u16 = 150;

/// The progress from which the ticks at the middle of the upper and the
/// lower edge are drawn.
pub const STAGE_EDGES: u16 = 300;

/// The progress from which the four corners are drawn.
pub const STAGE_CORNERS: u16 = 450;

/// The progress from which the upper and the lower edge run out of their
/// left corners.
pub const STAGE_RUNS: u16 = 600;

/// A piece of a double-line border.
#[derive(Clone, Copy, Debug, PartialEq, Eq, Structural)]
pub enum BorderGlyph {
    Horizontal,
    Vertical,
    TopLeft,
    TopRight,
    BottomRight,
    BottomLeft,
}

/// A cell of the border, ready to be drawn.
#[derive(Clone, Copy, Debug, PartialEq, Eq, Structural)]
pub struct BorderCell {
    /// The column of the cell.
    pub x: u16,
    /// The row of the cell.
    pub y: u16,
    /// The piece of the border that belongs there.
    pub glyph: BorderGlyph,
    /// The colour in which it is drawn.
    pub color: Color,
    /// Whether it is drawn in this frame.
    pub shown: bool,
}

/// The number of cells of the border of an area `w` columns wide and `h`
/// rows high.
pub open spec fn perimeter(w: nat, h: nat) -> nat {
    if w < 2 || h < 2 {
        0
    } else {
        (2 * w + 2 * h - 4) as nat
    }
}

/// Where the cell with number `k` lies, in columns and rows from the upper
/// left corner: the numbers run along the upper edge to the right, down the
/// right edge, back along the lower edge and up the left edge.
pub open spec fn cell_offset(w: nat, h: nat, k: nat) -> (nat, nat) {
    if k < w {
        (k, 0)
    } else if k < w + h - 1 {
        ((w - 1) as nat, (k - w + 1) as nat)
    } else if k < 2 * w + h - 2 {
        ((2 * w + h - 3 - k) as nat, (h - 1) as nat)
    } else {
        (0, (2 * w + 2 * h - 4 - k) as nat)
    }
}

/// The piece of the border that belongs at a place on it.
pub open spec fn glyph_at(w: nat, h: nat, dx: nat, dy: nat) -> BorderGlyph {
    if dy == 0 {
        if dx == 0 {
            BorderGlyph::TopLeft
        } else if dx == w - 1 {
            BorderGlyph::TopRight
        } else {
            BorderGlyph::Horizontal
        }
    } else if dy == h - 1 {
        if dx == 0 {
            BorderGlyph::BottomLeft
        } else if dx == w - 1 {
            BorderGlyph::BottomRight
        } else {
            BorderGlyph::Horizontal
        }
    } else {
        BorderGlyph::Vertical
    }
}

/// How many cells of the upper and of the lower edge are drawn beside the
/// left corner at the progress `permille`: none before the runs begin, and
/// from then on a share of the cells between the corners that grows evenly
/// to all of them.
pub open spec fn run_length(permille: nat, w: nat) -> nat {
    if permille < STAGE_RUNS || w < 2 {
        0
    } else if permille >= 1000 {
        (w - 2) as nat
    } else {
        ((permille - STAGE_RUNS) * (w - 2) / (1000 - STAGE_RUNS)) as nat
    }
}

/// Whether a place on the border is drawn at the progress `permille`.
///
/// First comes a tick at the middle of the left edge, then one at each of
/// its thirds, then one at the middle of the upper and of the lower edge,
/// then the corners, and then the two edges run out of the left corners.
/// At full progress everything is drawn.
pub open spec fn is_revealed(w: nat, h: nat, dx: nat, dy: nat, permille: nat) -> bool {
    let on_left = dx == 0;
    let on_edge = dy == 0 || dy == h - 1;
    ||| permille >= 1000
    ||| on_left && dy == h / 2
    ||| permille >= STAGE_THIRDS && on_left && (dy == h / 3 || dy == 2 * h / 3)
    ||| permille >= STAGE_EDGES && on_edge && dx == w / 2
    ||| permille >= STAGE_CORNERS && on_edge && (dx == 0 || dx == w - 1)
    ||| permille >= STAGE_RUNS && on_edge && 1 <= dx <= run_length(permille, w)
}

/// Whether a place is the head of a run: the last cell that one of the two
/// edges has reached.
pub open spec fn is_run_head(w: nat, h: nat, dx: nat, dy: nat, permille: nat) -> bool {
    &&& STAGE_RUNS <= permille < 1000
    &&& dy == 0 || dy == h - 1
    &&& dx >= 1
    &&& dx == run_length(permille, w)
}

/// A coordinate `d` cells on from `base`; the largest coordinate where the
/// sum is beyond it.
pub open spec fn shifted(base: u16, d: nat) -> u16 {
    if base + d > u16::MAX {
        u16::MAX
    } else {
        (base + d) as u16
    }
}

/// The cell with number `k` of the border of `area`.
///
/// Without animation (`elapsed_ms` is `None`) it is drawn in `color`. With
/// animation it is drawn once the reveal has come to it, brighter while it
/// is the head of a run; and when the border is settled, the cell on which
/// the travelling point stands is brighter.
pub open spec fn border_cell_at(area: Rect, k: nat, color: Color, elapsed_ms: Option<u64>)
    -> BorderCell {
    let w = area.width as nat;
    let h = area.height as nat;
    let (dx, dy) = cell_offset(w, h, k);
    let x = shifted(area.x, dx);
    let y = shifted(area.y, dy);
    let glyph = glyph_at(w, h, dx, dy);
    match elapsed_ms {
        None => BorderCell { x, y, glyph, color, shown: true },
        Some(elapsed) => {
            let permille = reveal_progress(elapsed as nat);
            if is_settled(elapsed as nat) {
                BorderCell {
                    x,
                    y,
                    glyph,
                    color: if k == scanner_cell(elapsed as nat, perimeter(w, h)) {
                        brightened(color)
                    } else {
                        color
                    },
                    shown: true,
                }
            } else {
                BorderCell {
                    x,
                    y,
                    glyph,
                    color: if is_run_head(w, h, dx, dy, permille) {
                        brightened(color)
                    } else {
                        color
                    },
                    shown: is_revealed(w, h, dx, dy, permille),
                }
            }
        },
    }
}

/// The number of cells of the border of `area`.
pub fn perimeter_len(area: Rect) -> (n: u32)
    ensures
        n == perimeter(area.width as nat, area.height as nat),
{
    if area.width < 2 || area.height < 2 {
        0
    } else {
        2 * (area.width as u32) + 2 * (area.height as u32) - 4
    }
}

fn offset_of(w: u32, h: u32, k: u32) -> (at: (u32, u32))
    requires
        2 <= w <= u16::MAX,
        2 <= h <= u16::MAX,
        k < perimeter(w as nat, h as nat),
    ensures
        at.0 == cell_offset(w as nat, h as nat, k as nat).0,
        at.1 == cell_offset(w as nat, h as nat, k as nat).1,
        at.0 < w,
        at.1 < h,
{
    if k < w {
        (k, 0)
    } else if k < w + h - 1 {
        (w - 1, k - w + 1)
    } else if k < 2 * w + h - 2 {
        (2 * w + h - 3 - k, h - 1)
    } else {
        (0, 2 * w + 2 * h - 4 - k)
    }
}

fn glyph_of(w: u32, h: u32, dx: u32, dy: u32) -> (glyph: BorderGlyph)
    requires
        w >= 1,
        h >= 1,
    ensures
        glyph == glyph_at(w as nat, h as nat, dx as nat, dy as nat),
{
    if dy == 0 {
        if dx == 0 {
            BorderGlyph::TopLeft
        } else if dx == w - 1 {
            BorderGlyph::TopRight
        } else {
            BorderGlyph::Horizontal
        }
    } else if dy == h - 1 {
        if dx == 0 {
            BorderGlyph::BottomLeft
        } else if dx == w - 1 {
            BorderGlyph::BottomRight
        } else {
            BorderGlyph::Horizontal
        }
    } else {
        BorderGlyph::Vertical
    }
}

fn run_length_of(permille: u16, w: u32) -> (run: u32)
    requires
        permille <= 1000,
        w <= u16::MAX,
    ensures
        run == run_length(permille as nat, w as nat),
{
    if permille < STAGE_RUNS || w < 2 {
        0
    } else if permille >= 1000 {
        w - 2
    } else {
        let done: u32 = (permille - STAGE_RUNS) as u32;
        assert(done * (w - 2) <= 400 * 65535) by (nonlinear_arith)
            requires
                0 <= done <= 400,
                0 <= w - 2 <= 65535,
        ;
        done * (w - 2) / 400
    }
}

fn shift(base: u16, d: u32) -> (at: u16)
    ensures
        at == shifted(base, d as nat),
{
    if d > (u16::MAX - base) as u32 {
        u16::MAX
    } else {
        base + d as u16
    }
}

fn revealed(w: u32, h: u32, dx: u32, dy: u32, permille: u16) -> (shown: bool)
    requires
        2 <= w <= u16::MAX,
        2 <= h <= u16::MAX,
        permille <= 1000,
    ensures
        shown == is_revealed(w as nat, h as nat, dx as nat, dy as nat, permille as nat),
{
    let on_left = dx == 0;
    let on_edge = dy == 0 || dy == h - 1;
    permille >= 1000 || (on_left && dy == h / 2) || (permille >= STAGE_THIRDS && on_left && (dy
        == h / 3 || dy == 2 * h / 3)) || (permille >= STAGE_EDGES && on_edge && dx == w / 2) || (
    permille >= STAGE_CORNERS && on_edge && (dx == 0 || dx == w - 1)) || (permille >= STAGE_RUNS
        && on_edge && 1 <= dx && dx <= run_length_of(permille, w))
}

fn run_head(w: u32, h: u32, dx: u32, dy: u32, permille: u16) -> (head: bool)
    requires
        2 <= w <= u16::MAX,
        2 <= h <= u16::MAX,
        permille <= 1000,
    ensures
        head == is_run_head(w as nat, h as nat, dx as nat, dy as nat, permille as nat),
{
    STAGE_RUNS <= permille && permille < 1000 && (dy == 0 || dy == h - 1) && dx >= 1 && dx
        == run_length_of(permille, w)
}

/// The cell with number `k` of the border of `area`.
pub fn border_cell(area: Rect, k: u32, color: Color, elapsed_ms: Option<u64>) -> (cell: BorderCell)
    requires
        k < perimeter(area.width as nat, area.height as nat),
    ensures
        cell == border_cell_at(area, k as nat, color, elapsed_ms),
{
    let w: u32 = area.width as u32;
    let h: u32 = area.height as u32;
    let (dx, dy) = offset_of(w, h, k);
    let x: u16 = shift(area.x, dx);
    let y: u16 = shift(area.y, dy);
    let glyph = glyph_of(w, h, dx, dy);
    match elapsed_ms {
        None => BorderCell { x, y, glyph, color, shown: true },
        Some(elapsed) => {
            if border_settled(elapsed) {
                let bright = k == scanner_position(elapsed, perimeter_len(area));
                BorderCell {
                    x,
                    y,
                    glyph,
                    color: if bright {
                        color.brighten()
                    } else {
                        color
                    },
                    shown: true,
                }
            } else {
                let permille: u16 = border_reveal_progress(elapsed);
                let bright = run_head(w, h, dx, dy, permille);
                BorderCell {
                    x,
                    y,
                    glyph,
                    color: if bright {
                        color.brighten()
                    } else {
                        color
                    },
                    shown: revealed(w, h, dx, dy, permille),
                }
            }
        },
    }
}

/// The cells of the border of `area`, in their order. An area too small
/// for a border gives none.
pub fn border_cells(area: Rect, color: Color, elapsed_ms: Option<u64>) -> (cells: Vec<BorderCell>)
    ensures
        cells@ == Seq::new(
            perimeter(area.width as nat, area.height as nat),
            |k: int| border_cell_at(area, k as nat, color, elapsed_ms),
        ),
{
    let n: u32 = perimeter_len(area);
    let mut cells: Vec<BorderCell> = Vec::new();
    let mut k: u32 = 0;
    while k < n
        invariant
            k <= n,
            n == perimeter(area.width as nat, area.height as nat),
            cells@ == Seq::new(k as nat, |j: int| border_cell_at(area, j as nat, color, elapsed_ms)),
        decreases n - k,
    {
        cells.push(border_cell(area, k, color, elapsed_ms));
        k = k + 1;
    }
    cells
}

/// Every place on the border has one number, and the numbers of a border
/// lie on it: on the first or last column, or on the first or last row.
pub proof fn lemma_cells_lie_on_the_border(w: nat, h: nat, k: nat)
    requires
        k < perimeter(w, h),
    ensures
        cell_offset(w, h, k).0 < w,
        cell_offset(w, h, k).1 < h,
        ({
            let (dx, dy) = cell_offset(w, h, k);
            dx == 0 || dx == w - 1 || dy == 0 || dy == h - 1
        }),
{
}

/// Two numbers of a border never name the same place.
pub proof fn lemma_cells_are_distinct(w: nat, h: nat, j: nat, k: nat)
    requires
        j < k < perimeter(w, h),
    ensures
        cell_offset(w, h, j) != cell_offset(w, h, k),
{
}

/// What is drawn stays drawn as the reveal goes on, and at full progress
/// the whole border is drawn.
pub proof fn lemma_reveal_only_adds(w: nat, h: nat, dx: nat, dy: nat, earlier: nat, later: nat)
    requires
        earlier <= later,
        w >= 2,
    ensures
        is_revealed(w, h, dx, dy, earlier) ==> is_revealed(w, h, dx, dy, later),
        is_revealed(w, h, dx, dy, 1000),
        run_length(earlier, w) <= run_length(later, w) <= w - 2,
{
    if STAGE_RUNS <= earlier && later < 1000 {
        assert((earlier - 600) * (w - 2) / 400 <= (later - 600) * (w - 2) / 400)
            by (nonlinear_arith)
            requires
                600 <= earlier <= later,
                w >= 2,
        ;
    }
    if STAGE_RUNS <= later < 1000 {
        assert((later - 600) * (w - 2) / 400 <= w - 2) by (nonlinear_arith)
            requires
                600 <= later < 1000,
                w >= 2,
        ;
    }
    if STAGE_RUNS <= earlier < 1000 {
        assert((earlier - 600) * (w - 2) / 400 <= w - 2) by (nonlinear_arith)
            requires
                600 <= earlier < 1000,
                w >= 2,
        ;
    }
}

} // verus!
