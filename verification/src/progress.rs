//! The progress indicator: how much of the text is read, whether the
//! reader runs, and the glow that sweeps across it.

use crate::color::{scaled, Color};
use crate::effects::{glow_color, glow_of, glowing, sweep_head, sweep_position};
use crate::state::{AppState, PacingState};
use vstd::prelude::*;

verus! {

/// The sign beside the indicator.
#[derive(Clone, Copy, Debug, PartialEq, Eq, Structural)]
pub enum PlayGlyph {
    /// Words are advancing.
    Playing,
    /// Advancing is suspended.
    Paused,
}

/// The progress indicator of a frame.
#[derive(Clone, Copy, Debug, PartialEq, Eq, Structural)]
pub struct ProgressBar {
    /// The number of the word on screen, counted from one.
    pub position: usize,
    /// The number of words in the text.
    pub total: usize,
    /// The number of cells in the indicator.
    pub width: u16,
    /// The number of cells that are filled, from the left.
    pub filled: u16,
    /// The sign beside the indicator.
    pub glyph: PlayGlyph,
    /// The colour of the filled cells.
    pub color: Color,
}

/// The colour of the indicator while the reader is paused: orange.
pub open spec fn paused_color() -> Color {
    Color::Rgb(255, 165, 0)
}

/// The number of the word on screen, counted from one; the number of the
/// last word once the session has ended.
pub open spec fn position_of(pacing: PacingState) -> nat {
    if pacing.index < pacing.words.len() {
        pacing.index + 1
    } else {
        pacing.words.len()
    }
}

/// The number of cells, of `width`, that stand for `position` words of
/// `total`, rounded down.
pub open spec fn filled_cells(width: nat, position: nat, total: nat) -> nat {
    if total == 0 {
        0
    } else {
        width * position / total
    }
}

/// The indicator for the engine `pacing` on `width` cells. Paused it is
/// orange. Running it has the colour `base`, at `intensity` thousandths of
/// its strength where a pulse is given.
pub open spec fn progress_of(pacing: PacingState, width: u16, base: Color, intensity: Option<u16>)
    -> ProgressBar {
    ProgressBar {
        position: position_of(pacing) as usize,
        total: pacing.words.len() as usize,
        width,
        filled: filled_cells(width as nat, position_of(pacing), pacing.words.len()) as u16,
        glyph: if pacing.paused {
            PlayGlyph::Paused
        } else {
            PlayGlyph::Playing
        },
        color: if pacing.paused {
            paused_color()
        } else {
            match intensity {
                Some(permille) => scaled(base, permille),
                None => base,
            }
        },
    }
}

/// The distance between the cell with number `x` and a head that stands
/// `head` thousandths of a cell from the left edge, in thousandths of a
/// cell.
pub open spec fn head_distance(x: nat, head: nat) -> nat {
    if x * 1000 >= head {
        (x * 1000 - head) as nat
    } else {
        (head - x * 1000) as nat
    }
}

/// The colour of the cell with number `x` of the indicator: that of the
/// bar where the cell is filled and that of the track where it is not, and
/// under the glow of the sweep where a sweep is given.
pub open spec fn progress_cell_at(bar: ProgressBar, track: Color, x: nat, sweep_ms: Option<u64>)
    -> Color {
    let existing = if x < bar.filled {
        bar.color
    } else {
        track
    };
    match sweep_ms {
        Some(elapsed) => glowing(
            existing,
            glow_of(head_distance(x, sweep_head(elapsed as nat, bar.width as nat))),
        ),
        None => existing,
    }
}

/// Builds the indicator for the engine `state` on `width` cells.
pub fn progress_bar(state: &AppState, width: u16, base: Color, intensity: Option<u16>) -> (bar:
    ProgressBar)
    ensures
        bar == progress_of(state@, width, base, intensity),
        1 <= bar.position <= bar.total,
        bar.filled <= width,
{
    let total: usize = state.total_words();
    let index: usize = state.index();
    let position: usize = if index < total {
        index + 1
    } else {
        total
    };
    assert(width * position / (total as int) <= width) by (nonlinear_arith)
        requires
            0 <= position <= total,
            total > 0,
            width >= 0,
    ;
    assert(width * position <= 65535 * position) by (nonlinear_arith)
        requires
            0 <= width <= 65535,
            position >= 0,
    ;
    let filled: u16 = ((width as u128) * (position as u128) / (total as u128)) as u16;
    let paused = state.is_paused();
    ProgressBar {
        position,
        total,
        width,
        filled,
        glyph: if paused {
            PlayGlyph::Paused
        } else {
            PlayGlyph::Playing
        },
        color: if paused {
            Color::Rgb(255, 165, 0)
        } else {
            match intensity {
                Some(permille) => base.scale(permille),
                None => base,
            }
        },
    }
}

/// The colours of the cells of the indicator, from left to right.
pub fn progress_cells(bar: &ProgressBar, track: Color, sweep_ms: Option<u64>) -> (cells: Vec<
    Color,
>)
    ensures
        cells@ == Seq::new(
            bar.width as nat,
            |x: int| progress_cell_at(*bar, track, x as nat, sweep_ms),
        ),
{
    let mut cells: Vec<Color> = Vec::new();
    let mut x: u16 = 0;
    while x < bar.width
        invariant
            x <= bar.width,
            cells@ == Seq::new(x as nat, |j: int| progress_cell_at(*bar, track, j as nat, sweep_ms)),
        decreases bar.width - x,
    {
        let existing = if x < bar.filled {
            bar.color
        } else {
            track
        };
        let color = match sweep_ms {
            Some(elapsed) => {
                let head: u32 = sweep_position(elapsed, bar.width);
                let at: u32 = (x as u32) * 1000;
                let distance: u32 = if at >= head {
                    at - head
                } else {
                    head - at
                };
                glow_color(existing, distance)
            },
            None => existing,
        };
        cells.push(color);
        x = x + 1;
    }
    cells
}

/// The indicator is empty before the first word is passed and full at the
/// last, and it never shrinks as the reader goes on.
pub proof fn lemma_fill_grows(width: nat, earlier: nat, later: nat, total: nat)
    requires
        earlier <= later <= total,
        total > 0,
    ensures
        filled_cells(width, 0, total) == 0,
        filled_cells(width, total, total) == width,
        filled_cells(width, earlier, total) <= filled_cells(width, later, total) <= width,
{
    assert(width * earlier / total <= width * later / total) by (nonlinear_arith)
        requires
            earlier <= later,
            total > 0,
    ;
    assert(width * later / total <= width) by (nonlinear_arith)
        requires
            later <= total,
            total > 0,
    ;
    assert(width * total / total == width) by (nonlinear_arith)
        requires
            total > 0,
    ;
    assert(width * 0 / total == 0) by (nonlinear_arith)
        requires
            total > 0,
    ;
}

} // verus!
