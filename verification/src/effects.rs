//! The animation phases. Each is a function of the milliseconds that have
//! passed since the animation began, and of nothing else.

use crate::color::{brightened, Color, NamedColor};
use vstd::prelude::*;

verus! {

/// The time in which the border draws itself in.
pub const BORDER_REVEAL_MS: u64 = 600;

/// The time in which the bright point travels once round the border.
pub const SCANNER_LOOP_MS: u64 = 3000;

/// The time in which the glow sweeps once across the progress indicator.
pub const SWEEP_LOOP_MS: u64 = 2000;

/// The period of the pulse of the progress indicator.
pub const PULSE_PERIOD_MS: u64 = 1500;

/// The number of cells that the glow of the sweep covers.
pub const GLOW_WIDTH: u16 = 5;

/// The nanoseconds in a millisecond.
pub const NANOS_PER_MILLI: u64 = 1_000_000;

/// The largest square of a distance, in thousandths of a cell, at which the
/// glow `exp(-d * d / 2)` is still 0.6 or more: a million times twice the
/// natural logarithm of 1 / 0.6, rounded down.
pub const GLOW_WHITE_LIMIT: u64 = 1_021_651;

/// The largest square of a distance, in thousandths of a cell, at which the
/// glow `exp(-d * d / 2)` is still 0.2 or more: a million times twice the
/// natural logarithm of 1 / 0.2, rounded down.
pub const GLOW_BRIGHT_LIMIT: u64 = 3_218_875;

/// How far the border has drawn itself in, in thousandths: a straight ramp
/// from 0 to 1000 over the reveal time, and 1000 from then on.
pub open spec fn reveal_progress(elapsed_ms: nat) -> nat {
    if elapsed_ms >= BORDER_REVEAL_MS {
        1000
    } else {
        elapsed_ms * 1000 / (BORDER_REVEAL_MS as nat)
    }
}

/// Whether the border has finished drawing itself in.
pub open spec fn is_settled(elapsed_ms: nat) -> bool {
    elapsed_ms >= BORDER_REVEAL_MS
}

/// The cell of a border of `perimeter` cells on which the bright point
/// stands: it moves on evenly and is back at cell 0 after each loop.
pub open spec fn scanner_cell(elapsed_ms: nat, perimeter: nat) -> nat {
    (elapsed_ms % (SCANNER_LOOP_MS as nat)) * perimeter / (SCANNER_LOOP_MS as nat)
}

/// Where the head of the sweep stands on an indicator `width` cells wide,
/// in thousandths of a cell from its left edge.
pub open spec fn sweep_head(elapsed_ms: nat, width: nat) -> nat {
    (elapsed_ms % (SWEEP_LOOP_MS as nat)) * width * 1000 / (SWEEP_LOOP_MS as nat)
}

/// How far into its period the pulse is, in milliseconds.
pub open spec fn pulse_phase(elapsed_ms: nat) -> nat {
    elapsed_ms % (PULSE_PERIOD_MS as nat)
}

/// What the glow does to a cell.
#[derive(Clone, Copy, Debug, PartialEq, Eq, Structural)]
pub enum Glow {
    /// The cell turns white.
    White,
    /// The cell takes the brighter variant of its colour.
    Brightened,
    /// The cell stays as it is.
    Unchanged,
}

/// What the glow does to a cell whose centre is `distance` thousandths of a
/// cell away from the head.
pub open spec fn glow_of(distance: nat) -> Glow {
    if distance * distance <= GLOW_WHITE_LIMIT {
        Glow::White
    } else if distance * distance <= GLOW_BRIGHT_LIMIT {
        Glow::Brightened
    } else {
        Glow::Unchanged
    }
}

/// The colour of a cell under a glow.
pub open spec fn glowing(existing: Color, glow: Glow) -> Color {
    match glow {
        Glow::White => Color::Named(NamedColor::White),
        Glow::Brightened => brightened(existing),
        Glow::Unchanged => existing,
    }
}

/// How far the border has drawn itself in, in thousandths.
pub fn border_reveal_progress(elapsed_ms: u64) -> (permille: u16)
    ensures
        permille == reveal_progress(elapsed_ms as nat),
        permille <= 1000,
{
    if elapsed_ms >= BORDER_REVEAL_MS {
        1000
    } else {
        (elapsed_ms * 1000 / BORDER_REVEAL_MS) as u16
    }
}

/// Whether the border has finished drawing itself in.
pub fn border_settled(elapsed_ms: u64) -> (settled: bool)
    ensures
        settled == is_settled(elapsed_ms as nat),
{
    elapsed_ms >= BORDER_REVEAL_MS
}

/// The cell of the border on which the bright point stands.
pub fn scanner_position(elapsed_ms: u64, perimeter: u32) -> (cell: u32)
    ensures
        cell == scanner_cell(elapsed_ms as nat, perimeter as nat),
        perimeter > 0 ==> cell < perimeter,
{
    let phase: u64 = elapsed_ms % SCANNER_LOOP_MS;
    assert(phase * perimeter <= 2999 * 0xffff_ffff) by (nonlinear_arith)
        requires
            0 <= phase <= 2999,
            0 <= perimeter <= 0xffff_ffff,
    ;
    assert(phase * perimeter / 3000 < perimeter || perimeter == 0) by (nonlinear_arith)
        requires
            0 <= phase <= 2999,
            0 <= perimeter,
    ;
    (phase * (perimeter as u64) / SCANNER_LOOP_MS) as u32
}

/// Where the head of the sweep stands, in thousandths of a cell from the
/// left edge of the indicator.
pub fn sweep_position(elapsed_ms: u64, width: u16) -> (head: u32)
    ensures
        head == sweep_head(elapsed_ms as nat, width as nat),
        head < width * 1000 || width == 0,
{
    let phase: u64 = elapsed_ms % SWEEP_LOOP_MS;
    assert(phase * width * 1000 <= 1999 * 65535 * 1000) by (nonlinear_arith)
        requires
            0 <= phase <= 1999,
            0 <= width <= 65535,
    ;
    assert(phase * width * 1000 / 2000 < width * 1000 || width == 0) by (nonlinear_arith)
        requires
            0 <= phase <= 1999,
            0 <= width,
    ;
    (phase * (width as u64) * 1000 / SWEEP_LOOP_MS) as u32
}

/// How far into its period the pulse is, in milliseconds.
pub fn pulse_phase_ms(elapsed_ms: u64) -> (phase: u64)
    ensures
        phase == pulse_phase(elapsed_ms as nat),
        phase < PULSE_PERIOD_MS,
{
    elapsed_ms % PULSE_PERIOD_MS
}

/// What the glow does to a cell `distance` thousandths of a cell away from
/// the head.
pub fn glow_level(distance: u32) -> (glow: Glow)
    ensures
        glow == glow_of(distance as nat),
{
    assert(distance * distance <= 0xffff_ffff * 0xffff_ffff) by (nonlinear_arith)
        requires
            0 <= distance <= 0xffff_ffff,
    ;
    let square: u64 = (distance as u64) * (distance as u64);
    if square <= GLOW_WHITE_LIMIT {
        Glow::White
    } else if square <= GLOW_BRIGHT_LIMIT {
        Glow::Brightened
    } else {
        Glow::Unchanged
    }
}

/// The colour of a cell of the colour `existing` that lies `distance`
/// thousandths of a cell away from the head of the sweep.
pub fn glow_color(existing: Color, distance: u32) -> (color: Color)
    ensures
        color == glowing(existing, glow_of(distance as nat)),
{
    match glow_level(distance) {
        Glow::White => Color::Named(NamedColor::White),
        Glow::Brightened => existing.brighten(),
        Glow::Unchanged => existing,
    }
}

/// The reveal begins at nothing, never goes back, and is complete exactly
/// from the moment at which the border is settled.
pub proof fn lemma_reveal_ramp(earlier: nat, later: nat)
    requires
        earlier <= later,
    ensures
        reveal_progress(0) == 0,
        reveal_progress(earlier) <= reveal_progress(later) <= 1000,
        reveal_progress(later) == 1000 <==> is_settled(later),
{
    assert(earlier * 1000 / 600 <= later * 1000 / 600) by (nonlinear_arith)
        requires
            earlier <= later,
    ;
    assert(later < 600 ==> later * 1000 / 600 < 1000) by (nonlinear_arith);
}

/// The bright point is always on the border, and it stands where it stood
/// one loop earlier.
pub proof fn lemma_scanner_loops(elapsed_ms: nat, perimeter: nat)
    requires
        perimeter > 0,
    ensures
        scanner_cell(elapsed_ms, perimeter) < perimeter,
        scanner_cell(elapsed_ms + SCANNER_LOOP_MS as nat, perimeter) == scanner_cell(
            elapsed_ms,
            perimeter,
        ),
{
    let phase = elapsed_ms % 3000;
    assert(phase * perimeter / 3000 < perimeter) by (nonlinear_arith)
        requires
            0 <= phase < 3000,
            perimeter > 0,
    ;
    assert((elapsed_ms + 3000) % 3000 == elapsed_ms % 3000) by (nonlinear_arith);
}

/// On whole cells the glow is white at the head and on its two neighbours,
/// and leaves every cell beyond them as it is; it never grows with the
/// distance.
pub proof fn lemma_glow_falls_off(nearer: nat, farther: nat)
    requires
        nearer <= farther,
    ensures
        glow_of(0) == Glow::White,
        glow_of(1000) == Glow::White,
        glow_of(2000) == Glow::Unchanged,
        glow_of(farther) == Glow::White ==> glow_of(nearer) == Glow::White,
        glow_of(nearer) == Glow::Unchanged ==> glow_of(farther) == Glow::Unchanged,
{
    assert(nearer * nearer <= farther * farther) by (nonlinear_arith)
        requires
            nearer <= farther,
    ;
}

} // verus!
