//! A whole frame: everything that is drawn for one state of the session at
//! one moment. Nothing is kept from one frame to the next.

use crate::border::{border_cell_at, border_cells, perimeter, BorderCell};
use crate::color::Color;
use crate::config::{color_of, lowercase, Config};
use crate::effects::NANOS_PER_MILLI;
use crate::overlay::{help_panel, panel_of, HelpPanel};
use crate::progress::{
    progress_bar, progress_cell_at, progress_cells, progress_of, ProgressBar,
};
use crate::session::Session;
use crate::ui::{
    render_word_display, within_rows, word_line, Rect, UIConstraints, WordDisplay,
};
use vstd::prelude::*;

verus! {

/// The settings that drawing depends on, with the colours read.
#[derive(Clone, Copy, Debug, PartialEq, Eq, Structural)]
pub struct Settings {
    /// Whether the border is drawn.
    pub show_border: bool,
    /// Whether the progress indicator is drawn.
    pub show_progress_bar: bool,
    /// Whether anything moves but the words.
    pub enable_animations: bool,
    /// The colour of the border.
    pub border_color: Color,
    /// The colour of the progress indicator.
    pub progress_color: Color,
}

/// The colour of the cells of the indicator that are not filled.
pub open spec fn track_color() -> Color {
    Color::Named(crate::color::NamedColor::DarkGray)
}

impl Settings {
    /// Reads the drawing settings out of `config`.
    pub fn from_config(config: &Config) -> (settings: Settings)
        ensures
            settings == (Settings {
                show_border: config.show_border,
                show_progress_bar: config.show_progress_bar,
                enable_animations: config.enable_animations,
                border_color: color_of(lowercase(config.border_color@)),
                progress_color: color_of(lowercase(config.progress_bar_color@)),
            }),
    {
        Settings {
            show_border: config.show_border,
            show_progress_bar: config.show_progress_bar,
            enable_animations: config.enable_animations,
            border_color: config.parse_border_color(),
            progress_color: config.parse_progress_bar_color(),
        }
    }

    /// Whether the border draws itself in when the session begins.
    pub fn animates_border(&self) -> (animates: bool)
        ensures
            animates == (self.show_border && self.enable_animations),
    {
        self.show_border && self.enable_animations
    }
}

/// The part of `area` that a border leaves free: `area` without its
/// outermost cells. An area too small for a border is left as it is, since
/// no border is drawn round it.
pub open spec fn inside(area: Rect, bordered: bool) -> Rect {
    if bordered && area.width >= 2 && area.height >= 2 {
        Rect {
            x: crate::border::shifted(area.x, 1),
            y: crate::border::shifted(area.y, 1),
            width: (area.width - 2) as u16,
            height: (area.height - 2) as u16,
        }
    } else {
        area
    }
}

/// The part of `area` that a border leaves free.
pub fn content_area(area: Rect, bordered: bool) -> (inner: Rect)
    ensures
        inner == inside(area, bordered),
{
    if bordered && area.width >= 2 && area.height >= 2 {
        Rect {
            x: if area.x == u16::MAX {
                u16::MAX
            } else {
                area.x + 1
            },
            y: if area.y == u16::MAX {
                u16::MAX
            } else {
                area.y + 1
            },
            width: area.width - 2,
            height: area.height - 2,
        }
    } else {
        area
    }
}

/// What the animations of a frame go by: the milliseconds since the
/// session began, or nothing where animations are switched off.
pub open spec fn animation_time(settings: Settings, now: u64) -> Option<u64> {
    if settings.enable_animations {
        Some(now / NANOS_PER_MILLI)
    } else {
        None
    }
}

/// Everything that is drawn in one frame.
#[derive(Clone, Debug, PartialEq, Eq)]
pub struct Frame {
    /// The cells of the border; none where no border is drawn.
    pub border: Vec<BorderCell>,
    /// The word and the rows of the display; nothing once the session has
    /// ended.
    pub word: Option<WordDisplay>,
    /// The progress indicator, where it is drawn.
    pub progress: Option<ProgressBar>,
    /// The colours of the cells of the progress indicator.
    pub progress_cells: Vec<Color>,
    /// The help, where it is open.
    pub help: Option<HelpPanel>,
}

/// Puts the frame together for `session` on `area` at the reading `now` of
/// the session clock. `pulse` is the strength of the pulse of the progress
/// indicator in thousandths; it counts only where animations are on.
pub fn compose_frame(
    session: &Session,
    settings: &Settings,
    constraints: &UIConstraints,
    area: Rect,
    now: u64,
    pulse: Option<u16>,
) -> (frame: Frame)
    ensures
        frame.border@ == Seq::new(
            if settings.show_border {
                perimeter(area.width as nat, area.height as nat)
            } else {
                0
            },
            |k: int|
                border_cell_at(
                    area,
                    k as nat,
                    settings.border_color,
                    animation_time(*settings, now),
                ),
        ),
        frame.word is Some <==> session@.pacing.current() is Some,
        frame.word matches Some(display) ==> {
            &&& session@.pacing.current() matches Some(word)
            &&& display.line@ == word_line(word, inside(area, settings.show_border).width)
            &&& display.text_area.x == inside(area, settings.show_border).x
            &&& display.text_area.width == inside(area, settings.show_border).width
            &&& display.gauge_area.x == inside(area, settings.show_border).x
            &&& display.gauge_area.width == inside(area, settings.show_border).width
            &&& within_rows(display.text_area, inside(area, settings.show_border))
            &&& within_rows(display.gauge_area, inside(area, settings.show_border))
            &&& display.position == session@.pacing.index + 1
            &&& display.total == session@.pacing.words.len()
        },
        frame.progress == if settings.show_progress_bar {
            Some(
                progress_of(
                    session@.pacing,
                    inside(area, settings.show_border).width,
                    settings.progress_color,
                    if settings.enable_animations {
                        pulse
                    } else {
                        None
                    },
                ),
            )
        } else {
            None::<ProgressBar>
        },
        frame.progress_cells@ == (match frame.progress {
            Some(bar) => Seq::new(
                bar.width as nat,
                |x: int|
                    progress_cell_at(bar, track_color(), x as nat, animation_time(*settings, now)),
            ),
            None => Seq::empty(),
        }),
        frame.help == panel_of(area, session@.overlay),
{
    let time: Option<u64> = if settings.enable_animations {
        Some(now / NANOS_PER_MILLI)
    } else {
        None
    };
    let border: Vec<BorderCell> = if settings.show_border {
        border_cells(area, settings.border_color, time)
    } else {
        Vec::new()
    };
    let inner = content_area(area, settings.show_border);
    let total: usize = session.state.total_words();
    let index: usize = session.state.index();
    let word = match session.state.current_word() {
        Some(text) => Some(render_word_display(inner, text, index, total, constraints)),
        None => None,
    };
    let progress: Option<ProgressBar> = if settings.show_progress_bar {
        Some(
            progress_bar(
                &session.state,
                inner.width,
                settings.progress_color,
                if settings.enable_animations {
                    pulse
                } else {
                    None
                },
            ),
        )
    } else {
        None
    };
    let cells: Vec<Color> = match &progress {
        Some(bar) => progress_cells(bar, Color::Named(crate::color::NamedColor::DarkGray), time),
        None => Vec::new(),
    };
    Frame { border, word, progress, progress_cells: cells, help: help_panel(area, &session.overlay) }
}

} // verus!
