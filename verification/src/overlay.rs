//! The help overlay: whether it is open, how far it is scrolled, and where
//! it stands on the screen.

use crate::ui::Rect;
use vstd::prelude::*;

verus! {

/// The overlay as a mathematical value.
pub struct OverlayView {
    /// Whether the help is open.
    pub visible: bool,
    /// How far the user has scrolled, whatever the size of the help.
    pub scroll_offset: nat,
}

impl OverlayView {
    /// What holds of every overlay: a closed one is not scrolled.
    pub open spec fn wf(self) -> bool {
        !self.visible ==> self.scroll_offset == 0
    }

    /// The closed overlay.
    pub open spec fn hidden() -> OverlayView {
        OverlayView { visible: false, scroll_offset: 0 }
    }

    /// The overlay after the help key: open and at its start if it was
    /// closed, closed if it was open.
    pub open spec fn toggled(self) -> OverlayView {
        OverlayView { visible: !self.visible, scroll_offset: 0 }
    }

    /// The overlay one line further towards the start of the help. A closed
    /// overlay does not scroll.
    pub open spec fn scrolled_up(self) -> OverlayView {
        if self.visible && self.scroll_offset > 0 {
            OverlayView { scroll_offset: (self.scroll_offset - 1) as nat, ..self }
        } else {
            self
        }
    }

    /// The overlay one line further towards the end of the help. A closed
    /// overlay does not scroll, and the count stops at the largest number
    /// that the machine holds.
    pub open spec fn scrolled_down(self) -> OverlayView {
        if self.visible && self.scroll_offset < usize::MAX {
            OverlayView { scroll_offset: self.scroll_offset + 1, ..self }
        } else {
            self
        }
    }
}

/// Whether the help is open, and how far it is scrolled.
#[derive(Debug)]
pub struct OverlayState {
    visible: bool,
    scroll_offset: usize,
}

impl View for OverlayState {
    type V = OverlayView;

    closed spec fn view(&self) -> OverlayView {
        OverlayView { visible: self.visible, scroll_offset: self.scroll_offset as nat }
    }
}

impl OverlayState {
    #[verifier::type_invariant]
    spec fn inv(self) -> bool {
        !self.visible ==> self.scroll_offset == 0
    }

    /// The closed overlay.
    pub fn new() -> (overlay: OverlayState)
        ensures
            overlay@ == OverlayView::hidden(),
    {
        OverlayState { visible: false, scroll_offset: 0 }
    }

    /// Whether the help is open.
    pub fn is_visible(&self) -> (visible: bool)
        ensures
            visible == self@.visible,
    {
        self.visible
    }

    /// How far the user has scrolled; zero while the help is closed.
    pub fn scroll_offset(&self) -> (offset: usize)
        ensures
            offset == self@.scroll_offset,
            self@.wf(),
    {
        proof {
            use_type_invariant(self);
        }
        self.scroll_offset
    }

    /// Opens the help at its start, or closes it.
    pub fn toggle(&mut self)
        ensures
            final(self)@ == old(self)@.toggled(),
            final(self)@.wf(),
    {
        let open = !self.visible;
        self.scroll_offset = 0;
        self.visible = open;
    }

    /// Closes the help.
    pub fn close(&mut self)
        ensures
            final(self)@ == OverlayView::hidden(),
    {
        self.scroll_offset = 0;
        self.visible = false;
    }

    /// Scrolls one line towards the start of the help.
    pub fn scroll_up(&mut self)
        ensures
            final(self)@ == old(self)@.scrolled_up(),
            final(self)@.wf(),
    {
        proof {
            use_type_invariant(&*self);
        }
        if self.visible && self.scroll_offset > 0 {
            self.scroll_offset = self.scroll_offset - 1;
        }
    }

    /// Scrolls one line towards the end of the help.
    pub fn scroll_down(&mut self)
        ensures
            final(self)@ == old(self)@.scrolled_down(),
            final(self)@.wf(),
    {
        proof {
            use_type_invariant(&*self);
        }
        if self.visible && self.scroll_offset < usize::MAX {
            self.scroll_offset = self.scroll_offset + 1;
        }
    }
}

/// The farthest that a text of `content` lines can be scrolled in a window
/// of `height` lines: so far that its last line is the last in the window.
pub open spec fn max_scroll(content: nat, height: nat) -> nat {
    if content > height {
        (content - height) as nat
    } else {
        0
    }
}

/// The scroll position that is shown for the position `raw` that the user
/// asked for: `raw` itself, but never more than the text allows.
pub open spec fn clamped_scroll(raw: nat, content: nat, height: nat) -> nat {
    if raw > max_scroll(content, height) {
        max_scroll(content, height)
    } else {
        raw
    }
}

/// In which direction more of the help lies.
#[derive(Clone, Copy, Debug, PartialEq, Eq, Structural)]
pub enum ScrollHint {
    /// All of the help is in the window.
    Hidden,
    /// The window is at the start: more lies below.
    Down,
    /// The window is at the end: more lies above.
    Up,
    /// The window is in between: more lies above and below.
    Both,
}

/// The hint for a window of `height` lines on a text of `content` lines
/// that is scrolled to `raw`.
pub open spec fn hint_of(raw: nat, content: nat, height: nat) -> ScrollHint {
    if content <= height {
        ScrollHint::Hidden
    } else if clamped_scroll(raw, content, height) == 0 {
        ScrollHint::Down
    } else if clamped_scroll(raw, content, height) == max_scroll(content, height) {
        ScrollHint::Up
    } else {
        ScrollHint::Both
    }
}

/// The scroll position that is shown for the position that the user asked
/// for.
pub fn effective_scroll(raw: usize, content: usize, height: usize) -> (shown: usize)
    ensures
        shown == clamped_scroll(raw as nat, content as nat, height as nat),
        shown <= raw,
        shown + height <= content || shown == 0,
{
    let limit: usize = if content > height {
        content - height
    } else {
        0
    };
    if raw > limit {
        limit
    } else {
        raw
    }
}

/// In which direction more of the help lies.
pub fn scroll_hint(raw: usize, content: usize, height: usize) -> (hint: ScrollHint)
    ensures
        hint == hint_of(raw as nat, content as nat, height as nat),
{
    if content <= height {
        ScrollHint::Hidden
    } else {
        let shown: usize = effective_scroll(raw, content, height);
        if shown == 0 {
            ScrollHint::Down
        } else if shown == content - height {
            ScrollHint::Up
        } else {
            ScrollHint::Both
        }
    }
}

/// Where the text is longer than the window, every position from the
/// farthest on is shown as the farthest, and the start is shown as the
/// start.
pub proof fn lemma_scroll_is_clamped(raw: nat, content: nat, height: nat)
    requires
        height < content,
    ensures
        raw >= content - height ==> clamped_scroll(raw, content, height) == content - height,
        raw <= content - height ==> clamped_scroll(raw, content, height) == raw,
        clamped_scroll(0, content, height) == 0,
        clamped_scroll(clamped_scroll(raw, content, height), content, height) == clamped_scroll(
            raw,
            content,
            height,
        ),
{
}

/// The number of cells of `outer` that stay free on each side of a part
/// `inner` cells long, which is centred in it.
pub open spec fn free_before(outer: u16, inner: u16) -> nat {
    if inner < outer {
        ((outer - inner) / 2) as nat
    } else {
        0
    }
}

/// The panel of the wanted size in the middle of `area`. A panel that is
/// wider or higher than `area` is cut to `area`, and a coordinate beyond
/// the largest that a screen has stops there.
pub open spec fn panel_in(area: Rect, width: u16, height: u16) -> Rect {
    let x = area.x + free_before(area.width, width);
    let y = area.y + free_before(area.height, height);
    Rect {
        x: if x > u16::MAX {
            u16::MAX
        } else {
            x as u16
        },
        y: if y > u16::MAX {
            u16::MAX
        } else {
            y as u16
        },
        width: if width < area.width {
            width
        } else {
            area.width
        },
        height: if height < area.height {
            height
        } else {
            area.height
        },
    }
}

/// Places a panel of the wanted size in the middle of `area`.
pub fn centered_panel(area: Rect, width: u16, height: u16) -> (panel: Rect)
    ensures
        panel == panel_in(area, width, height),
        panel.width <= area.width,
        panel.height <= area.height,
        panel.x >= area.x,
        panel.y >= area.y,
{
    let w: u16 = if width < area.width {
        width
    } else {
        area.width
    };
    let h: u16 = if height < area.height {
        height
    } else {
        area.height
    };
    let dx: u16 = (area.width - w) / 2;
    let dy: u16 = (area.height - h) / 2;
    let x: u16 = if dx > u16::MAX - area.x {
        u16::MAX
    } else {
        area.x + dx
    };
    let y: u16 = if dy > u16::MAX - area.y {
        u16::MAX
    } else {
        area.y + dy
    };
    Rect { x, y, width: w, height: h }
}

/// A panel leaves as much of `area` free on its left as on its right, but
/// for one cell, and lies inside `area`.
pub proof fn lemma_panel_is_centred(area: Rect, width: u16, height: u16)
    requires
        area.x + area.width <= u16::MAX,
        area.y + area.height <= u16::MAX,
    ensures
        ({
            let panel = panel_in(area, width, height);
            let left = panel.x - area.x;
            let right = (area.x + area.width) - (panel.x + panel.width);
            let above = panel.y - area.y;
            let below = (area.y + area.height) - (panel.y + panel.height);
            &&& 0 <= left <= right <= left + 1
            &&& 0 <= above <= below <= above + 1
        }),
{
}

/// The width of the help panel where the screen has room for it.
pub const HELP_WIDTH: u16 = 44;

/// The height of the help panel where the screen has room for it: its
/// lines and its frame.
pub const HELP_HEIGHT: u16 = 9;

/// The number of lines of the help.
pub const HELP_LINES: usize = 7;

/// A line of the help: keys, and what they do.
#[derive(Clone, Debug, PartialEq, Eq)]
pub struct HelpEntry {
    /// The keys.
    pub keys: String,
    /// What they do.
    pub action: String,
}

impl View for HelpEntry {
    type V = (Seq<char>, Seq<char>);

    open spec fn view(&self) -> (Seq<char>, Seq<char>) {
        (self.keys@, self.action@)
    }
}

/// The lines of the help.
pub open spec fn help_table() -> Seq<(Seq<char>, Seq<char>)> {
    seq![
        ("q / Esc"@, "Quit, or close this help"@),
        ("Space"@, "Pause or resume"@),
        ("?"@, "Show or hide this help"@),
        ("j / Down"@, "Scroll the help down"@),
        ("k / Up"@, "Scroll the help up"@),
        ("l / Right"@, "Skip words ahead"@),
        ("h / Left"@, "Skip words back"@),
    ]
}

fn help_entry(keys: &str, action: &str) -> (entry: HelpEntry)
    ensures
        entry@ == (keys@, action@),
{
    HelpEntry { keys: keys.to_owned(), action: action.to_owned() }
}

/// The lines of the help, one for each command.
pub fn help_entries() -> (entries: Vec<HelpEntry>)
    ensures
        entries@.len() == HELP_LINES,
        Seq::new(entries@.len(), |i: int| entries@[i]@) == help_table(),
{
    let mut entries: Vec<HelpEntry> = Vec::new();
    entries.push(help_entry("q / Esc", "Quit, or close this help"));
    entries.push(help_entry("Space", "Pause or resume"));
    entries.push(help_entry("?", "Show or hide this help"));
    entries.push(help_entry("j / Down", "Scroll the help down"));
    entries.push(help_entry("k / Up", "Scroll the help up"));
    entries.push(help_entry("l / Right", "Skip words ahead"));
    entries.push(help_entry("h / Left", "Skip words back"));
    entries
}

/// The help as a frame shows it.
#[derive(Clone, Copy, Debug, PartialEq, Eq, Structural)]
pub struct HelpPanel {
    /// The cells that the panel takes, its frame included. They are cleared
    /// before the panel is drawn.
    pub area: Rect,
    /// The number of lines inside the frame.
    pub inner_height: u16,
    /// The number of the first line that is shown, counted from zero.
    pub first_line: usize,
    /// The number of lines that are shown.
    pub line_count: usize,
    /// In which direction more of the help lies.
    pub hint: ScrollHint,
}

/// The number of lines inside a frame that is `height` rows high.
pub open spec fn inner_rows(height: u16) -> u16 {
    if height >= 2 {
        (height - 2) as u16
    } else {
        0
    }
}

/// The panel for an overlay on `screen`, if the overlay is open: in the
/// middle of the screen, with the lines from the shown scroll position on,
/// as many as the panel holds.
pub open spec fn panel_of(screen: Rect, overlay: OverlayView) -> Option<HelpPanel> {
    if !overlay.visible {
        None
    } else {
        let area = panel_in(screen, HELP_WIDTH, HELP_HEIGHT);
        let rows = inner_rows(area.height);
        let first = clamped_scroll(overlay.scroll_offset, HELP_LINES as nat, rows as nat);
        Some(
            HelpPanel {
                area,
                inner_height: rows,
                first_line: first as usize,
                line_count: if HELP_LINES - first < rows {
                    (HELP_LINES - first) as usize
                } else {
                    rows as usize
                },
                hint: hint_of(overlay.scroll_offset, HELP_LINES as nat, rows as nat),
            },
        )
    }
}

/// Lays the help out on `screen`; nothing where the help is closed.
pub fn help_panel(screen: Rect, overlay: &OverlayState) -> (panel: Option<HelpPanel>)
    ensures
        panel == panel_of(screen, overlay@),
        panel matches Some(p) ==> p.first_line + p.line_count <= HELP_LINES && p.line_count
            <= p.inner_height,
{
    if !overlay.is_visible() {
        return None;
    }
    let area = centered_panel(screen, HELP_WIDTH, HELP_HEIGHT);
    let rows: u16 = if area.height >= 2 {
        area.height - 2
    } else {
        0
    };
    let raw: usize = overlay.scroll_offset();
    let first: usize = effective_scroll(raw, HELP_LINES, rows as usize);
    let left: usize = HELP_LINES - first;
    let line_count: usize = if left < rows as usize {
        left
    } else {
        rows as usize
    };
    Some(
        HelpPanel {
            area,
            inner_height: rows,
            first_line: first,
            line_count,
            hint: scroll_hint(raw, HELP_LINES, rows as usize),
        },
    )
}

/// Every operation leaves the overlay well formed, and closing it by the
/// help key leaves it as it was before it was opened.
pub proof fn lemma_overlay_operations(o: OverlayView)
    requires
        o.wf(),
    ensures
        o.toggled().wf(),
        o.scrolled_up().wf(),
        o.scrolled_down().wf(),
        OverlayView::hidden().wf(),
        o.visible ==> o.toggled() == OverlayView::hidden(),
        !o.visible ==> o.scrolled_down() == o && o.scrolled_up() == o,
{
}

} // verus!
